use vstd::prelude::*;

verus! {

/// Why an operation of this library did not take effect.
#[derive(Clone, Copy, Debug, PartialEq, Eq, Structural)]
pub enum Error {
    /// A request to the kernel's trace facility failed: the process does not
    /// exist, may not be traced, is already traced, or is not traced by us.
    TraceFailure,
    /// A register was asked for by a name outside the supported set.
    UnknownRegister,
    /// No child process could be started for the executable.
    SpawnFailure,
    /// The blocking wait itself failed, so nothing is known about the target.
    WaitIndeterminate,
    /// A target is already held; it has to be released first.
    TargetActive,
    /// No executable has been loaded that could be spawned.
    NoExecutable,
    /// The bytes offered as an executable are not an ELF object.
    NotAnExecutable,
}

} // verus!
