use crate::text::same_text;
use vstd::prelude::*;

verus! {

/// Why the tracer does not run on a platform.
#[derive(Clone, Copy, Debug, PartialEq, Eq, Structural)]
pub enum PlatformChecks {
    /// The operating system is neither Linux nor Android.
    UnsupportedOS,
    /// The processor is neither x86-64 nor AArch64.
    UnsupportedArch,
}

/// The verdict on a platform. The processor is looked at first.
pub open spec fn platform_verdict(arch: Seq<char>, os: Seq<char>) -> Result<(), PlatformChecks> {
    if !(arch == "x86_64"@ || arch == "aarch64"@) {
        Err(PlatformChecks::UnsupportedArch)
    } else if !(os == "linux"@ || os == "android"@) {
        Err(PlatformChecks::UnsupportedOS)
    } else {
        Ok(())
    }
}

/// Tells whether the tracer runs on a platform, named as the compiler
/// names its processor and operating system.
pub fn platform_checks(arch: &str, os: &str) -> (r: Result<(), PlatformChecks>)
    ensures
        r == platform_verdict(arch@, os@),
{
    if !(same_text(arch, "x86_64") || same_text(arch, "aarch64")) {
        return Err(PlatformChecks::UnsupportedArch);
    }
    if !(same_text(os, "linux") || same_text(os, "android")) {
        return Err(PlatformChecks::UnsupportedOS);
    }
    Ok(())
}

} // verus!
