use crate::error::Error;
use crate::process::Metadata;
use crate::ptrace;
use crate::ptrace::{RegisterLine, Registers};
use crate::session::Session;
use vstd::prelude::*;

verus! {

/// Lists the registers of the target.
pub fn regs(session: &Session) -> (r: Result<Vec<RegisterLine>, Error>)
    ensures
        match r {
            Ok(lines) => exists|regs: Registers|
                ptrace::lines_view(lines@) == #[trigger] ptrace::listing(regs),
            Err(e) => e == Error::TraceFailure,
        },
{
    session.proc().dump_regs()
}

/// Reads the metadata of the target again and shows its identifier, command
/// line, executable and working directory.
pub fn proc(session: &mut Session, reads: Metadata) -> (shown: (i32, &String, &String, &String))
    ensures
        final(session)@ == old(session)@.refreshed(reads@),
        shown.0 == final(session)@.proc.target,
        shown.1@ == final(session)@.proc.cmdline,
        shown.2@ == final(session)@.proc.exe,
        shown.3@ == final(session)@.proc.cwd,
{
    session.update(reads);
    session.proc().dump()
}

} // verus!
