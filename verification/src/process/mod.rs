use crate::error::Error;
use crate::ptrace;
use crate::ptrace::{RegisterLine, Registers};
use crate::traits::Valid;
use vstd::prelude::*;

pub mod procfs;

verus! {

/// The process identifier that stands for "no target".
pub const NO_TARGET: i32 = -1;

/// What the metadata reader brought back for one process. Each read may
/// fail on its own; a failed read is `None`.
pub struct Metadata {
    /// The raw command line.
    pub cmdline: Option<String>,
    /// The path of the executable.
    pub exe: Option<String>,
    /// The working directory.
    pub cwd: Option<String>,
    /// The text of the memory map.
    pub maps: Option<String>,
}

/// The mathematical content of a `Metadata`.
pub struct MetadataView {
    pub cmdline: Option<Seq<char>>,
    pub exe: Option<Seq<char>>,
    pub cwd: Option<Seq<char>>,
    pub maps: Option<Seq<char>>,
}

/// The text that a read leaves in its field: what was read, or nothing when
/// the read failed.
pub open spec fn text_or_empty(read: Option<Seq<char>>) -> Seq<char> {
    match read {
        Some(text) => text,
        None => Seq::empty(),
    }
}

/// The view of one read.
pub open spec fn read_view(read: Option<String>) -> Option<Seq<char>> {
    match read {
        Some(text) => Some(text@),
        None => None,
    }
}

impl View for Metadata {
    type V = MetadataView;

    open spec fn view(&self) -> MetadataView {
        MetadataView {
            cmdline: read_view(self.cmdline),
            exe: read_view(self.exe),
            cwd: read_view(self.cwd),
            maps: read_view(self.maps),
        }
    }
}

impl Metadata {
    /// The reads of a reader that could read nothing.
    pub fn unavailable() -> (m: Metadata)
        ensures
            m@ == (MetadataView { cmdline: None, exe: None, cwd: None, maps: None }),
    {
        Metadata { cmdline: None, exe: None, cwd: None, maps: None }
    }
}

/// The mathematical content of a process descriptor.
pub struct ProcView {
    /// The target's identifier, or `NO_TARGET`.
    pub target: int,
    pub cmdline: Seq<char>,
    pub exe: Seq<char>,
    pub cwd: Seq<char>,
    pub maps: Seq<char>,
}

impl ProcView {
    /// The descriptor that holds no target and no metadata.
    pub open spec fn empty() -> ProcView {
        ProcView {
            target: NO_TARGET as int,
            cmdline: Seq::empty(),
            exe: Seq::empty(),
            cwd: Seq::empty(),
            maps: Seq::empty(),
        }
    }

    /// Whether a target is set.
    pub open spec fn has_target(self) -> bool {
        self.target != NO_TARGET
    }

    /// The cached fields mean something only while a target is set: without
    /// one they are all empty.
    pub open spec fn wf(self) -> bool {
        !self.has_target() ==> self == ProcView::empty()
    }

    /// The descriptor of `pid` with the fields that the reads give, each
    /// failed read leaving its field empty. With `NO_TARGET` as the
    /// identifier there is nothing to describe.
    pub open spec fn populated(pid: int, reads: MetadataView) -> ProcView {
        if pid == NO_TARGET {
            ProcView::empty()
        } else {
            ProcView {
                target: pid,
                cmdline: text_or_empty(reads.cmdline),
                exe: text_or_empty(reads.exe),
                cwd: text_or_empty(reads.cwd),
                maps: text_or_empty(reads.maps),
            }
        }
    }

    /// The descriptor after an attempt to adopt `pid`: a descriptor that
    /// holds a target stays as it is.
    pub open spec fn adopted(self, pid: int, reads: MetadataView) -> ProcView {
        if self.has_target() {
            self
        } else {
            ProcView::populated(pid, reads)
        }
    }

    /// The descriptor after its fields were read again for the target it
    /// holds; without a target nothing changes.
    pub open spec fn refreshed(self, reads: MetadataView) -> ProcView {
        if self.has_target() {
            ProcView::populated(self.target, reads)
        } else {
            self
        }
    }

    /// The descriptor after its target was let go.
    pub open spec fn released(self) -> ProcView {
        ProcView::empty()
    }
}

/// The record of the one process that is traced: its identifier and the
/// metadata that was last read for it.
pub struct Proc {
    target: i32,
    cmdline: String,
    exe: String,
    cwd: String,
    maps: String,
}

impl View for Proc {
    type V = ProcView;

    closed spec fn view(&self) -> ProcView {
        ProcView {
            target: self.target as int,
            cmdline: self.cmdline@,
            exe: self.exe@,
            cwd: self.cwd@,
            maps: self.maps@,
        }
    }
}

/// Takes the text out of a read, or the empty text when the read failed.
fn into_text(read: Option<String>) -> (text: String)
    ensures
        text@ == text_or_empty(read_view(read)),
{
    match read {
        Some(text) => text,
        None => String::new(),
    }
}

impl Proc {
    /// Every descriptor is well formed.
    #[verifier::type_invariant]
    pub closed spec fn inv(self) -> bool {
        self@.wf()
    }

    /// A descriptor without a target.
    pub fn new() -> (p: Proc)
        ensures
            p@ == ProcView::empty(),
    {
        Proc {
            target: NO_TARGET,
            cmdline: String::new(),
            exe: String::new(),
            cwd: String::new(),
            maps: String::new(),
        }
    }

    /// Makes `pid` the target and fills every field from the reads, whatever
    /// the descriptor held before.
    pub fn from(&mut self, pid: i32, reads: Metadata)
        ensures
            final(self)@ == ProcView::populated(pid as int, reads@),
            final(self)@.wf(),
    {
        if pid == NO_TARGET {
            self.release();
        } else {
            let Metadata { cmdline, exe, cwd, maps } = reads;
            *self = Proc {
                target: pid,
                cmdline: into_text(cmdline),
                exe: into_text(exe),
                cwd: into_text(cwd),
                maps: into_text(maps),
            };
        }
    }

    /// Adopts `pid` as the target, with the metadata that was read for it.
    /// A descriptor that already holds a target refuses and stays as it is.
    pub fn set(&mut self, pid: i32, reads: Metadata) -> (r: Result<i32, Error>)
        ensures
            final(self)@ == old(self)@.adopted(pid as int, reads@),
            final(self)@.wf(),
            r == if old(self)@.has_target() {
                Err::<i32, Error>(Error::TargetActive)
            } else {
                Ok::<i32, Error>(pid)
            },
    {
        proof {
            use_type_invariant(&*self);
        }
        if self.target != NO_TARGET {
            return Err(Error::TargetActive);
        }
        self.from(pid, reads);
        Ok(pid)
    }

    /// The target's identifier, or `NO_TARGET`.
    pub fn get_pid(&self) -> (pid: i32)
        ensures
            pid == self@.target,
    {
        self.target
    }

    /// Whether a target is set.
    pub fn available(&self) -> (r: bool)
        ensures
            r == self@.has_target(),
            self@.wf(),
    {
        proof {
            use_type_invariant(self);
        }
        self.target != NO_TARGET
    }

    /// Replaces the cached fields by what was read again for the target. A
    /// descriptor without a target stays empty.
    pub fn update(&mut self, reads: Metadata)
        ensures
            final(self)@ == old(self)@.refreshed(reads@),
            final(self)@.wf(),
    {
        proof {
            use_type_invariant(&*self);
        }
        if self.target != NO_TARGET {
            let pid = self.target;
            self.from(pid, reads);
        }
    }

    /// Lets the target go and clears every cached field.
    pub fn release(&mut self)
        ensures
            final(self)@ == old(self)@.released(),
            final(self)@.wf(),
    {
        *self = Proc::new();
    }

    /// The command line last read for the target.
    pub fn get_cmdline(&self) -> (text: &String)
        ensures
            text@ == self@.cmdline,
    {
        &self.cmdline
    }

    /// The executable path last read for the target.
    pub fn get_exe(&self) -> (text: &String)
        ensures
            text@ == self@.exe,
    {
        &self.exe
    }

    /// The working directory last read for the target.
    pub fn get_cwd(&self) -> (text: &String)
        ensures
            text@ == self@.cwd,
    {
        &self.cwd
    }

    /// What is shown of the target: its identifier, command line,
    /// executable and working directory.
    pub fn dump(&self) -> (shown: (i32, &String, &String, &String))
        ensures
            shown.0 == self@.target,
            shown.1@ == self@.cmdline,
            shown.2@ == self@.exe,
            shown.3@ == self@.cwd,
    {
        (self.target, &self.cmdline, &self.exe, &self.cwd)
    }

    /// The memory map text last read for the target.
    pub fn dump_maps(&self) -> (text: &String)
        ensures
            text@ == self@.maps,
    {
        &self.maps
    }

    /// Reads the registers of the target.
    pub fn getregs(&self) -> (r: Result<Registers, Error>)
        ensures
            r is Ok || r == Err::<Registers, Error>(Error::TraceFailure),
    {
        ptrace::getregs(self.target)
    }

    /// Reads the register called `regname` of the target. The name is
    /// looked at first: for a name outside the supported set nothing is
    /// asked of the kernel.
    pub fn getreg(&self, regname: &str) -> (r: Result<u64, Error>)
        ensures
            ptrace::register_named(regname@) is None ==> r == Err::<u64, Error>(
                Error::UnknownRegister,
            ),
            ptrace::register_named(regname@) is Some ==> r is Ok || r == Err::<u64, Error>(
                Error::TraceFailure,
            ),
    {
        ptrace::getreg(self.target, regname)
    }

    /// Reads the registers of the target and lists them line by line.
    pub fn dump_regs(&self) -> (r: Result<Vec<RegisterLine>, Error>)
        ensures
            match r {
                Ok(lines) => exists|regs: Registers|
                    ptrace::lines_view(lines@) == #[trigger] ptrace::listing(regs),
                Err(e) => e == Error::TraceFailure,
            },
    {
        match ptrace::getregs(self.target) {
            Ok(regs) => Ok(ptrace::dumpregs(&regs)),
            Err(e) => Err(e),
        }
    }
}

impl Valid for Proc {
    open spec fn is_valid(&self) -> bool {
        self@.has_target()
    }

    fn valid(&self) -> (r: bool) {
        self.target != NO_TARGET
    }
}

/// Letting go leaves no target, and letting go twice is letting go once.
pub proof fn release_is_idempotent(p: ProcView)
    ensures
        !p.released().has_target(),
        p.released().released() == p.released(),
        p.released().wf(),
{
}

/// Reading the fields again right after an adoption that was accepted, with
/// the reader bringing back what it brought before, changes nothing.
pub proof fn refresh_after_adopt_is_stable(p: ProcView, pid: int, reads: MetadataView)
    requires
        !p.has_target(),
    ensures
        p.adopted(pid, reads).refreshed(reads) == p.adopted(pid, reads),
{
}

/// Reading the fields twice with the same reads is reading them once.
pub proof fn refresh_is_idempotent(p: ProcView, reads: MetadataView)
    ensures
        p.refreshed(reads).refreshed(reads) == p.refreshed(reads),
{
}

/// Adoption, refresh and release keep a descriptor well formed.
pub proof fn operations_keep_well_formed(p: ProcView, pid: int, reads: MetadataView)
    requires
        p.wf(),
    ensures
        p.adopted(pid, reads).wf(),
        p.refreshed(reads).wf(),
        p.released().wf(),
        ProcView::populated(pid, reads).wf(),
{
}

} // verus!
