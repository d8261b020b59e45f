use crate::error::Error;
use crate::process::{Metadata, MetadataView, Proc, ProcView};
use crate::traits::Valid;
use vstd::prelude::*;

verus! {

/// Why the ELF parser rejected a file image.
#[verifier::external_type_specification]
#[verifier::external_body]
pub struct ExParseError(elf::ParseError);

/// How the current target came under control. It is kept for diagnostics
/// and decides nothing.
#[derive(Clone, Copy, Debug, PartialEq, Eq, Structural)]
pub enum Type {
    /// The target was running and was attached to.
    Attach,
    /// The target was started by the session.
    Spawn,
    /// Not recorded; the only tag of a session without a target.
    NotAttached,
}

/// The two states of a session.
#[derive(Clone, Copy, Debug, PartialEq, Eq, Structural)]
pub enum State {
    /// No target is held.
    Idle,
    /// One target is held.
    Active,
}

/// The mathematical content of a session.
pub struct SessionView {
    /// The descriptor of the target.
    pub proc: ProcView,
    /// The path of the executable that was loaded, if one was.
    pub path: Option<Seq<char>>,
    /// How the target came under control.
    pub attach_type: Type,
}

impl SessionView {
    /// The session that holds nothing.
    pub open spec fn fresh() -> SessionView {
        SessionView { proc: ProcView::empty(), path: None, attach_type: Type::NotAttached }
    }

    /// Whether a target is held.
    pub open spec fn has_target(self) -> bool {
        self.proc.has_target()
    }

    /// The state of the session: active exactly when a target is held.
    pub open spec fn state(self) -> State {
        if self.has_target() {
            State::Active
        } else {
            State::Idle
        }
    }

    /// The descriptor is well formed, and an idle session carries no tag.
    pub open spec fn wf(self) -> bool {
        &&& self.proc.wf()
        &&& !self.has_target() ==> self.attach_type == Type::NotAttached
    }

    /// The session after an attempt to adopt `pid` without a tag. A session
    /// that holds a target stays as it is.
    pub open spec fn adopted(self, pid: int, reads: MetadataView) -> SessionView {
        SessionView { proc: self.proc.adopted(pid, reads), ..self }
    }

    /// The session after the tag `t` was recorded. Without a target there is
    /// nothing to tag.
    pub open spec fn tagged(self, t: Type) -> SessionView {
        if self.has_target() {
            SessionView { attach_type: t, ..self }
        } else {
            self
        }
    }

    /// The session after an idle session took `pid` under control in the
    /// way `t`.
    pub open spec fn taken(self, pid: int, reads: MetadataView, t: Type) -> SessionView {
        self.adopted(pid, reads).tagged(t)
    }

    /// The session after the metadata was read again.
    pub open spec fn refreshed(self, reads: MetadataView) -> SessionView {
        SessionView { proc: self.proc.refreshed(reads), ..self }
    }

    /// The session after the target was let go. The loaded executable stays.
    pub open spec fn released(self) -> SessionView {
        SessionView { proc: self.proc.released(), attach_type: Type::NotAttached, ..self }
    }

    /// The session after `path` was loaded as its executable.
    pub open spec fn loaded(self, path: Seq<char>) -> SessionView {
        SessionView { path: Some(path), ..self }
    }
}

/// One traced process at most, the executable that can be spawned, and how
/// the target came under control.
pub struct Session {
    proc: Proc,
    path: Option<String>,
    attach_type: Type,
}

impl View for Session {
    type V = SessionView;

    closed spec fn view(&self) -> SessionView {
        SessionView {
            proc: self.proc@,
            path: match self.path {
                Some(p) => Some(p@),
                None => None,
            },
            attach_type: self.attach_type,
        }
    }
}

/// Whether `ElfBytes::minimal_parse` of the `elf` crate, reading either byte
/// order, accepts a file image: a function of the bytes alone.
pub uninterp spec fn elf_parses(image: Seq<u8>) -> bool;

/// Calls `elf::ElfBytes::<AnyEndian>::minimal_parse` on the image, which
/// parses the file header and locates the section and segment tables, and
/// drops what was parsed. The call succeeds exactly when the parser accepts
/// the bytes.
#[verifier::external_body]
fn parse_elf(image: &[u8]) -> (r: Result<(), elf::ParseError>)
    ensures
        r is Ok == elf_parses(image@),
{
    match elf::ElfBytes::<elf::endian::AnyEndian>::minimal_parse(image) {
        Ok(_) => Ok(()),
        Err(e) => Err(e),
    }
}

impl Session {
    /// Every session is well formed.
    #[verifier::type_invariant]
    pub closed spec fn inv(self) -> bool {
        self@.wf()
    }

    /// A session that holds nothing.
    pub fn new() -> (s: Session)
        ensures
            s@ == SessionView::fresh(),
    {
        Session { proc: Proc::new(), path: None, attach_type: Type::NotAttached }
    }

    /// The descriptor of the target.
    pub fn proc(&self) -> (p: &Proc)
        ensures
            p@ == self@.proc,
    {
        &self.proc
    }

    /// Records `path` as the loaded executable when the parser accepted its
    /// image, and leaves the session as it is when it did not.
    pub fn record_elf(&mut self, path: String, parsed: Result<(), elf::ParseError>) -> (r: Result<
        (),
        Error,
    >)
        ensures
            parsed is Ok ==> r is Ok && final(self)@ == old(self)@.loaded(path@),
            parsed is Err ==> r == Err::<(), Error>(Error::NotAnExecutable) && final(self)@ == old(
                self,
            )@,
            final(self)@.wf(),
    {
        proof {
            use_type_invariant(&*self);
        }
        match parsed {
            Ok(()) => {
                self.path = Some(path);
                Ok(())
            },
            Err(_) => Err(Error::NotAnExecutable),
        }
    }

    /// Loads the executable at `path`, whose content is `image`: the path is
    /// recorded when the image is an ELF object, and the session stays as it
    /// is when it is not.
    pub fn set_elf(&mut self, path: String, image: &[u8]) -> (r: Result<(), Error>)
        ensures
            elf_parses(image@) ==> r is Ok && final(self)@ == old(self)@.loaded(path@),
            !elf_parses(image@) ==> r == Err::<(), Error>(Error::NotAnExecutable) && final(self)@
                == old(self)@,
            final(self)@.wf(),
    {
        let parsed = parse_elf(image);
        self.record_elf(path, parsed)
    }

    /// The path of the loaded executable, if one was loaded.
    pub fn get_path(&self) -> (p: &Option<String>)
        ensures
            match *p {
                Some(path) => self@.path == Some(path@),
                None => self@.path is None,
            },
    {
        &self.path
    }

    /// Whether an executable is loaded.
    pub fn file_available(&self) -> (r: bool)
        ensures
            r == self@.path is Some,
    {
        self.path.is_some()
    }

    /// The target's identifier, or `NO_TARGET`.
    pub fn get_target(&self) -> (pid: i32)
        ensures
            pid == self@.proc.target,
    {
        self.proc.get_pid()
    }

    /// How the target came under control.
    pub fn get_type(&self) -> (t: Type)
        ensures
            t == self@.attach_type,
    {
        self.attach_type
    }

    /// The state of the session.
    pub fn state(&self) -> (s: State)
        ensures
            s == self@.state(),
            self@.wf(),
    {
        proof {
            use_type_invariant(self);
        }
        if self.proc.available() {
            State::Active
        } else {
            State::Idle
        }
    }

    /// Adopts `target`, with the metadata that was read for it. A session
    /// that already holds a target refuses and stays as it is.
    pub fn set_target(&mut self, target: i32, reads: Metadata) -> (r: Result<i32, Error>)
        ensures
            final(self)@ == old(self)@.adopted(target as int, reads@),
            final(self)@.wf(),
            r == if old(self)@.has_target() {
                Err::<i32, Error>(Error::TargetActive)
            } else {
                Ok::<i32, Error>(target)
            },
    {
        proof {
            use_type_invariant(&*self);
        }
        if self.proc.available() {
            return Err(Error::TargetActive);
        }
        let mut adopted = Proc::new();
        adopted.from(target, reads);
        self.proc = adopted;
        Ok(target)
    }

    /// Records how the target came under control. A session without a
    /// target has nothing to tag and stays as it is.
    pub fn set_type(&mut self, t: Type)
        ensures
            final(self)@ == old(self)@.tagged(t),
            final(self)@.wf(),
    {
        proof {
            use_type_invariant(&*self);
        }
        if self.proc.available() {
            self.attach_type = t;
        }
    }

    /// The executable path last read for the target.
    pub fn get_exe(&self) -> (text: &String)
        ensures
            text@ == self@.proc.exe,
    {
        self.proc.get_exe()
    }

    /// Reads the metadata of the target again. A session without a target
    /// stays as it is.
    pub fn update(&mut self, reads: Metadata)
        ensures
            final(self)@ == old(self)@.refreshed(reads@),
            final(self)@.wf(),
    {
        proof {
            use_type_invariant(&*self);
        }
        if self.proc.available() {
            let mut refreshed = Proc::new();
            refreshed.from(self.proc.get_pid(), reads);
            self.proc = refreshed;
        }
    }

    /// Lets the target go: the descriptor is cleared and the tag reset. The
    /// loaded executable stays.
    pub fn release(&mut self)
        ensures
            final(self)@ == old(self)@.released(),
            final(self)@.wf(),
    {
        proof {
            use_type_invariant(&*self);
        }
        self.attach_type = Type::NotAttached;
        self.proc = Proc::new();
    }
}

impl Valid for Session {
    open spec fn is_valid(&self) -> bool {
        self@.has_target()
    }

    fn valid(&self) -> (r: bool) {
        self.proc.valid()
    }
}

/// Reading the metadata again right after an idle session took a target,
/// with the reader bringing back what it brought before, changes nothing.
pub proof fn refresh_after_adopt_is_stable(
    s: SessionView,
    pid: int,
    reads: MetadataView,
    t: Type,
)
    requires
        !s.has_target(),
    ensures
        s.adopted(pid, reads).refreshed(reads) == s.adopted(pid, reads),
        s.taken(pid, reads, t).refreshed(reads) == s.taken(pid, reads, t),
{
}

/// Letting the target go leaves an idle session, and letting go twice is
/// letting go once.
pub proof fn release_is_idempotent(s: SessionView)
    ensures
        !s.released().has_target(),
        s.released().state() == State::Idle,
        s.released().released() == s.released(),
{
}

} // verus!
