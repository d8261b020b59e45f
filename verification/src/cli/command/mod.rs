use crate::error::Error;
use crate::process::{Metadata, MetadataView, ProcView, NO_TARGET};
use crate::ptrace;
use crate::ptrace::{WaitStatus, SIGKILL, SIGTERM, WANY};
use crate::session::{Session, SessionView, State, Type};
use crate::traits::Valid;
use vstd::prelude::*;

pub mod info;

verus! {

/// What the command loop does after a command.
#[derive(Clone, Copy, Debug, PartialEq, Eq, Structural)]
pub enum MainLoopAction {
    /// Go on with the next line.
    Nothing,
    /// Leave the loop.
    Break,
    /// The command was refused; go on with the next line.
    Continue,
}

/// What happened to the target, as far as a wait status tells.
#[derive(Clone, Copy, Debug, PartialEq, Eq, Structural)]
pub enum TraceEvent {
    /// The target exited normally.
    Exited { status_code: i32 },
    /// The target is alive and was stopped by a signal.
    StoppedBySignal { signal: i32 },
    /// The target was killed by a signal.
    TerminatedBySignal { signal: i32 },
    /// Any other status, kept as it was reported.
    UnknownStatus { raw: WaitStatus },
}

/// What the dispatcher does about what it observed.
#[derive(Clone, Copy, Debug, PartialEq, Eq, Structural)]
pub enum Disposition {
    /// The target is gone: let it go.
    Release,
    /// The target was asked to terminate: kill it, then let it go.
    Escalate,
    /// The target stopped and is still held: look where it stopped.
    Inspect,
    /// Nothing that changes the session.
    Ignore,
}

/// What a round of the dispatcher brought.
#[derive(Clone, Copy, Debug, PartialEq, Eq)]
pub struct Outcome {
    /// The event, or `WaitIndeterminate` when the wait itself failed.
    pub event: Result<TraceEvent, Error>,
    /// How the forced termination ended, when one was issued.
    pub escalation: Option<Result<(), Error>>,
    /// Where the target stopped, when it is still held and its registers
    /// could be read.
    pub pc: Option<u64>,
}

/// What resuming the target and waiting for it brought.
#[derive(Clone, Copy, Debug, PartialEq, Eq)]
pub struct Observation {
    /// How the request to continue ended. A failure is reported and changes
    /// nothing by itself.
    pub resumed: Result<(), Error>,
    /// What the wait reported and what was done about it.
    pub outcome: Outcome,
}

/// The event that a wait status stands for.
pub open spec fn event_of(status: WaitStatus) -> TraceEvent {
    match status {
        WaitStatus::Exited { code } => TraceEvent::Exited { status_code: code },
        WaitStatus::Stopped { signal } => TraceEvent::StoppedBySignal { signal },
        WaitStatus::Signaled { signal, core_dumped } => TraceEvent::TerminatedBySignal { signal },
        _ => TraceEvent::UnknownStatus { raw: status },
    }
}

/// The event that the result of a wait stands for: a wait that failed
/// leaves `WaitIndeterminate`.
pub open spec fn observed_event(waited: Result<WaitStatus, Error>) -> Result<TraceEvent, Error> {
    match waited {
        Ok(status) => Ok(event_of(status)),
        Err(_) => Err(Error::WaitIndeterminate),
    }
}

/// What is done about an event. Only an exit, a stop by `SIGTERM` and a
/// death by `SIGKILL` end the hold on the target.
pub open spec fn disposition_of(observed: Result<TraceEvent, Error>) -> Disposition {
    match observed {
        Ok(TraceEvent::Exited { status_code }) => Disposition::Release,
        Ok(TraceEvent::StoppedBySignal { signal }) => if signal == SIGTERM {
            Disposition::Escalate
        } else {
            Disposition::Inspect
        },
        Ok(TraceEvent::TerminatedBySignal { signal }) => if signal == SIGKILL {
            Disposition::Release
        } else {
            Disposition::Ignore
        },
        Ok(TraceEvent::UnknownStatus { raw }) => Disposition::Ignore,
        Err(_) => Disposition::Ignore,
    }
}

/// Whether a disposition ends the hold on the target.
pub open spec fn lets_go(d: Disposition) -> bool {
    d == Disposition::Release || d == Disposition::Escalate
}

/// The session after the dispatcher dealt with the result of a wait.
pub open spec fn after_wait(s: SessionView, waited: Result<WaitStatus, Error>) -> SessionView {
    if lets_go(disposition_of(observed_event(waited))) {
        s.released()
    } else {
        s
    }
}

/// The session after an attempt to attach to `pid`, and what the attempt
/// returns, given how the kernel answered. A session that holds a target
/// refuses; `NO_TARGET` names no process.
pub open spec fn after_attach(
    s: SessionView,
    pid: int,
    attached: Result<(), Error>,
    reads: MetadataView,
) -> (SessionView, Result<(), Error>) {
    if s.has_target() {
        (s, Err(Error::TargetActive))
    } else if pid == NO_TARGET || attached is Err {
        (s, Err(Error::TraceFailure))
    } else {
        (s.taken(pid, reads, Type::Attach), Ok(()))
    }
}

/// The session after an attempt to detach, given how the kernel answered:
/// the target is let go only when the kernel agreed.
pub open spec fn after_detach(s: SessionView, detached: Result<(), Error>) -> SessionView {
    if detached is Ok {
        s.released()
    } else {
        s
    }
}

/// The session after a child was started for it, and what the adoption
/// returns. A session that holds a target refuses, as does one without a
/// loaded executable; `NO_TARGET` as the child says that none was started.
pub open spec fn after_spawn(s: SessionView, child: int, reads: MetadataView) -> (
    SessionView,
    Result<(), Error>,
) {
    if s.has_target() {
        (s, Err(Error::TargetActive))
    } else if s.path is None {
        (s, Err(Error::NoExecutable))
    } else if child == NO_TARGET {
        (s, Err(Error::SpawnFailure))
    } else {
        (s.taken(child, reads, Type::Spawn), Ok(()))
    }
}

/// Whatever the kernel answers and whatever a wait reports, the commands
/// take a well-formed session to a well-formed session, which is idle or
/// active and nothing else.
pub proof fn transitions_keep_well_formed(
    s: SessionView,
    pid: int,
    answer: Result<(), Error>,
    waited: Result<WaitStatus, Error>,
    reads: MetadataView,
)
    requires
        s.wf(),
    ensures
        after_attach(s, pid, answer, reads).0.wf(),
        after_detach(s, answer).wf(),
        after_spawn(s, pid, reads).0.wf(),
        after_wait(s, waited).wf(),
        s.released().wf(),
        s.refreshed(reads).wf(),
        s.state() == State::Idle || s.state() == State::Active,
        (s.state() == State::Idle) == !s.has_target(),
{
}

/// One operation on a session, together with everything that decides how
/// it ends: what the kernel answered, what the wait reported and what the
/// reader brought back.
pub enum Operation {
    /// An attempt to attach to a process.
    Attach { pid: int, answer: Result<(), Error>, reads: MetadataView },
    /// The adoption of a child that was started.
    Spawn { child: int, reads: MetadataView },
    /// An attempt to detach.
    Detach { answer: Result<(), Error> },
    /// A forced termination.
    Kill,
    /// A round of resuming and waiting.
    Resume { waited: Result<WaitStatus, Error> },
    /// A refresh of the metadata.
    Refresh { reads: MetadataView },
    /// The loading of an executable.
    Load { path: Seq<char> },
    /// The end of the run.
    Quit,
}

/// The session after one operation. Detaching, killing and resuming need a
/// target and are not made without one.
pub open spec fn after(s: SessionView, op: Operation) -> SessionView {
    match op {
        Operation::Attach { pid, answer, reads } => after_attach(s, pid, answer, reads).0,
        Operation::Spawn { child, reads } => after_spawn(s, child, reads).0,
        Operation::Detach { answer } => if s.has_target() {
            after_detach(s, answer)
        } else {
            s
        },
        Operation::Kill => if s.has_target() {
            s.released()
        } else {
            s
        },
        Operation::Resume { waited } => if s.has_target() {
            after_wait(s, waited)
        } else {
            s
        },
        Operation::Refresh { reads } => s.refreshed(reads),
        Operation::Load { path } => s.loaded(path),
        Operation::Quit => if s.has_target() {
            s.released()
        } else {
            s
        },
    }
}

/// The session after a sequence of operations, made one after the other.
pub open spec fn after_all(s: SessionView, ops: Seq<Operation>) -> SessionView
    decreases ops.len(),
{
    if ops.len() == 0 {
        s
    } else {
        after(after_all(s, ops.drop_last()), ops.last())
    }
}

/// Whatever is done to a new session, in whatever order and however the
/// kernel answers, the session stays well formed: it is idle or active and
/// nothing else, and while it is idle it holds no target, no metadata and
/// no tag.
pub proof fn every_run_is_well_formed(ops: Seq<Operation>)
    ensures
        after_all(SessionView::fresh(), ops).wf(),
        after_all(SessionView::fresh(), ops).state() == State::Idle || after_all(
            SessionView::fresh(),
            ops,
        ).state() == State::Active,
        after_all(SessionView::fresh(), ops).state() == State::Idle ==> {
            &&& after_all(SessionView::fresh(), ops).proc == ProcView::empty()
            &&& after_all(SessionView::fresh(), ops).attach_type == Type::NotAttached
        },
    decreases ops.len(),
{
    if ops.len() > 0 {
        every_run_is_well_formed(ops.drop_last());
    }
}

/// An active session refuses to attach and to spawn, and stays as it is.
pub proof fn active_session_refuses(
    s: SessionView,
    pid: int,
    answer: Result<(), Error>,
    reads: MetadataView,
)
    requires
        s.state() == State::Active,
    ensures
        after_attach(s, pid, answer, reads) == (s, Err::<(), Error>(Error::TargetActive)),
        after_spawn(s, pid, reads) == (s, Err::<(), Error>(Error::TargetActive)),
{
}

/// Names a signal: the description that the platform gave, or `UNDEFINED`
/// when it gave none.
pub fn get_strsig<'a>(described: Option<&'a str>) -> (name: &'a str)
    ensures
        name@ == match described {
            Some(d) => d@,
            None => "UNDEFINED"@,
        },
{
    match described {
        Some(d) => d,
        None => "UNDEFINED",
    }
}

/// Reads a wait status as an event.
pub fn classify(status: WaitStatus) -> (event: TraceEvent)
    ensures
        event == event_of(status),
{
    match status {
        WaitStatus::Exited { code } => TraceEvent::Exited { status_code: code },
        WaitStatus::Stopped { signal } => TraceEvent::StoppedBySignal { signal },
        WaitStatus::Signaled { signal, core_dumped: _ } => TraceEvent::TerminatedBySignal {
            signal,
        },
        _ => TraceEvent::UnknownStatus { raw: status },
    }
}

/// Decides what to do about an event.
pub fn decide(observed: Result<TraceEvent, Error>) -> (d: Disposition)
    ensures
        d == disposition_of(observed),
{
    match observed {
        Ok(TraceEvent::Exited { status_code: _ }) => Disposition::Release,
        Ok(TraceEvent::StoppedBySignal { signal }) => if signal == SIGTERM {
            Disposition::Escalate
        } else {
            Disposition::Inspect
        },
        Ok(TraceEvent::TerminatedBySignal { signal }) => if signal == SIGKILL {
            Disposition::Release
        } else {
            Disposition::Ignore
        },
        Ok(TraceEvent::UnknownStatus { raw: _ }) => Disposition::Ignore,
        Err(_) => Disposition::Ignore,
    }
}

/// Adopts `newtarget` as attached when the kernel granted trace control,
/// and leaves the session as it is when it did not.
pub fn settle_attach(
    session: &mut Session,
    newtarget: i32,
    attached: Result<(), Error>,
    reads: Metadata,
) -> (r: Result<(), Error>)
    ensures
        (final(session)@, r) == after_attach(old(session)@, newtarget as int, attached, reads@),
{
    if session.valid() {
        return Err(Error::TargetActive);
    }
    if newtarget == NO_TARGET {
        return Err(Error::TraceFailure);
    }
    match attached {
        Ok(()) => {
            let _ = session.set_target(newtarget, reads);
            session.set_type(Type::Attach);
            Ok(())
        },
        Err(_) => Err(Error::TraceFailure),
    }
}

/// Attaches to the process `newtarget` and waits for it to stop; on success
/// adopts it, with the metadata that was read for it. A session that holds
/// a target refuses before anything is asked of the kernel.
pub fn attach(session: &mut Session, newtarget: i32, reads: Metadata) -> (r: Result<(), Error>)
    ensures
        (final(session)@, r) == after_attach(old(session)@, newtarget as int, Ok(()), reads@) || (
        final(session)@, r) == after_attach(
            old(session)@,
            newtarget as int,
            Err(Error::TraceFailure),
            reads@,
        ),
{
    if session.valid() {
        return Err(Error::TargetActive);
    }
    if newtarget == NO_TARGET {
        return Err(Error::TraceFailure);
    }
    let attached = ptrace::attach_wait(newtarget);
    settle_attach(session, newtarget, attached, reads)
}

/// Lets the target go when the kernel agreed to the detach, and leaves the
/// session as it is when it did not. Returns what the kernel answered.
pub fn settle_detach(session: &mut Session, detached: Result<(), Error>) -> (r: Result<(), Error>)
    ensures
        final(session)@ == after_detach(old(session)@, detached),
        r == detached,
{
    if detached.is_ok() {
        session.release();
    }
    detached
}

/// Gives up trace control of the target. On success the session is idle;
/// on failure the target stays held.
pub fn detach(session: &mut Session) -> (r: Result<(), Error>)
    requires
        old(session)@.has_target(),
    ensures
        final(session)@ == after_detach(old(session)@, r),
        r is Ok || r == Err::<(), Error>(Error::TraceFailure),
{
    let detached = ptrace::detach(session.get_target());
    settle_detach(session, detached)
}

/// Lets the target go after a forced termination, however that ended.
/// Returns how it ended.
pub fn settle_kill(session: &mut Session, killed: Result<(), Error>) -> (r: Result<(), Error>)
    ensures
        final(session)@ == old(session)@.released(),
        r == killed,
{
    session.release();
    killed
}

/// Kills the target through the trace interface. The session is idle
/// afterwards, whether or not the kernel accepted the request; the result
/// says which.
pub fn kill(session: &mut Session) -> (r: Result<(), Error>)
    requires
        old(session)@.has_target(),
    ensures
        final(session)@ == old(session)@.released(),
        r is Ok || r == Err::<(), Error>(Error::TraceFailure),
{
    let killed = ptrace::sigkill(session.get_target());
    settle_kill(session, killed)
}

/// Ends the run: a target that is still held is killed first. Returns the
/// order to leave the loop and, when there was a target, how the kill
/// ended.
pub fn quit(session: &mut Session) -> (r: (MainLoopAction, Option<Result<(), Error>>))
    ensures
        r.0 == MainLoopAction::Break,
        r.1 is Some == old(session)@.has_target(),
        r.1 matches Some(killed) ==> killed is Ok || killed == Err::<(), Error>(
            Error::TraceFailure,
        ),
        final(session)@ == (if old(session)@.has_target() {
            old(session)@.released()
        } else {
            old(session)@
        }),
{
    if session.valid() {
        let killed = kill(session);
        (MainLoopAction::Break, Some(killed))
    } else {
        (MainLoopAction::Break, None)
    }
}

/// Deals with the result of a wait for the target: classifies it, kills
/// the target when it was asked to terminate, lets it go when it is gone,
/// and looks up where it stopped when it is still held.
pub fn dispatch(session: &mut Session, waited: Result<WaitStatus, Error>) -> (out: Outcome)
    requires
        old(session)@.has_target(),
    ensures
        final(session)@ == after_wait(old(session)@, waited),
        out.event == observed_event(waited),
        out.escalation is Some == (disposition_of(out.event) == Disposition::Escalate),
        out.escalation matches Some(k) ==> k is Ok || k == Err::<(), Error>(Error::TraceFailure),
        out.pc is Some ==> disposition_of(out.event) == Disposition::Inspect,
{
    let event = match waited {
        Ok(status) => Ok(classify(status)),
        Err(_) => Err(Error::WaitIndeterminate),
    };
    match decide(event) {
        Disposition::Release => {
            session.release();
            Outcome { event, escalation: None, pc: None }
        },
        Disposition::Escalate => {
            let killed = ptrace::sigkill(session.get_target());
            session.release();
            Outcome { event, escalation: Some(killed), pc: None }
        },
        Disposition::Inspect => {
            let pc = match session.proc().getreg("rip") {
                Ok(value) => Some(value),
                Err(_) => None,
            };
            Outcome { event, escalation: None, pc }
        },
        Disposition::Ignore => {
            Outcome { event, escalation: None, pc: None }
        },
    }
}

/// Resumes the target, blocks until the kernel reports a change of its
/// status, and deals with the report. That the request to continue failed
/// is reported and does not keep the wait from being made.
pub fn cont(session: &mut Session) -> (seen: Observation)
    requires
        old(session)@.has_target(),
    ensures
        seen.resumed is Ok || seen.resumed == Err::<(), Error>(Error::TraceFailure),
        final(session)@ == (if lets_go(disposition_of(seen.outcome.event)) {
            old(session)@.released()
        } else {
            old(session)@
        }),
        seen.outcome.event is Ok || seen.outcome.event == Err::<TraceEvent, Error>(
            Error::WaitIndeterminate,
        ),
        seen.outcome.escalation is Some == (disposition_of(seen.outcome.event)
            == Disposition::Escalate),
        seen.outcome.pc is Some ==> disposition_of(seen.outcome.event) == Disposition::Inspect,
{
    let target = session.get_target();
    let resumed = ptrace::cont(target);
    let waited = ptrace::waitpid(target, WANY);
    let outcome = dispatch(session, waited);
    Observation { resumed, outcome }
}

/// Adopts the child that was started for the loaded executable, with the
/// metadata that was read for it once it had stopped. Nothing changes when
/// the session holds a target, has no executable loaded, or no child was
/// started.
pub fn settle_spawn(session: &mut Session, child: i32, reads: Metadata) -> (r: Result<(), Error>)
    ensures
        (final(session)@, r) == after_spawn(old(session)@, child as int, reads@),
{
    if session.valid() {
        return Err(Error::TargetActive);
    }
    if !session.file_available() {
        return Err(Error::NoExecutable);
    }
    if child == NO_TARGET {
        return Err(Error::SpawnFailure);
    }
    let _ = session.set_target(child, reads);
    session.set_type(Type::Spawn);
    Ok(())
}

/// Waits for the child that was just started to reach its first stop. The
/// wait is for any child, as it follows the fork directly. `NO_TARGET` as
/// the child says that none was started: nothing is waited for.
pub fn spawned(child: i32) -> (r: Result<(), Error>)
    ensures
        child == NO_TARGET ==> r == Err::<(), Error>(Error::SpawnFailure),
        child != NO_TARGET ==> r is Ok || r == Err::<(), Error>(Error::WaitIndeterminate),
{
    if child == NO_TARGET {
        return Err(Error::SpawnFailure);
    }
    match ptrace::waitpid(ptrace::ANY_CHILD, WANY) {
        Ok(_) => Ok(()),
        Err(e) => Err(e),
    }
}

/// Adopts the child that was started for the loaded executable, then
/// resumes it and deals with what the wait reports. When the child cannot
/// be adopted nothing is asked of the kernel.
pub fn run(session: &mut Session, child: i32, reads: Metadata) -> (r: Result<Observation, Error>)
    ensures
        r matches Err(e) ==> (final(session)@, Err::<(), Error>(e)) == after_spawn(
            old(session)@,
            child as int,
            reads@,
        ),
        r matches Ok(seen) ==> {
            let adopted = after_spawn(old(session)@, child as int, reads@);
            &&& adopted.1 is Ok
            &&& final(session)@ == (if lets_go(disposition_of(seen.outcome.event)) {
                adopted.0.released()
            } else {
                adopted.0
            })
        },
        after_spawn(old(session)@, child as int, reads@).1 is Ok == r is Ok,
{
    match settle_spawn(session, child, reads) {
        Ok(()) => Ok(cont(session)),
        Err(e) => Err(e),
    }
}

/// Reads the metadata of the target again and shows its memory map.
pub fn vmmap(session: &mut Session, reads: Metadata) -> (maps: &String)
    ensures
        final(session)@ == old(session)@.refreshed(reads@),
        maps@ == final(session)@.proc.maps,
{
    session.update(reads);
    session.proc().dump_maps()
}

} // verus!
