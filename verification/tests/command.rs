use rsdb::cli::command::info;
use rsdb::cli::command::{
    attach, classify, cont, decide, detach, dispatch, get_strsig, kill, quit, run, settle_attach,
    settle_detach, settle_kill, settle_spawn, spawned, vmmap, Disposition, MainLoopAction,
    Outcome, TraceEvent,
};
use rsdb::error::Error;
use rsdb::process::{Metadata, NO_TARGET};
use rsdb::ptrace::{WaitStatus, SIGKILL, SIGTERM};
use rsdb::session::{Session, State, Type};

const GHOST_PID: i32 = 0x3fff_fff0;
const SIGTRAP: i32 = 5;
const SIGSEGV: i32 = 11;

fn reads() -> Metadata {
    Metadata {
        cmdline: Some("target --flag".to_string()),
        exe: Some("/usr/bin/target".to_string()),
        cwd: Some("/home".to_string()),
        maps: Some("7f00-7f10 r--p".to_string()),
    }
}

fn active() -> Session {
    let mut s = Session::new();
    assert_eq!(s.set_target(GHOST_PID, reads()), Ok(GHOST_PID));
    s.set_type(Type::Attach);
    s
}

fn loaded() -> Session {
    let mut s = Session::new();
    assert_eq!(s.record_elf("/usr/bin/target".to_string(), Ok(())), Ok(()));
    s
}

fn assert_untouched(s: &Session) {
    assert_eq!(s.state(), State::Active);
    assert_eq!(s.get_target(), GHOST_PID);
    assert_eq!(s.get_type(), Type::Attach);
    assert_eq!(s.get_exe(), "/usr/bin/target");
    assert_eq!(s.proc().get_cmdline(), "target --flag");
}

fn assert_idle(s: &Session) {
    assert_eq!(s.state(), State::Idle);
    assert_eq!(s.get_target(), NO_TARGET);
    assert_eq!(s.get_type(), Type::NotAttached);
    assert_eq!(s.get_exe(), "");
    assert_eq!(s.proc().get_cmdline(), "");
}

#[test]
fn wait_statuses_are_classified() {
    assert_eq!(classify(WaitStatus::Exited { code: 0 }), TraceEvent::Exited { status_code: 0 });
    assert_eq!(classify(WaitStatus::Exited { code: 3 }), TraceEvent::Exited { status_code: 3 });
    assert_eq!(
        classify(WaitStatus::Stopped { signal: SIGTRAP }),
        TraceEvent::StoppedBySignal { signal: SIGTRAP }
    );
    assert_eq!(
        classify(WaitStatus::Signaled { signal: SIGKILL, core_dumped: false }),
        TraceEvent::TerminatedBySignal { signal: SIGKILL }
    );
    assert_eq!(
        classify(WaitStatus::Signaled { signal: SIGSEGV, core_dumped: true }),
        TraceEvent::TerminatedBySignal { signal: SIGSEGV }
    );
    assert_eq!(
        classify(WaitStatus::PtraceEvent { signal: SIGTRAP, event: 4 }),
        TraceEvent::UnknownStatus { raw: WaitStatus::PtraceEvent { signal: SIGTRAP, event: 4 } }
    );
    assert_eq!(
        classify(WaitStatus::PtraceSyscall),
        TraceEvent::UnknownStatus { raw: WaitStatus::PtraceSyscall }
    );
    assert_eq!(
        classify(WaitStatus::Continued),
        TraceEvent::UnknownStatus { raw: WaitStatus::Continued }
    );
    assert_eq!(
        classify(WaitStatus::StillAlive),
        TraceEvent::UnknownStatus { raw: WaitStatus::StillAlive }
    );
}

#[test]
fn events_are_disposed_of() {
    assert_eq!(decide(Ok(TraceEvent::Exited { status_code: 0 })), Disposition::Release);
    assert_eq!(decide(Ok(TraceEvent::Exited { status_code: 255 })), Disposition::Release);
    assert_eq!(decide(Ok(TraceEvent::StoppedBySignal { signal: SIGTERM })), Disposition::Escalate);
    assert_eq!(decide(Ok(TraceEvent::StoppedBySignal { signal: SIGTRAP })), Disposition::Inspect);
    assert_eq!(decide(Ok(TraceEvent::StoppedBySignal { signal: SIGKILL })), Disposition::Inspect);
    assert_eq!(decide(Ok(TraceEvent::TerminatedBySignal { signal: SIGKILL })), Disposition::Release);
    assert_eq!(decide(Ok(TraceEvent::TerminatedBySignal { signal: SIGTERM })), Disposition::Ignore);
    assert_eq!(decide(Ok(TraceEvent::TerminatedBySignal { signal: SIGSEGV })), Disposition::Ignore);
    assert_eq!(
        decide(Ok(TraceEvent::UnknownStatus { raw: WaitStatus::Continued })),
        Disposition::Ignore
    );
    assert_eq!(decide(Err(Error::WaitIndeterminate)), Disposition::Ignore);
}

#[test]
fn normal_exit_releases_and_reports_code() {
    let mut s = active();
    let out = dispatch(&mut s, Ok(WaitStatus::Exited { code: 0 }));
    assert_eq!(
        out,
        Outcome { event: Ok(TraceEvent::Exited { status_code: 0 }), escalation: None, pc: None }
    );
    assert_idle(&s);
}

#[test]
fn nonzero_exit_reports_its_code() {
    let mut s = active();
    let out = dispatch(&mut s, Ok(WaitStatus::Exited { code: 42 }));
    assert_eq!(out.event, Ok(TraceEvent::Exited { status_code: 42 }));
    assert_idle(&s);
}

#[test]
fn stop_by_sigterm_escalates_and_releases() {
    let mut s = active();
    let out = dispatch(&mut s, Ok(WaitStatus::Stopped { signal: SIGTERM }));
    assert_eq!(out.event, Ok(TraceEvent::StoppedBySignal { signal: SIGTERM }));
    assert_eq!(out.escalation, Some(Err(Error::TraceFailure)));
    assert_eq!(out.pc, None);
    assert_idle(&s);
}

#[test]
fn stop_by_sigtrap_keeps_session_active() {
    let mut s = active();
    let out = dispatch(&mut s, Ok(WaitStatus::Stopped { signal: SIGTRAP }));
    assert_eq!(out.event, Ok(TraceEvent::StoppedBySignal { signal: SIGTRAP }));
    assert_eq!(out.escalation, None);
    assert_eq!(out.pc, None);
    assert_untouched(&s);
}

#[test]
fn death_by_sigkill_releases() {
    let mut s = active();
    let out = dispatch(&mut s, Ok(WaitStatus::Signaled { signal: SIGKILL, core_dumped: false }));
    assert_eq!(
        out,
        Outcome {
            event: Ok(TraceEvent::TerminatedBySignal { signal: SIGKILL }),
            escalation: None,
            pc: None
        }
    );
    assert_idle(&s);
}

#[test]
fn death_by_other_signal_changes_nothing() {
    let mut s = active();
    let out = dispatch(&mut s, Ok(WaitStatus::Signaled { signal: SIGSEGV, core_dumped: true }));
    assert_eq!(
        out,
        Outcome {
            event: Ok(TraceEvent::TerminatedBySignal { signal: SIGSEGV }),
            escalation: None,
            pc: None
        }
    );
    assert_untouched(&s);
}

#[test]
fn other_statuses_are_reported_verbatim() {
    let mut s = active();
    let out = dispatch(&mut s, Ok(WaitStatus::PtraceEvent { signal: SIGTRAP, event: 1 }));
    assert_eq!(
        out,
        Outcome {
            event: Ok(TraceEvent::UnknownStatus {
                raw: WaitStatus::PtraceEvent { signal: SIGTRAP, event: 1 }
            }),
            escalation: None,
            pc: None
        }
    );
    assert_untouched(&s);
    let out = dispatch(&mut s, Ok(WaitStatus::Continued));
    assert_eq!(out.event, Ok(TraceEvent::UnknownStatus { raw: WaitStatus::Continued }));
    assert_untouched(&s);
}

#[test]
fn failed_wait_changes_nothing() {
    let mut s = active();
    let out = dispatch(&mut s, Err(Error::WaitIndeterminate));
    assert_eq!(out, Outcome { event: Err(Error::WaitIndeterminate), escalation: None, pc: None });
    assert_untouched(&s);
}

#[test]
fn attach_to_missing_pid_fails_and_stays_idle() {
    let mut s = Session::new();
    assert_eq!(attach(&mut s, GHOST_PID, reads()), Err(Error::TraceFailure));
    assert_idle(&s);
    assert_eq!(attach(&mut s, NO_TARGET, reads()), Err(Error::TraceFailure));
    assert_idle(&s);
}

#[test]
fn attach_is_refused_while_active() {
    let mut s = active();
    assert_eq!(attach(&mut s, 1, reads()), Err(Error::TargetActive));
    assert_untouched(&s);
    assert_eq!(settle_attach(&mut s, 77, Ok(()), Metadata::unavailable()), Err(Error::TargetActive));
    assert_untouched(&s);
}

#[test]
fn granted_attach_adopts_the_target() {
    let mut s = Session::new();
    assert_eq!(settle_attach(&mut s, 77, Ok(()), reads()), Ok(()));
    assert_eq!(s.state(), State::Active);
    assert_eq!(s.get_target(), 77);
    assert_eq!(s.get_type(), Type::Attach);
    assert_eq!(s.get_exe(), "/usr/bin/target");
    assert_eq!(s.proc().get_cwd(), "/home");
}

#[test]
fn refused_attach_leaves_session_idle() {
    let mut s = Session::new();
    assert_eq!(settle_attach(&mut s, 77, Err(Error::TraceFailure), reads()), Err(Error::TraceFailure));
    assert_idle(&s);
    assert_eq!(settle_attach(&mut s, NO_TARGET, Ok(()), reads()), Err(Error::TraceFailure));
    assert_idle(&s);
}

#[test]
fn detach_failure_keeps_the_target() {
    let mut s = active();
    assert_eq!(detach(&mut s), Err(Error::TraceFailure));
    assert_untouched(&s);
    assert_eq!(settle_detach(&mut s, Err(Error::TraceFailure)), Err(Error::TraceFailure));
    assert_untouched(&s);
}

#[test]
fn detach_success_releases() {
    let mut s = active();
    assert_eq!(settle_detach(&mut s, Ok(())), Ok(()));
    assert_idle(&s);
}

#[test]
fn kill_releases_whatever_the_kernel_says() {
    let mut s = active();
    assert_eq!(kill(&mut s), Err(Error::TraceFailure));
    assert_idle(&s);
    let mut s = active();
    assert_eq!(settle_kill(&mut s, Ok(())), Ok(()));
    assert_idle(&s);
    let mut s = active();
    assert_eq!(settle_kill(&mut s, Err(Error::TraceFailure)), Err(Error::TraceFailure));
    assert_idle(&s);
}

#[test]
fn quit_breaks_the_loop() {
    let mut s = Session::new();
    assert_eq!(quit(&mut s), (MainLoopAction::Break, None));
    assert_idle(&s);
    let mut s = active();
    assert_eq!(quit(&mut s), (MainLoopAction::Break, Some(Err(Error::TraceFailure))));
    assert_idle(&s);
}

#[test]
fn cont_reports_both_failures_and_keeps_the_target() {
    let mut s = active();
    let seen = cont(&mut s);
    assert_eq!(seen.resumed, Err(Error::TraceFailure));
    assert_eq!(
        seen.outcome,
        Outcome { event: Err(Error::WaitIndeterminate), escalation: None, pc: None }
    );
    assert_untouched(&s);
}

#[test]
fn spawn_needs_an_idle_session() {
    let mut s = active();
    assert_eq!(settle_spawn(&mut s, 99, Metadata::unavailable()), Err(Error::TargetActive));
    assert_untouched(&s);
    assert_eq!(run(&mut s, 99, Metadata::unavailable()), Err(Error::TargetActive));
    assert_untouched(&s);
}

#[test]
fn spawn_needs_a_loaded_executable() {
    let mut s = Session::new();
    assert_eq!(settle_spawn(&mut s, 99, reads()), Err(Error::NoExecutable));
    assert_idle(&s);
    assert_eq!(run(&mut s, 99, reads()), Err(Error::NoExecutable));
    assert_idle(&s);
}

#[test]
fn failed_launch_is_a_spawn_failure() {
    let mut s = loaded();
    assert_eq!(settle_spawn(&mut s, NO_TARGET, reads()), Err(Error::SpawnFailure));
    assert_idle(&s);
    assert_eq!(run(&mut s, NO_TARGET, reads()), Err(Error::SpawnFailure));
    assert_idle(&s);
    assert_eq!(spawned(NO_TARGET), Err(Error::SpawnFailure));
}

#[test]
fn launched_child_is_adopted_as_spawned() {
    let mut s = loaded();
    assert_eq!(settle_spawn(&mut s, 99, reads()), Ok(()));
    assert_eq!(s.state(), State::Active);
    assert_eq!(s.get_target(), 99);
    assert_eq!(s.get_type(), Type::Spawn);
    assert_eq!(s.get_exe(), "/usr/bin/target");
    assert_eq!(*s.get_path(), Some("/usr/bin/target".to_string()));
}

#[test]
fn run_adopts_then_observes() {
    let mut s = loaded();
    let seen = run(&mut s, GHOST_PID, reads()).unwrap();
    assert_eq!(seen.resumed, Err(Error::TraceFailure));
    assert_eq!(seen.outcome.event, Err(Error::WaitIndeterminate));
    assert_eq!(s.state(), State::Active);
    assert_eq!(s.get_target(), GHOST_PID);
    assert_eq!(s.get_type(), Type::Spawn);
}

#[test]
fn wait_without_children_is_indeterminate() {
    assert_eq!(spawned(GHOST_PID), Err(Error::WaitIndeterminate));
}

#[test]
fn undefined_signal_name() {
    assert_eq!(get_strsig(None), "UNDEFINED");
    assert_eq!(get_strsig(Some("Terminated")), "Terminated");
    assert_eq!(get_strsig(Some("")), "");
}

#[test]
fn vmmap_refreshes_and_shows_the_map() {
    let mut s = active();
    let fresh = Metadata { cmdline: None, exe: None, cwd: None, maps: Some("55aa-55bb rw-p".to_string()) };
    assert_eq!(vmmap(&mut s, fresh), "55aa-55bb rw-p");
    assert_eq!(s.get_exe(), "");
    assert_eq!(s.get_target(), GHOST_PID);
}

#[test]
fn info_proc_refreshes_and_shows_the_target() {
    let mut s = active();
    let fresh = Metadata {
        cmdline: Some("new line".to_string()),
        exe: Some("/new/exe".to_string()),
        cwd: None,
        maps: None,
    };
    let shown = info::proc(&mut s, fresh);
    assert_eq!(shown.0, GHOST_PID);
    assert_eq!(shown.1, "new line");
    assert_eq!(shown.2, "/new/exe");
    assert_eq!(shown.3, "");
}

#[test]
fn info_regs_of_untraced_target_fails() {
    let s = active();
    assert_eq!(info::regs(&s), Err(Error::TraceFailure));
}

#[test]
fn a_run_of_operations_stays_idle_or_active() {
    let mut s = loaded();
    assert_eq!(s.state(), State::Idle);
    assert_eq!(settle_attach(&mut s, 40, Ok(()), reads()), Ok(()));
    assert_eq!(s.state(), State::Active);
    assert_eq!(settle_spawn(&mut s, 41, reads()), Err(Error::TargetActive));
    assert_eq!((s.state(), s.get_target(), s.get_type()), (State::Active, 40, Type::Attach));
    assert_eq!(settle_detach(&mut s, Err(Error::TraceFailure)), Err(Error::TraceFailure));
    assert_eq!((s.state(), s.get_target(), s.get_type()), (State::Active, 40, Type::Attach));
    assert_eq!(settle_detach(&mut s, Ok(())), Ok(()));
    assert_eq!((s.state(), s.get_target(), s.get_type()), (State::Idle, NO_TARGET, Type::NotAttached));
    assert_eq!(settle_spawn(&mut s, 41, reads()), Ok(()));
    assert_eq!((s.state(), s.get_target(), s.get_type()), (State::Active, 41, Type::Spawn));
    let out = dispatch(&mut s, Ok(WaitStatus::Signaled { signal: SIGKILL, core_dumped: false }));
    assert_eq!(out.escalation, None);
    assert_eq!((s.state(), s.get_target(), s.get_type()), (State::Idle, NO_TARGET, Type::NotAttached));
    assert_eq!(quit(&mut s), (MainLoopAction::Break, None));
    assert_eq!(s.state(), State::Idle);
    assert_eq!(*s.get_path(), Some("/usr/bin/target".to_string()));
}
