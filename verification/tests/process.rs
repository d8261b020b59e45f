use rsdb::error::Error;
use rsdb::process::{Metadata, Proc, NO_TARGET};
use rsdb::traits::Valid;

const GHOST_PID: i32 = 0x3fff_fff0;

fn reads(cmdline: &str, exe: &str, cwd: &str, maps: &str) -> Metadata {
    Metadata {
        cmdline: Some(cmdline.to_string()),
        exe: Some(exe.to_string()),
        cwd: Some(cwd.to_string()),
        maps: Some(maps.to_string()),
    }
}

fn assert_empty(p: &Proc) {
    assert_eq!(p.get_pid(), NO_TARGET);
    assert_eq!(p.get_cmdline(), "");
    assert_eq!(p.get_exe(), "");
    assert_eq!(p.get_cwd(), "");
    assert_eq!(p.dump_maps(), "");
}

#[test]
fn new_descriptor_is_empty() {
    let p = Proc::new();
    assert_empty(&p);
    assert!(!p.valid());
    assert!(p.invalid());
    assert!(!p.available());
}

#[test]
fn set_adopts_pid_and_metadata() {
    let mut p = Proc::new();
    let r = p.set(4242, reads("cat -n", "/bin/cat", "/tmp", "00400000-00401000 r-xp"));
    assert_eq!(r, Ok(4242));
    assert!(p.valid());
    assert!(p.available());
    assert!(!p.invalid());
    assert_eq!(p.get_pid(), 4242);
    assert_eq!(p.get_cmdline(), "cat -n");
    assert_eq!(p.get_exe(), "/bin/cat");
    assert_eq!(p.get_cwd(), "/tmp");
    assert_eq!(p.dump_maps(), "00400000-00401000 r-xp");
    let shown = p.dump();
    assert_eq!(shown.0, 4242);
    assert_eq!(shown.1, "cat -n");
    assert_eq!(shown.2, "/bin/cat");
    assert_eq!(shown.3, "/tmp");
}

#[test]
fn failed_reads_leave_fields_empty() {
    let mut p = Proc::new();
    let partial = Metadata { cmdline: None, exe: Some("/bin/ls".to_string()), cwd: None, maps: None };
    assert_eq!(p.set(7, partial), Ok(7));
    assert_eq!(p.get_pid(), 7);
    assert_eq!(p.get_cmdline(), "");
    assert_eq!(p.get_exe(), "/bin/ls");
    assert_eq!(p.get_cwd(), "");
    assert_eq!(p.dump_maps(), "");
}

#[test]
fn adoption_survives_total_metadata_failure() {
    let mut p = Proc::new();
    assert_eq!(p.set(9, Metadata::unavailable()), Ok(9));
    assert!(p.valid());
    assert_eq!(p.get_pid(), 9);
    assert_eq!(p.get_cmdline(), "");
    assert_eq!(p.get_exe(), "");
}

#[test]
fn set_refuses_when_target_is_held() {
    let mut p = Proc::new();
    assert_eq!(p.set(10, reads("a", "b", "c", "d")), Ok(10));
    let r = p.set(11, reads("w", "x", "y", "z"));
    assert_eq!(r, Err(Error::TargetActive));
    assert_eq!(p.get_pid(), 10);
    assert_eq!(p.get_cmdline(), "a");
    assert_eq!(p.get_exe(), "b");
    assert_eq!(p.get_cwd(), "c");
    assert_eq!(p.dump_maps(), "d");
}

#[test]
fn set_with_the_sentinel_adopts_nothing() {
    let mut p = Proc::new();
    assert_eq!(p.set(NO_TARGET, reads("a", "b", "c", "d")), Ok(NO_TARGET));
    assert_empty(&p);
}

#[test]
fn from_replaces_whatever_was_held() {
    let mut p = Proc::new();
    p.from(10, reads("a", "b", "c", "d"));
    p.from(11, Metadata { cmdline: Some("w".to_string()), exe: None, cwd: None, maps: None });
    assert_eq!(p.get_pid(), 11);
    assert_eq!(p.get_cmdline(), "w");
    assert_eq!(p.get_exe(), "");
    assert_eq!(p.get_cwd(), "");
    assert_eq!(p.dump_maps(), "");
    p.from(NO_TARGET, reads("a", "b", "c", "d"));
    assert_empty(&p);
}

#[test]
fn release_clears_everything() {
    let mut p = Proc::new();
    assert_eq!(p.set(10, reads("a", "b", "c", "d")), Ok(10));
    p.release();
    assert!(!p.valid());
    assert!(!p.available());
    assert_empty(&p);
}

#[test]
fn release_twice_is_release_once() {
    let mut p = Proc::new();
    assert_eq!(p.set(10, reads("a", "b", "c", "d")), Ok(10));
    p.release();
    p.release();
    assert!(!p.valid());
    assert_empty(&p);
    let mut q = Proc::new();
    q.release();
    assert_empty(&q);
}

#[test]
fn refresh_right_after_adoption_changes_nothing() {
    let mut p = Proc::new();
    assert_eq!(p.set(10, reads("a b", "/x", "/y", "map")), Ok(10));
    p.update(reads("a b", "/x", "/y", "map"));
    assert_eq!(p.get_pid(), 10);
    assert_eq!(p.get_cmdline(), "a b");
    assert_eq!(p.get_exe(), "/x");
    assert_eq!(p.get_cwd(), "/y");
    assert_eq!(p.dump_maps(), "map");
}

#[test]
fn update_replaces_every_field() {
    let mut p = Proc::new();
    assert_eq!(p.set(10, reads("a", "b", "c", "d")), Ok(10));
    p.update(Metadata { cmdline: Some("n".to_string()), exe: None, cwd: Some("/".to_string()), maps: None });
    assert_eq!(p.get_pid(), 10);
    assert_eq!(p.get_cmdline(), "n");
    assert_eq!(p.get_exe(), "");
    assert_eq!(p.get_cwd(), "/");
    assert_eq!(p.dump_maps(), "");
}

#[test]
fn update_without_target_changes_nothing() {
    let mut p = Proc::new();
    p.update(reads("a", "b", "c", "d"));
    assert_empty(&p);
}

#[test]
fn unknown_register_name_is_rejected() {
    let mut p = Proc::new();
    assert_eq!(p.getreg("not_a_register"), Err(Error::UnknownRegister));
    assert_empty(&p);
    assert_eq!(p.set(GHOST_PID, reads("a", "b", "c", "d")), Ok(GHOST_PID));
    assert_eq!(p.getreg("not_a_register"), Err(Error::UnknownRegister));
    assert_eq!(p.getreg("RAX"), Err(Error::UnknownRegister));
    assert_eq!(p.getreg("pc"), Err(Error::UnknownRegister));
    assert_eq!(p.getreg(""), Err(Error::UnknownRegister));
    assert_eq!(p.get_pid(), GHOST_PID);
    assert_eq!(p.get_cmdline(), "a");
}

#[test]
fn register_of_untraced_process_is_a_trace_failure() {
    let mut p = Proc::new();
    assert_eq!(p.set(GHOST_PID, Metadata::unavailable()), Ok(GHOST_PID));
    assert_eq!(p.getreg("rip"), Err(Error::TraceFailure));
    assert_eq!(p.getregs(), Err(Error::TraceFailure));
    assert_eq!(p.dump_regs(), Err(Error::TraceFailure));
}
