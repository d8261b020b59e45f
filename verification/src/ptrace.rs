use crate::error::Error;
use crate::text::same_text;
use nix::sys::wait::WaitPidFlag;
use nix::sys::wait::WaitStatus as Reported;
use vstd::prelude::*;

verus! {

/// The kernel's error code, as the system-call layer reports it.
#[verifier::external_type_specification]
#[verifier::external_body]
pub struct ExErrno(nix::errno::Errno);

/// Signal number of the kill request that cannot be caught or ignored.
pub const SIGKILL: i32 = 9;

/// Signal number of the polite request to terminate.
pub const SIGTERM: i32 = 15;

/// Wait option: report children that have stopped, too.
pub const WSTOPPED: i32 = 2;

/// Wait option: none; report any change of status.
pub const WANY: i32 = 0;

/// Process identifier that stands for "any child" in a wait.
pub const ANY_CHILD: i32 = -1;

/// What a wait reported about a child. The process identifier is left out:
/// nothing here depends on it.
#[derive(Clone, Copy, Debug, PartialEq, Eq, Structural)]
pub enum WaitStatus {
    /// The process exited normally with this code.
    Exited { code: i32 },
    /// The process was killed by this signal.
    Signaled { signal: i32, core_dumped: bool },
    /// The process is alive and was stopped by this signal.
    Stopped { signal: i32 },
    /// The process was stopped by a trace event.
    PtraceEvent { signal: i32, event: i32 },
    /// The process was stopped on entry to or exit from a system call.
    PtraceSyscall,
    /// The process was resumed.
    Continued,
    /// Nothing has changed yet.
    StillAlive,
}

/// A snapshot of the general-purpose registers of a stopped process.
#[derive(Clone, Copy, Debug, PartialEq, Eq, Structural)]
pub struct Registers {
    pub rax: u64,
    pub rbx: u64,
    pub rcx: u64,
    pub rdx: u64,
    pub rdi: u64,
    pub r8: u64,
    pub r9: u64,
    pub r10: u64,
    pub r11: u64,
    pub r12: u64,
    pub r13: u64,
    pub r14: u64,
    pub r15: u64,
    pub rsp: u64,
    pub rbp: u64,
    pub rip: u64,
}

/// The registers that can be asked for by name.
#[derive(Clone, Copy, Debug, PartialEq, Eq, Structural)]
pub enum Register {
    Rax,
    Rbx,
    Rcx,
    Rdx,
    R8,
    R9,
    R10,
    R11,
    R12,
    R13,
    R14,
    R15,
    Rsp,
    Rbp,
    Rip,
}

/// One line of a register listing.
#[derive(Clone, Copy, Debug, PartialEq, Eq)]
pub struct RegisterLine {
    pub name: &'static str,
    pub value: u64,
}

/// The register that a name stands for. Names are matched exactly and with
/// regard to case.
pub open spec fn register_named(name: Seq<char>) -> Option<Register> {
    if name == "rax"@ {
        Some(Register::Rax)
    } else if name == "rbx"@ {
        Some(Register::Rbx)
    } else if name == "rcx"@ {
        Some(Register::Rcx)
    } else if name == "rdx"@ {
        Some(Register::Rdx)
    } else if name == "r8"@ {
        Some(Register::R8)
    } else if name == "r9"@ {
        Some(Register::R9)
    } else if name == "r10"@ {
        Some(Register::R10)
    } else if name == "r11"@ {
        Some(Register::R11)
    } else if name == "r12"@ {
        Some(Register::R12)
    } else if name == "r13"@ {
        Some(Register::R13)
    } else if name == "r14"@ {
        Some(Register::R14)
    } else if name == "r15"@ {
        Some(Register::R15)
    } else if name == "rsp"@ {
        Some(Register::Rsp)
    } else if name == "rbp"@ {
        Some(Register::Rbp)
    } else if name == "rip"@ {
        Some(Register::Rip)
    } else {
        None
    }
}

/// Each supported name stands for its own register: no two names are the
/// same text.
pub proof fn register_names_are_distinct()
    ensures
        register_named("rax"@) == Some(Register::Rax),
        register_named("rbx"@) == Some(Register::Rbx),
        register_named("rcx"@) == Some(Register::Rcx),
        register_named("rdx"@) == Some(Register::Rdx),
        register_named("r8"@) == Some(Register::R8),
        register_named("r9"@) == Some(Register::R9),
        register_named("r10"@) == Some(Register::R10),
        register_named("r11"@) == Some(Register::R11),
        register_named("r12"@) == Some(Register::R12),
        register_named("r13"@) == Some(Register::R13),
        register_named("r14"@) == Some(Register::R14),
        register_named("r15"@) == Some(Register::R15),
        register_named("rsp"@) == Some(Register::Rsp),
        register_named("rbp"@) == Some(Register::Rbp),
        register_named("rip"@) == Some(Register::Rip),
{
    reveal_strlit("rax");
    reveal_strlit("rbx");
    reveal_strlit("rcx");
    reveal_strlit("rdx");
    reveal_strlit("r8");
    reveal_strlit("r9");
    reveal_strlit("r10");
    reveal_strlit("r11");
    reveal_strlit("r12");
    reveal_strlit("r13");
    reveal_strlit("r14");
    reveal_strlit("r15");
    reveal_strlit("rsp");
    reveal_strlit("rbp");
    reveal_strlit("rip");
    assert("rax"@[1] == 'a' && "rbx"@[1] == 'b' && "rcx"@[1] == 'c' && "rdx"@[1] == 'd');
    assert("rsp"@[1] == 's' && "rbp"@[2] == 'p' && "rip"@[1] == 'i' && "rbx"@[2] == 'x');
    assert("r8"@[1] == '8' && "r9"@[1] == '9' && "r8"@.len() == 2 && "r9"@.len() == 2);
    assert("r10"@[2] == '0' && "r11"@[2] == '1' && "r12"@[2] == '2' && "r13"@[2] == '3');
    assert("r14"@[2] == '4' && "r15"@[2] == '5' && "r10"@[1] == '1' && "r10"@.len() == 3);
    assert("r11"@[1] == '1' && "r12"@[1] == '1' && "r13"@[1] == '1' && "r14"@[1] == '1' && "r15"@[1]
        == '1');
}

impl Register {
    /// Finds the register that `name` stands for, if it is a supported name.
    pub fn parse(name: &str) -> (r: Option<Register>)
        ensures
            r == register_named(name@),
    {
        if same_text(name, "rax") {
            Some(Register::Rax)
        } else if same_text(name, "rbx") {
            Some(Register::Rbx)
        } else if same_text(name, "rcx") {
            Some(Register::Rcx)
        } else if same_text(name, "rdx") {
            Some(Register::Rdx)
        } else if same_text(name, "r8") {
            Some(Register::R8)
        } else if same_text(name, "r9") {
            Some(Register::R9)
        } else if same_text(name, "r10") {
            Some(Register::R10)
        } else if same_text(name, "r11") {
            Some(Register::R11)
        } else if same_text(name, "r12") {
            Some(Register::R12)
        } else if same_text(name, "r13") {
            Some(Register::R13)
        } else if same_text(name, "r14") {
            Some(Register::R14)
        } else if same_text(name, "r15") {
            Some(Register::R15)
        } else if same_text(name, "rsp") {
            Some(Register::Rsp)
        } else if same_text(name, "rbp") {
            Some(Register::Rbp)
        } else if same_text(name, "rip") {
            Some(Register::Rip)
        } else {
            None
        }
    }
}

impl Registers {
    /// The value that the snapshot holds for a register.
    pub open spec fn value_of(self, reg: Register) -> u64 {
        match reg {
            Register::Rax => self.rax,
            Register::Rbx => self.rbx,
            Register::Rcx => self.rcx,
            Register::Rdx => self.rdx,
            Register::R8 => self.r8,
            Register::R9 => self.r9,
            Register::R10 => self.r10,
            Register::R11 => self.r11,
            Register::R12 => self.r12,
            Register::R13 => self.r13,
            Register::R14 => self.r14,
            Register::R15 => self.r15,
            Register::Rsp => self.rsp,
            Register::Rbp => self.rbp,
            Register::Rip => self.rip,
        }
    }

    /// What asking the snapshot for `name` gives: the register's value, or
    /// `UnknownRegister` for a name outside the supported set.
    pub open spec fn named(self, name: Seq<char>) -> Result<u64, Error> {
        match register_named(name) {
            Some(reg) => Ok(self.value_of(reg)),
            None => Err(Error::UnknownRegister),
        }
    }

    /// Reads one register out of the snapshot.
    pub fn read(&self, reg: Register) -> (v: u64)
        ensures
            v == self.value_of(reg),
    {
        match reg {
            Register::Rax => self.rax,
            Register::Rbx => self.rbx,
            Register::Rcx => self.rcx,
            Register::Rdx => self.rdx,
            Register::R8 => self.r8,
            Register::R9 => self.r9,
            Register::R10 => self.r10,
            Register::R11 => self.r11,
            Register::R12 => self.r12,
            Register::R13 => self.r13,
            Register::R14 => self.r14,
            Register::R15 => self.r15,
            Register::Rsp => self.rsp,
            Register::Rbp => self.rbp,
            Register::Rip => self.rip,
        }
    }

    /// Reads the register called `regname` out of the snapshot.
    pub fn getreg(&self, regname: &str) -> (r: Result<u64, Error>)
        ensures
            r == self.named(regname@),
    {
        match Register::parse(regname) {
            Some(reg) => Ok(self.read(reg)),
            None => Err(Error::UnknownRegister),
        }
    }
}

/// Calls `nix::sys::ptrace::attach`, which issues `PTRACE_ATTACH` for the
/// process. Nothing is claimed about the outcome: the kernel decides.
#[verifier::external_body]
fn ptrace_attach(target: i32) -> Result<(), nix::errno::Errno> {
    nix::sys::ptrace::attach(nix::unistd::Pid::from_raw(target))
}

/// Calls `nix::sys::ptrace::detach` without a signal, which issues
/// `PTRACE_DETACH`. Nothing is claimed about the outcome.
#[verifier::external_body]
fn ptrace_detach(target: i32) -> Result<(), nix::errno::Errno> {
    nix::sys::ptrace::detach(nix::unistd::Pid::from_raw(target), None)
}

/// Calls `nix::sys::ptrace::cont` without a signal, which issues
/// `PTRACE_CONT`. Nothing is claimed about the outcome.
#[verifier::external_body]
fn ptrace_cont(target: i32) -> Result<(), nix::errno::Errno> {
    nix::sys::ptrace::cont(nix::unistd::Pid::from_raw(target), None)
}

/// Calls `nix::sys::ptrace::kill`, which issues `PTRACE_KILL`. Nothing is
/// claimed about the outcome.
#[verifier::external_body]
fn ptrace_kill(target: i32) -> Result<(), nix::errno::Errno> {
    nix::sys::ptrace::kill(nix::unistd::Pid::from_raw(target))
}

/// Calls `nix::sys::ptrace::getregs`, which issues `PTRACE_GETREGS`, and
/// copies the registers out field by field. Nothing is claimed about the
/// outcome.
#[verifier::external_body]
fn ptrace_getregs(target: i32) -> Result<Registers, nix::errno::Errno> {
    let r = nix::sys::ptrace::getregs(nix::unistd::Pid::from_raw(target))?;
    Ok(Registers {
        rax: r.rax, rbx: r.rbx, rcx: r.rcx, rdx: r.rdx, rdi: r.rdi,
        r8: r.r8, r9: r.r9, r10: r.r10, r11: r.r11,
        r12: r.r12, r13: r.r13, r14: r.r14, r15: r.r15,
        rsp: r.rsp, rbp: r.rbp, rip: r.rip,
    })
}

/// Calls `nix::sys::wait::waitpid` with the option bits given, which blocks
/// until the kernel reports a status for the process (for any child, when
/// `target` is -1), and copies the status out variant by variant. Nothing is
/// claimed about the outcome.
#[verifier::external_body]
fn wait_status(target: i32, options: i32) -> Result<WaitStatus, nix::errno::Errno> {
    let pid = nix::unistd::Pid::from_raw(target);
    Ok(match nix::sys::wait::waitpid(pid, WaitPidFlag::from_bits(options))? {
        Reported::Exited(_, code) => WaitStatus::Exited { code },
        Reported::Signaled(_, s, core_dumped) => WaitStatus::Signaled { signal: s as i32, core_dumped },
        Reported::Stopped(_, s) => WaitStatus::Stopped { signal: s as i32 },
        Reported::PtraceEvent(_, s, event) => WaitStatus::PtraceEvent { signal: s as i32, event },
        Reported::PtraceSyscall(_) => WaitStatus::PtraceSyscall,
        Reported::Continued(_) => WaitStatus::Continued,
        Reported::StillAlive => WaitStatus::StillAlive,
    })
}

/// Turns the outcome of a trace request into the library's typed result:
/// every kernel error becomes `TraceFailure`.
pub fn trace_result<T>(outcome: Result<T, nix::errno::Errno>) -> (r: Result<T, Error>)
    ensures
        r == match outcome {
            Ok(v) => Ok::<T, Error>(v),
            Err(_) => Err::<T, Error>(Error::TraceFailure),
        },
{
    match outcome {
        Ok(v) => Ok(v),
        Err(_) => Err(Error::TraceFailure),
    }
}

/// Turns the outcome of a wait into the library's typed result: every
/// kernel error becomes `WaitIndeterminate`.
pub fn wait_result(outcome: Result<WaitStatus, nix::errno::Errno>) -> (r: Result<WaitStatus, Error>)
    ensures
        r == match outcome {
            Ok(status) => Ok::<WaitStatus, Error>(status),
            Err(_) => Err::<WaitStatus, Error>(Error::WaitIndeterminate),
        },
{
    match outcome {
        Ok(status) => Ok(status),
        Err(_) => Err(Error::WaitIndeterminate),
    }
}

/// What the wait that follows a granted attach makes of the attach: it
/// stands when the wait reported a status, and is a `TraceFailure` when the
/// wait failed.
pub fn confirm_stop(waited: Result<WaitStatus, Error>) -> (r: Result<(), Error>)
    ensures
        r == match waited {
            Ok(_) => Ok::<(), Error>(()),
            Err(_) => Err::<(), Error>(Error::TraceFailure),
        },
{
    match waited {
        Ok(_) => Ok(()),
        Err(_) => Err(Error::TraceFailure),
    }
}

/// Asks the kernel for trace control of the process. Does not wait for the
/// process to stop.
pub fn attach(target: i32) -> (r: Result<(), Error>)
    ensures
        r is Ok || r == Err::<(), Error>(Error::TraceFailure),
{
    trace_result(ptrace_attach(target))
}

/// Blocks until the kernel reports a status for the process, stopped
/// children included when `options` is `WSTOPPED`. With `ANY_CHILD` as the
/// target the wait is for any child.
pub fn waitpid(target: i32, options: i32) -> (r: Result<WaitStatus, Error>)
    ensures
        r is Ok || r == Err::<WaitStatus, Error>(Error::WaitIndeterminate),
{
    wait_result(wait_status(target, options))
}

/// Asks for trace control of the process, then blocks until the kernel
/// reports that it has stopped. The wait is not made when the request was
/// refused.
pub fn attach_wait(target: i32) -> (r: Result<(), Error>)
    ensures
        r is Ok || r == Err::<(), Error>(Error::TraceFailure),
{
    match attach(target) {
        Ok(()) => confirm_stop(waitpid(target, WSTOPPED)),
        Err(e) => Err(e),
    }
}

/// Gives up trace control of the process, which then runs on its own.
pub fn detach(target: i32) -> (r: Result<(), Error>)
    ensures
        r is Ok || r == Err::<(), Error>(Error::TraceFailure),
{
    trace_result(ptrace_detach(target))
}

/// Resumes the stopped process without delivering a signal. Does not block.
pub fn cont(target: i32) -> (r: Result<(), Error>)
    ensures
        r is Ok || r == Err::<(), Error>(Error::TraceFailure),
{
    trace_result(ptrace_cont(target))
}

/// Sends the kill request through the trace interface, then blocks until
/// the kernel reports a status for the process. The result is that of the
/// kill request; how the wait ended does not change it.
pub fn sigkill(target: i32) -> (r: Result<(), Error>)
    ensures
        r is Ok || r == Err::<(), Error>(Error::TraceFailure),
{
    let killed = trace_result(ptrace_kill(target));
    let _ = waitpid(target, WSTOPPED);
    killed
}

/// Reads the general-purpose registers of the stopped process.
pub fn getregs(target: i32) -> (r: Result<Registers, Error>)
    ensures
        r is Ok || r == Err::<Registers, Error>(Error::TraceFailure),
{
    trace_result(ptrace_getregs(target))
}

/// Reads the register called `regname` of the stopped process. The name is
/// looked at first: for a name outside the supported set nothing is asked
/// of the kernel.
pub fn getreg(target: i32, regname: &str) -> (r: Result<u64, Error>)
    ensures
        register_named(regname@) is None ==> r == Err::<u64, Error>(Error::UnknownRegister),
        register_named(regname@) is Some ==> r is Ok || r == Err::<u64, Error>(
            Error::TraceFailure,
        ),
{
    match Register::parse(regname) {
        None => Err(Error::UnknownRegister),
        Some(reg) => match getregs(target) {
            Ok(regs) => Ok(regs.read(reg)),
            Err(e) => Err(e),
        },
    }
}

/// The register listing of a snapshot, as name and value, in the order in
/// which it is shown.
pub open spec fn listing(regs: Registers) -> Seq<(Seq<char>, u64)> {
    seq![
        ("rax"@, regs.rax),
        ("rbx"@, regs.rbx),
        ("rcx"@, regs.rcx),
        ("rdx"@, regs.rdx),
        ("rdi"@, regs.rdi),
        ("rdx"@, regs.rdx),
        ("r8"@, regs.r8),
        ("r9"@, regs.r9),
        ("r10"@, regs.r10),
        ("r11"@, regs.r11),
        ("r12"@, regs.r12),
        ("r13"@, regs.r13),
        ("r14"@, regs.r14),
        ("r15"@, regs.r15),
        ("rsp"@, regs.rsp),
        ("rbp"@, regs.rbp),
        ("rip"@, regs.rip),
    ]
}

/// The listing that a vector of lines stands for.
pub open spec fn lines_view(lines: Seq<RegisterLine>) -> Seq<(Seq<char>, u64)> {
    lines.map_values(|l: RegisterLine| (l.name@, l.value))
}

/// Lists the registers of a snapshot, one line each, in the order in which
/// they are shown.
pub fn dumpregs(regs: &Registers) -> (lines: Vec<RegisterLine>)
    ensures
        lines_view(lines@) == listing(*regs),
{
    let mut lines: Vec<RegisterLine> = Vec::new();
    lines.push(RegisterLine { name: "rax", value: regs.rax });
    lines.push(RegisterLine { name: "rbx", value: regs.rbx });
    lines.push(RegisterLine { name: "rcx", value: regs.rcx });
    lines.push(RegisterLine { name: "rdx", value: regs.rdx });
    lines.push(RegisterLine { name: "rdi", value: regs.rdi });
    lines.push(RegisterLine { name: "rdx", value: regs.rdx });
    lines.push(RegisterLine { name: "r8", value: regs.r8 });
    lines.push(RegisterLine { name: "r9", value: regs.r9 });
    lines.push(RegisterLine { name: "r10", value: regs.r10 });
    lines.push(RegisterLine { name: "r11", value: regs.r11 });
    lines.push(RegisterLine { name: "r12", value: regs.r12 });
    lines.push(RegisterLine { name: "r13", value: regs.r13 });
    lines.push(RegisterLine { name: "r14", value: regs.r14 });
    lines.push(RegisterLine { name: "r15", value: regs.r15 });
    lines.push(RegisterLine { name: "rsp", value: regs.rsp });
    lines.push(RegisterLine { name: "rbp", value: regs.rbp });
    lines.push(RegisterLine { name: "rip", value: regs.rip });
    assert(lines_view(lines@) =~= listing(*regs));
    lines
}

} // verus!
