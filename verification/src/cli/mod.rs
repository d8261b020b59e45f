use crate::cli::command::MainLoopAction;
use crate::session::{Session, SessionView};
use crate::text::{parse_i32, parsed_i32, same_text, split, split_by, trim, trimmed};
use crate::traits::Valid;
use vstd::prelude::*;

pub mod command;

verus! {

/// The text that `Regex::replace_all` of the `regex` crate makes of `text`
/// when every match of `pattern` is replaced by `with`; `None` when the
/// pattern does not compile.
pub uninterp spec fn replaced_all(pattern: Seq<char>, text: Seq<char>, with: Seq<char>) -> Option<
    Seq<char>,
>;

/// Compiles the pattern with `regex::Regex::new` and calls `replace_all` on
/// the text. The result depends on the three texts alone; a pattern that
/// does not compile gives `None`.
#[verifier::external_body]
fn replace_all(pattern: &str, text: &str, with: &str) -> (r: Option<String>)
    ensures
        match r {
            Some(t) => replaced_all(pattern@, text@, with@) == Some(t@),
            None => replaced_all(pattern@, text@, with@) is None,
        },
{
    match regex::Regex::new(pattern) {
        Ok(re) => Some(re.replace_all(text, with).into_owned()),
        Err(_) => None,
    }
}

/// A command that can be carried out.
#[derive(Clone, Copy, Debug, PartialEq, Eq, Structural)]
pub enum Command {
    /// Attach to the process with this identifier.
    AttachPid { pid: i32 },
    /// Attach to the process that the second word names.
    AttachName,
    /// Give up the target.
    Detach,
    /// Resume the target and wait for it.
    Continue,
    /// Spawn the loaded executable.
    Run,
    /// Show the registers of the target.
    InfoRegs,
    /// Show what is known of the target.
    InfoProc,
    /// Show the memory map of the target.
    Vmmap,
    /// Kill the target.
    Kill,
    /// Leave.
    Quit,
    /// Show the help text.
    Help,
    /// An empty line: nothing to do.
    Empty,
}

/// Why a line is not carried out.
#[derive(Clone, Copy, Debug, PartialEq, Eq, Structural)]
pub enum Refusal {
    /// `attach` takes exactly one argument.
    AttachUsage,
    /// `info` takes exactly one argument.
    InfoUsage,
    /// `kill` takes no argument.
    KillUsage,
    /// A target is held already; it has to be detached first.
    Holding,
    /// No target is held.
    NotAttached,
    /// No executable is loaded.
    FileNotAvailable,
    /// The second word is no subcommand of `info`.
    InvalidSubcommand,
    /// The first word is no command.
    InvalidCommand,
}

/// What to do about a line.
#[derive(Clone, Copy, Debug, PartialEq, Eq, Structural)]
pub enum Step {
    /// Carry the command out.
    Execute(Command),
    /// Say why not, and go on.
    Refuse(Refusal),
}

/// The words of a line: white space at both ends is dropped, every run of
/// white space inside becomes one space, and the line is cut at the spaces.
pub open spec fn tokens(buffer: Seq<char>) -> Seq<Seq<char>> {
    match replaced_all("\\s+"@, trimmed(buffer), " "@) {
        Some(line) => split_by(line, " "@),
        None => Seq::empty(),
    }
}

/// The command that needs a target, or the refusal when none is held.
pub open spec fn on_target(s: SessionView, c: Command) -> Step {
    if s.has_target() {
        Step::Execute(c)
    } else {
        Step::Refuse(Refusal::NotAttached)
    }
}

/// What to do about a line of these words in this session. The first word
/// names the command; `attach`, `info` and `kill` are particular about the
/// number of words, the others are not.
pub open spec fn planned(s: SessionView, words: Seq<Seq<char>>) -> Step {
    if words.len() == 0 {
        Step::Execute(Command::Empty)
    } else if words[0] == "attach"@ {
        if words.len() != 2 {
            Step::Refuse(Refusal::AttachUsage)
        } else if s.has_target() {
            Step::Refuse(Refusal::Holding)
        } else {
            match parsed_i32(words[1]) {
                Some(pid) => Step::Execute(Command::AttachPid { pid }),
                None => Step::Execute(Command::AttachName),
            }
        }
    } else if words[0] == "detach"@ {
        on_target(s, Command::Detach)
    } else if words[0] == "continue"@ || words[0] == "c"@ {
        on_target(s, Command::Continue)
    } else if words[0] == "run"@ || words[0] == "r"@ {
        if s.has_target() {
            Step::Refuse(Refusal::Holding)
        } else if s.path is None {
            Step::Refuse(Refusal::FileNotAvailable)
        } else {
            Step::Execute(Command::Run)
        }
    } else if words[0] == "info"@ {
        if words.len() != 2 {
            Step::Refuse(Refusal::InfoUsage)
        } else if words[1] == "regs"@ || words[1] == "r"@ {
            on_target(s, Command::InfoRegs)
        } else if words[1] == "proc"@ {
            on_target(s, Command::InfoProc)
        } else {
            Step::Refuse(Refusal::InvalidSubcommand)
        }
    } else if words[0] == "vmmap"@ || words[0] == "maps"@ {
        on_target(s, Command::Vmmap)
    } else if words[0] == "kill"@ {
        if words.len() != 1 {
            Step::Refuse(Refusal::KillUsage)
        } else {
            on_target(s, Command::Kill)
        }
    } else if words[0] == "exit"@ || words[0] == "quit"@ || words[0] == "q"@ {
        Step::Execute(Command::Quit)
    } else if words[0] == "help"@ || words[0] == "?"@ {
        Step::Execute(Command::Help)
    } else if words[0] == ""@ {
        Step::Execute(Command::Empty)
    } else {
        Step::Refuse(Refusal::InvalidCommand)
    }
}

/// What the loop does once a step was taken: it leaves after `Quit`, skips
/// to the next line after a command was refused for its usage or for the
/// state of the session, and goes on otherwise.
pub open spec fn action_of(step: Step) -> MainLoopAction {
    match step {
        Step::Execute(Command::Quit) => MainLoopAction::Break,
        Step::Execute(_) => MainLoopAction::Nothing,
        Step::Refuse(Refusal::InvalidSubcommand) => MainLoopAction::Nothing,
        Step::Refuse(Refusal::InvalidCommand) => MainLoopAction::Nothing,
        Step::Refuse(_) => MainLoopAction::Continue,
    }
}

/// Cuts a line into its words.
pub fn tokenize(buffer: &str) -> (words: Vec<String>)
    ensures
        words.deep_view() == tokens(buffer@),
{
    match replace_all("\\s+", trim(buffer), " ") {
        Some(line) => split(line.as_str(), " "),
        None => {
            let words: Vec<String> = Vec::new();
            assert(words.deep_view() =~= Seq::<Seq<char>>::empty());
            words
        },
    }
}

/// The command that needs a target, or the refusal when none is held.
fn needs_target(session: &Session, c: Command) -> (step: Step)
    ensures
        step == on_target(session@, c),
{
    if session.valid() {
        Step::Execute(c)
    } else {
        Step::Refuse(Refusal::NotAttached)
    }
}

/// Decides what to do about a line that was cut into these words.
pub fn plan(session: &Session, words: &Vec<String>) -> (step: Step)
    ensures
        step == planned(session@, words.deep_view()),
{
    if words.len() == 0 {
        return Step::Execute(Command::Empty);
    }
    assert(words.deep_view()[0] == words@[0]@);
    let first = words[0].as_str();
    if same_text(first, "attach") {
        if words.len() != 2 {
            Step::Refuse(Refusal::AttachUsage)
        } else if session.valid() {
            Step::Refuse(Refusal::Holding)
        } else {
            assert(words.deep_view()[1] == words@[1]@);
            match parse_i32(words[1].as_str()) {
                Some(pid) => Step::Execute(Command::AttachPid { pid }),
                None => Step::Execute(Command::AttachName),
            }
        }
    } else if same_text(first, "detach") {
        needs_target(session, Command::Detach)
    } else if same_text(first, "continue") || same_text(first, "c") {
        needs_target(session, Command::Continue)
    } else if same_text(first, "run") || same_text(first, "r") {
        if session.valid() {
            Step::Refuse(Refusal::Holding)
        } else if !session.file_available() {
            Step::Refuse(Refusal::FileNotAvailable)
        } else {
            Step::Execute(Command::Run)
        }
    } else if same_text(first, "info") {
        if words.len() != 2 {
            Step::Refuse(Refusal::InfoUsage)
        } else {
            assert(words.deep_view()[1] == words@[1]@);
            let second = words[1].as_str();
            if same_text(second, "regs") || same_text(second, "r") {
                needs_target(session, Command::InfoRegs)
            } else if same_text(second, "proc") {
                needs_target(session, Command::InfoProc)
            } else {
                Step::Refuse(Refusal::InvalidSubcommand)
            }
        }
    } else if same_text(first, "vmmap") || same_text(first, "maps") {
        needs_target(session, Command::Vmmap)
    } else if same_text(first, "kill") {
        if words.len() != 1 {
            Step::Refuse(Refusal::KillUsage)
        } else {
            needs_target(session, Command::Kill)
        }
    } else if same_text(first, "exit") || same_text(first, "quit") || same_text(first, "q") {
        Step::Execute(Command::Quit)
    } else if same_text(first, "help") || same_text(first, "?") {
        Step::Execute(Command::Help)
    } else if same_text(first, "") {
        Step::Execute(Command::Empty)
    } else {
        Step::Refuse(Refusal::InvalidCommand)
    }
}

/// Tells what the loop does once a step was taken.
pub fn action(step: Step) -> (a: MainLoopAction)
    ensures
        a == action_of(step),
{
    match step {
        Step::Execute(Command::Quit) => MainLoopAction::Break,
        Step::Execute(_) => MainLoopAction::Nothing,
        Step::Refuse(Refusal::InvalidSubcommand) => MainLoopAction::Nothing,
        Step::Refuse(Refusal::InvalidCommand) => MainLoopAction::Nothing,
        Step::Refuse(_) => MainLoopAction::Continue,
    }
}

/// Reads one line of the command loop: cuts it into words and decides what
/// to do about them in this session. Returns the words with the decision.
pub fn rsdb_main(session: &Session, buffer: &String) -> (r: (Vec<String>, Step))
    ensures
        r.0.deep_view() == tokens(buffer@),
        r.1 == planned(session@, tokens(buffer@)),
{
    let words = tokenize(buffer.as_str());
    let step = plan(session, &words);
    (words, step)
}

} // verus!
