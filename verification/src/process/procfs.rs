use crate::process::NO_TARGET;
use crate::text::{contains, occurs_in, parse_i32, parsed_i32, split, split_by};
use vstd::prelude::*;

verus! {

/// One directory under `/proc`, as the reader found it: its name, and the
/// command line in it when that could be read.
pub struct ProcEntry {
    pub name: String,
    pub cmdline: Option<String>,
}

/// The mathematical content of a `ProcEntry`.
pub struct ProcEntryView {
    pub name: Seq<char>,
    pub cmdline: Option<Seq<char>>,
}

impl View for ProcEntry {
    type V = ProcEntryView;

    open spec fn view(&self) -> ProcEntryView {
        ProcEntryView {
            name: self.name@,
            cmdline: match self.cmdline {
                Some(text) => Some(text@),
                None => None,
            },
        }
    }
}

/// The views of the entries of a listing.
pub open spec fn entries_view(entries: Seq<ProcEntry>) -> Seq<ProcEntryView> {
    entries.map_values(|e: ProcEntry| e@)
}

/// The process that an entry stands for when it answers a search for
/// `from`: the first word of its command line, up to the first space,
/// holds `from`, and its name is a number.
pub open spec fn hit(from: Seq<char>, entry: ProcEntryView) -> Option<i32> {
    match entry.cmdline {
        Some(cmdline) => {
            let words = split_by(cmdline, " "@);
            if words.len() > 0 && occurs_in(from, words[0]) {
                parsed_i32(entry.name)
            } else {
                None
            }
        },
        None => None,
    }
}

/// The process that a search for `from` finds in a listing: that of the
/// first entry that answers, or `NO_TARGET` when none does.
pub open spec fn found(from: Seq<char>, entries: Seq<ProcEntryView>) -> int
    decreases entries.len(),
{
    if entries.len() == 0 {
        NO_TARGET as int
    } else {
        match hit(from, entries[0]) {
            Some(pid) => pid as int,
            None => found(from, entries.subrange(1, entries.len() as int)),
        }
    }
}

/// Tells whether an entry answers a search for `from`, and for which
/// process.
pub fn entry_pid(from: &str, entry: &ProcEntry) -> (r: Option<i32>)
    ensures
        r == hit(from@, entry@),
{
    match &entry.cmdline {
        Some(cmdline) => {
            let words = split(cmdline.as_str(), " ");
            if words.len() > 0 {
                assert(words.deep_view()[0] == words@[0]@);
                if contains(words[0].as_str(), from) {
                    parse_i32(entry.name.as_str())
                } else {
                    None
                }
            } else {
                None
            }
        },
        None => None,
    }
}

/// Searches a listing of `/proc` for a process whose command begins with a
/// word that holds `from`. Returns the first one found, or `NO_TARGET`.
pub fn findpid(from: &str, entries: &Vec<ProcEntry>) -> (pid: i32)
    ensures
        pid == found(from@, entries_view(entries@)),
{
    let ghost all = entries_view(entries@);
    let mut i: usize = 0;
    assert(all.subrange(0, all.len() as int) =~= all);
    while i < entries.len()
        invariant
            i <= entries.len(),
            all == entries_view(entries@),
            found(from@, all) == found(from@, all.subrange(i as int, all.len() as int)),
        decreases entries.len() - i,
    {
        let ghost rest = all.subrange(i as int, all.len() as int);
        assert(rest[0] == entries@[i as int]@);
        assert(rest.subrange(1, rest.len() as int) =~= all.subrange(i + 1, all.len() as int));
        match entry_pid(from, &entries[i]) {
            Some(pid) => {
                return pid;
            },
            None => {},
        }
        i = i + 1;
    }
    assert(all.subrange(i as int, all.len() as int).len() == 0);
    NO_TARGET
}

/// Calls `nix::sys::signal::kill` without a signal, which asks the kernel
/// whether a signal could be sent to the process and sends none. Nothing is
/// claimed about the outcome.
#[verifier::external_body]
fn probe(pid: i32) -> Result<(), nix::errno::Errno> {
    nix::sys::signal::kill(nix::unistd::Pid::from_raw(pid), None)
}

/// Whether a process with this identifier exists and may be signalled.
pub fn check_pid(pid: i32) -> bool {
    probe(pid).is_ok()
}

} // verus!
