//! What the tool prints: the plain-text summaries, and the body of an error
//! report.
use vstd::prelude::*;
use crate::create::CreateResult;
use crate::error::{WtError, concat, spec_message};
use crate::inspect::InspectResult;
use crate::setup::DoctorReport;
use crate::worktrees::{WorktreeEntry, WorktreeList, entry_views, opt_view};

verus! {

/// The state shown for a worktree: its branch, else `detached` or `unknown`.
pub open spec fn spec_state(branch: Option<Seq<char>>, detached: bool) -> Seq<char> {
    match branch {
        Some(b) => b,
        None => if detached {
            "detached"@
        } else {
            "unknown"@
        },
    }
}

fn state_text(branch: &Option<String>, detached: bool) -> (t: String)
    ensures
        t@ == spec_state(opt_view(*branch), detached),
{
    match branch {
        Some(b) => b.clone(),
        None => if detached {
            String::from_str("detached")
        } else {
            String::from_str("unknown")
        },
    }
}

/// The summary of `doctor`: Git's version (`missing` without one), the
/// Codex home and the worktrees directory, one per line.
pub open spec fn spec_doctor_summary(
    version: Option<Seq<char>>,
    codex_home: Seq<char>,
    worktrees_dir: Seq<char>,
) -> Seq<char> {
    "git: "@ + match version {
        Some(v) => v,
        None => "missing"@,
    } + "\nCODEX_HOME: "@ + codex_home + "\nworktrees: "@ + worktrees_dir
}

/// The summary of `doctor`.
pub fn doctor_summary(report: &DoctorReport) -> (t: String)
    ensures
        t@ == spec_doctor_summary(
            opt_view(report.git_version),
            report.codex_home@,
            report.worktrees_dir@,
        ),
{
    let mut t = String::from_str("git: ");
    match &report.git_version {
        Some(v) => t.append(v.as_str()),
        None => t.append("missing"),
    }
    t.append("\nCODEX_HOME: ");
    t.append(report.codex_home.as_str());
    t.append("\nworktrees: ");
    t.append(report.worktrees_dir.as_str());
    t
}

/// The summary of `create`: the new worktree's path.
pub fn create_summary(result: &CreateResult) -> (t: String)
    ensures
        t@ == result.path@,
{
    result.path.clone()
}

/// One line of the summary of `list`: the path, a tab, and the state.
pub open spec fn spec_list_line(path: Seq<char>, branch: Option<Seq<char>>, detached: bool) -> Seq<
    char,
> {
    path + "\t"@ + spec_state(branch, detached)
}

/// The summary of `list`: the lines of the entries (see `spec_list_line`)
/// joined by line feeds.
pub open spec fn spec_list_summary(entries: Seq<crate::worktrees::EntryView>) -> Seq<char>
    decreases entries.len(),
{
    if entries.len() == 0 {
        seq![]
    } else if entries.len() == 1 {
        spec_list_line(entries[0].path, entries[0].branch, entries[0].detached)
    } else {
        let last = entries.last();
        spec_list_summary(entries.drop_last()) + "\n"@ + spec_list_line(
            last.path,
            last.branch,
            last.detached,
        )
    }
}

fn list_line(e: &WorktreeEntry) -> (t: String)
    ensures
        t@ == spec_list_line(e.path@, opt_view(e.branch), e.detached),
{
    let mut t = concat(e.path.as_str(), "\t");
    let s = state_text(&e.branch, e.detached);
    t.append(s.as_str());
    t
}

/// The summary of `list`: one line per worktree (see `spec_list_line`).
pub fn list_summary(list: &WorktreeList) -> (t: String)
    ensures
        t@ == spec_list_summary(entry_views(list.worktrees@)),
{
    let ghost all = entry_views(list.worktrees@);
    let mut t = String::new();
    let mut i: usize = 0;
    proof {
        assert(all.take(0) =~= Seq::<crate::worktrees::EntryView>::empty());
    }
    while i < list.worktrees.len()
        invariant
            i <= list.worktrees.len(),
            all == entry_views(list.worktrees@),
            t@ == spec_list_summary(all.take(i as int)),
        decreases list.worktrees.len() - i,
    {
        let line = list_line(&list.worktrees[i]);
        proof {
            assert(all.take(i + 1).drop_last() == all.take(i as int));
            assert(all.take(i + 1).last() == list.worktrees@[i as int]@);
            if i == 0 {
                assert(all.take(1)[0] == all[0]);
            }
        }
        if i > 0 {
            t.append("\n");
        }
        t.append(line.as_str());
        i += 1;
    }
    proof {
        assert(all.take(list.worktrees.len() as int) == all);
    }
    t
}

/// The summary of `inspect`: the path, then the state on its own line.
pub fn inspect_summary(result: &InspectResult) -> (t: String)
    ensures
        t@ == result.path@ + "\n"@ + spec_state(opt_view(result.branch), result.detached),
{
    let mut t = concat(result.path.as_str(), "\n");
    let s = state_text(&result.branch, result.detached);
    t.append(s.as_str());
    t
}

/// The body of an error report: `ok` is false and `error.message` says what
/// went wrong.
#[derive(Debug)]
pub struct ErrorOutput {
    pub ok: bool,
    pub error: ErrorBody,
}

/// What went wrong, in words.
#[derive(Debug)]
pub struct ErrorBody {
    pub message: String,
}

impl ErrorOutput {
    /// The report of a failure with this message.
    pub fn from_message(message: String) -> (r: ErrorOutput)
        ensures
            !r.ok,
            r.error.message@ == message@,
    {
        ErrorOutput { ok: false, error: ErrorBody { message } }
    }

    /// The report of `error`, with its whole text (contexts first).
    pub fn from_error(error: &WtError) -> (r: ErrorOutput)
        ensures
            !r.ok,
            r.error.message@ == spec_message(error@),
    {
        Self::from_message(error.message())
    }
}

} // verus!
