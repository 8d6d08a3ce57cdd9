//! `inspect`: what one worktree is.
use vstd::prelude::*;
use crate::effects::{
    Effect, EffectView, Next, NextView, Observation, ObservationView, answers, args2, args3,
    git_effect,
    git_trimmed, run_git, spec_git_text,
};
use crate::error::{Failure, WtError, concat, with_context};
use crate::list::{root_context, show_toplevel, show_toplevel_args};
use crate::path::{is_absolute, join_path, path_is_absolute, spec_join};
use crate::text::{chars_of, string_of};
use crate::untracked::string_views;
use crate::worktrees::{lines_of, opt_view, spec_lines};

verus! {

/// What `inspect` reports of a worktree.
#[derive(Debug)]
pub struct InspectResult {
    pub ok: bool,
    pub path: String,
    pub repo: String,
    pub head: String,
    pub branch: Option<String>,
    pub detached: bool,
    pub git_dir: String,
    pub source_gitdir: String,
    pub status: Vec<String>,
}

/// The content of an `InspectResult`.
pub struct InspectView {
    pub ok: bool,
    pub path: Seq<char>,
    pub repo: Seq<char>,
    pub head: Seq<char>,
    pub branch: Option<Seq<char>>,
    pub detached: bool,
    pub git_dir: Seq<char>,
    pub source_gitdir: Seq<char>,
    pub status: Seq<Seq<char>>,
}

impl View for InspectResult {
    type V = InspectView;

    open spec fn view(&self) -> InspectView {
        InspectView {
            ok: self.ok,
            path: self.path@,
            repo: self.repo@,
            head: self.head@,
            branch: opt_view(self.branch),
            detached: self.detached,
            git_dir: self.git_dir@,
            source_gitdir: self.source_gitdir@,
            status: string_views(self.status@),
        }
    }
}

/// The branch that `git branch --show-current` printed: none when it printed
/// nothing (a detached `HEAD`).
pub open spec fn branch_of(text: Seq<char>) -> Option<Seq<char>> {
    if text.len() == 0 {
        None
    } else {
        Some(text)
    }
}

/// A path that Git printed for a command run in `cwd`: as printed when it is
/// absolute, otherwise under `cwd`.
pub open spec fn spec_git_path(cwd: Seq<char>, printed: Seq<char>) -> Seq<char> {
    if is_absolute(printed) {
        printed
    } else {
        spec_join(cwd, printed)
    }
}

/// A path that Git printed for a command run in `cwd` (see `spec_git_path`).
pub fn git_path(cwd: &str, printed: String) -> (p: String)
    ensures
        p@ == spec_git_path(cwd@, printed@),
{
    if path_is_absolute(printed.as_str()) {
        printed
    } else {
        join_path(cwd, printed.as_str())
    }
}

/// The lines of `text` (`str::lines`).
pub fn text_lines(text: &str) -> (lines: Vec<String>)
    ensures
        string_views(lines@) == spec_lines(text@),
{
    let v = chars_of(text);
    let ls = lines_of(&v);
    let ghost all = ls@.map_values(|x: Vec<char>| x@);
    let mut out: Vec<String> = Vec::new();
    let mut i: usize = 0;
    proof {
        assert(string_views(out@) =~= all.take(0));
    }
    while i < ls.len()
        invariant
            i <= ls.len(),
            all == ls@.map_values(|x: Vec<char>| x@),
            string_views(out@) == all.take(i as int),
        decreases ls.len() - i,
    {
        let s = string_of(ls[i].as_slice());
        out.push(s);
        proof {
            assert(string_views(out@) == string_views(out@.drop_last()).push(s@));
            assert(all.take(i + 1) == all.take(i as int).push(all[i as int]));
        }
        i += 1;
    }
    proof {
        assert(all.take(ls.len() as int) == all);
    }
    out
}

/// How far an `inspect` has come.
#[derive(Debug)]
pub enum InspectStage {
    FindGit,
    RepoRoot,
    Head,
    Branch,
    GitDir,
    CommonDir,
    Status,
    Done,
}

/// An `inspect` in progress.
pub struct InspectRun {
    /// The worktree path that `inspect` was given.
    pub path: String,
    pub repo: String,
    pub head: String,
    pub branch: Option<String>,
    pub git_dir: String,
    pub source_gitdir: String,
    pub stage: InspectStage,
}

/// The content of an `InspectRun`.
pub struct InspectState {
    pub path: Seq<char>,
    pub repo: Seq<char>,
    pub head: Seq<char>,
    pub branch: Option<Seq<char>>,
    pub git_dir: Seq<char>,
    pub source_gitdir: Seq<char>,
    pub stage: InspectStage,
}

impl View for InspectRun {
    type V = InspectState;

    open spec fn view(&self) -> InspectState {
        InspectState {
            path: self.path@,
            repo: self.repo@,
            head: self.head@,
            branch: opt_view(self.branch),
            git_dir: self.git_dir@,
            source_gitdir: self.source_gitdir@,
            stage: self.stage,
        }
    }
}

/// `git rev-parse HEAD`.
pub open spec fn rev_parse_head_args() -> Seq<Seq<char>> {
    seq!["rev-parse"@, "HEAD"@]
}

/// `git branch --show-current`.
pub open spec fn show_current_args() -> Seq<Seq<char>> {
    seq!["branch"@, "--show-current"@]
}

/// `git rev-parse --git-dir`.
pub open spec fn git_dir_args() -> Seq<Seq<char>> {
    seq!["rev-parse"@, "--git-dir"@]
}

/// `git rev-parse --git-common-dir`.
pub open spec fn common_dir_args() -> Seq<Seq<char>> {
    seq!["rev-parse"@, "--git-common-dir"@]
}

/// `git status --short --branch`.
pub open spec fn status_args() -> Seq<Seq<char>> {
    seq!["status"@, "--short"@, "--branch"@]
}

/// Whether an `inspect` at `stage` waits for a report of the kind of `obs`.
pub open spec fn inspect_awaits(stage: InspectStage, obs: ObservationView) -> bool {
    match stage {
        InspectStage::FindGit => obs is GitFound,
        InspectStage::Done => false,
        _ => obs is Git,
    }
}

/// The end of an `inspect` with failure `e`.
pub open spec fn inspect_fails(s: InspectState, e: Failure) -> (InspectState, NextView<InspectView>) {
    (InspectState { stage: InspectStage::Done, ..s }, NextView::Finish(Err(e)))
}

/// One step of `inspect`: Git must be on `PATH`; then, all in the given path,
/// Git is asked for the repository root (a failure reported under
/// `resolve Git repository root from <path>`), `HEAD`, the current branch
/// (none when it prints nothing), the Git directory and the common Git
/// directory (each under the path unless absolute) and the short status,
/// whose lines end the report; `detached` holds when there is no branch.
pub open spec fn inspect_step(s: InspectState, obs: ObservationView) -> (
    InspectState,
    NextView<InspectView>,
) {
    match (s.stage, obs) {
        (InspectStage::FindGit, ObservationView::GitFound(found)) => if found {
            (
                InspectState { stage: InspectStage::RepoRoot, ..s },
                NextView::Run(git_effect(s.path, show_toplevel_args())),
            )
        } else {
            inspect_fails(s, Failure::GitNotFound)
        },
        (InspectStage::RepoRoot, ObservationView::Git(run)) => match spec_git_text(run) {
            Err(e) => inspect_fails(
                s,
                Failure::Context { context: root_context(s.path), cause: Box::new(e) },
            ),
            Ok(repo) => (
                InspectState { stage: InspectStage::Head, repo, ..s },
                NextView::Run(git_effect(s.path, rev_parse_head_args())),
            ),
        },
        (InspectStage::Head, ObservationView::Git(run)) => match spec_git_text(run) {
            Err(e) => inspect_fails(s, e),
            Ok(head) => (
                InspectState { stage: InspectStage::Branch, head, ..s },
                NextView::Run(git_effect(s.path, show_current_args())),
            ),
        },
        (InspectStage::Branch, ObservationView::Git(run)) => match spec_git_text(run) {
            Err(e) => inspect_fails(s, e),
            Ok(text) => (
                InspectState { stage: InspectStage::GitDir, branch: branch_of(text), ..s },
                NextView::Run(git_effect(s.path, git_dir_args())),
            ),
        },
        (InspectStage::GitDir, ObservationView::Git(run)) => match spec_git_text(run) {
            Err(e) => inspect_fails(s, e),
            Ok(text) => (
                InspectState {
                    stage: InspectStage::CommonDir,
                    git_dir: spec_git_path(s.path, text),
                    ..s
                },
                NextView::Run(git_effect(s.path, common_dir_args())),
            ),
        },
        (InspectStage::CommonDir, ObservationView::Git(run)) => match spec_git_text(run) {
            Err(e) => inspect_fails(s, e),
            Ok(text) => (
                InspectState {
                    stage: InspectStage::Status,
                    source_gitdir: spec_git_path(s.path, text),
                    ..s
                },
                NextView::Run(git_effect(s.path, status_args())),
            ),
        },
        (InspectStage::Status, ObservationView::Git(run)) => match spec_git_text(run) {
            Err(e) => inspect_fails(s, e),
            Ok(text) => (
                InspectState { stage: InspectStage::Done, ..s },
                NextView::Finish(
                    Ok(
                        InspectView {
                            ok: true,
                            path: s.path,
                            repo: s.repo,
                            head: s.head,
                            branch: s.branch,
                            detached: s.branch is None,
                            git_dir: s.git_dir,
                            source_gitdir: s.source_gitdir,
                            status: spec_lines(text),
                        },
                    ),
                ),
            ),
        },
        _ => (s, NextView::Abort(seq![])),
    }
}

/// A successful `inspect` reports `ok`, the path it was given, and `detached`
/// exactly when the worktree has no current branch.
pub proof fn lemma_inspect_result(s: InspectState, obs: ObservationView)
    requires
        inspect_step(s, obs).1 is Finish,
        inspect_step(s, obs).1->Finish_0 is Ok,
    ensures
        ({
            let r = inspect_step(s, obs).1->Finish_0->Ok_0;
            &&& r.ok
            &&& r.path == s.path
            &&& r.detached == (r.branch is None)
        }),
{
}

/// `inspect` reports the branch that `git branch --show-current`, run in the
/// worktree, printed (trimmed), and none exactly when it printed nothing; no
/// other step changes it, and the worktree is reported detached exactly when
/// there is no branch.
pub proof fn lemma_inspect_branch(s: InspectState, obs: ObservationView)
    ensures
        s.stage is Head && obs is Git && spec_git_text(obs->Git_0) is Ok ==> inspect_step(s, obs).1
            == NextView::<InspectView>::Run(
            git_effect(s.path, seq!["branch"@, "--show-current"@]),
        ),
        s.stage is Branch && obs is Git && spec_git_text(obs->Git_0) is Ok ==> inspect_step(
            s,
            obs,
        ).0.branch == (if spec_git_text(obs->Git_0)->Ok_0.len() == 0 {
            None
        } else {
            Some(spec_git_text(obs->Git_0)->Ok_0)
        }),
        !(s.stage is Branch) ==> inspect_step(s, obs).0.branch == s.branch,
        inspect_step(s, obs).1 is Finish && inspect_step(s, obs).1->Finish_0 is Ok ==> ({
            let r = inspect_step(s, obs).1->Finish_0->Ok_0;
            &&& r.branch == s.branch
            &&& r.detached == (s.branch is None)
        }),
{
}

/// Each step that asks for outside work leaves the run waiting for exactly
/// the kind of report that this work calls for.
pub proof fn lemma_inspect_awaits_what_it_asks(
    s: InspectState,
    obs: ObservationView,
    o: ObservationView,
)
    requires
        inspect_step(s, obs).1 is Run,
    ensures
        inspect_awaits(inspect_step(s, obs).0.stage, o) == answers(inspect_step(s, obs).1->Run_0, o),
{
}

/// Starts inspecting the worktree at `path`: the first thing to do is to look
/// for Git.
pub fn inspect(path: String) -> (r: (InspectRun, Effect))
    ensures
        r.0@ == (InspectState {
            path: path@,
            repo: Seq::<char>::empty(),
            head: Seq::<char>::empty(),
            branch: None,
            git_dir: Seq::<char>::empty(),
            source_gitdir: Seq::<char>::empty(),
            stage: InspectStage::FindGit,
        }),
        r.1@ == EffectView::FindGit,
{
    (
        InspectRun {
            path,
            repo: String::new(),
            head: String::new(),
            branch: None,
            git_dir: String::new(),
            source_gitdir: String::new(),
            stage: InspectStage::FindGit,
        },
        Effect::FindGit,
    )
}

impl InspectRun {
    /// Whether this run waits for a report of the kind of `obs`.
    pub fn awaits(&self, obs: &Observation) -> (b: bool)
        ensures
            b == inspect_awaits(self.stage, obs@),
    {
        match (&self.stage, obs) {
            (InspectStage::FindGit, Observation::GitFound(_)) => true,
            (InspectStage::FindGit, _) => false,
            (InspectStage::Done, _) => false,
            (_, Observation::Git(_)) => true,
            _ => false,
        }
    }

    fn fail(&mut self, e: WtError) -> (next: Next<InspectResult>)
        ensures
            (final(self)@, next@) == inspect_fails(old(self)@, e@),
    {
        self.stage = InspectStage::Done;
        Next::Finish(Err(e))
    }

    /// Takes the report of the last thing done and says what comes next (see
    /// `inspect_step`).
    pub fn step(&mut self, obs: Observation) -> (next: Next<InspectResult>)
        requires
            inspect_awaits(old(self).stage, obs@),
        ensures
            (final(self)@, next@) == inspect_step(old(self)@, obs@),
    {
        let run = match obs {
            Observation::GitFound(found) => {
                if found {
                    self.stage = InspectStage::RepoRoot;
                    return Next::Run(show_toplevel(self.path.clone()));
                } else {
                    return self.fail(WtError::GitNotFound);
                }
            },
            Observation::Git(run) => run,
            _ => {
                return Next::Abort(String::new());
            },
        };
        let text = match git_trimmed(run) {
            Ok(t) => t,
            Err(e) => {
                if let InspectStage::RepoRoot = self.stage {
                    let ctx = concat("resolve Git repository root from ", self.path.as_str());
                    return self.fail(with_context(ctx, e));
                }
                return self.fail(e);
            },
        };
        match self.stage {
            InspectStage::RepoRoot => {
                self.repo = text;
                self.stage = InspectStage::Head;
                Next::Run(run_git(self.path.clone(), args2("rev-parse", "HEAD")))
            },
            InspectStage::Head => {
                self.head = text;
                self.stage = InspectStage::Branch;
                Next::Run(run_git(self.path.clone(), args2("branch", "--show-current")))
            },
            InspectStage::Branch => {
                self.branch = if text.as_str().unicode_len() == 0 {
                    None
                } else {
                    Some(text)
                };
                self.stage = InspectStage::GitDir;
                Next::Run(run_git(self.path.clone(), args2("rev-parse", "--git-dir")))
            },
            InspectStage::GitDir => {
                self.git_dir = git_path(self.path.as_str(), text);
                self.stage = InspectStage::CommonDir;
                Next::Run(run_git(self.path.clone(), args2("rev-parse", "--git-common-dir")))
            },
            InspectStage::CommonDir => {
                self.source_gitdir = git_path(self.path.as_str(), text);
                self.stage = InspectStage::Status;
                Next::Run(run_git(self.path.clone(), args3("status", "--short", "--branch")))
            },
            _ => {
                let status = text_lines(text.as_str());
                self.stage = InspectStage::Done;
                let detached = self.branch.is_none();
                Next::Finish(
                    Ok(
                        InspectResult {
                            ok: true,
                            path: self.path.clone(),
                            repo: self.repo.clone(),
                            head: self.head.clone(),
                            branch: self.branch.clone(),
                            detached,
                            git_dir: self.git_dir.clone(),
                            source_gitdir: self.source_gitdir.clone(),
                            status,
                        },
                    ),
                )
            },
        }
    }
}

} // verus!
