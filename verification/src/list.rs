//! `list`: the worktrees of a repository.
use vstd::prelude::*;
use crate::effects::{
    Effect, EffectView, Next, NextView, Observation, ObservationView, answers, args2, args3,
    git_effect, git_trimmed, run_git, spec_git_text,
};
use crate::error::{Failure, WtError, concat, with_context};
use crate::worktrees::{
    EntryView, WorktreeList, entry_views, parse_worktree_porcelain, spec_parse_worktree_porcelain,
};

verus! {

/// The content of a `WorktreeList`.
pub struct ListView {
    pub ok: bool,
    pub repo: Seq<char>,
    pub worktrees: Seq<EntryView>,
}

impl View for WorktreeList {
    type V = ListView;

    open spec fn view(&self) -> ListView {
        ListView { ok: self.ok, repo: self.repo@, worktrees: entry_views(self.worktrees@) }
    }
}

/// How far a `list` has come.
#[derive(Debug)]
pub enum ListStage {
    /// Looking for Git.
    FindGit,
    /// Asking Git for the repository root.
    RepoRoot,
    /// Asking Git for the worktrees.
    Listing,
    /// Over.
    Done,
}

/// A `list` in progress.
pub struct ListRun {
    /// The path that `list` was given.
    pub repo_arg: String,
    /// The repository root, once known.
    pub root: String,
    pub stage: ListStage,
}

/// The content of a `ListRun`.
pub struct ListState {
    pub repo_arg: Seq<char>,
    pub root: Seq<char>,
    pub stage: ListStage,
}

impl View for ListRun {
    type V = ListState;

    open spec fn view(&self) -> ListState {
        ListState { repo_arg: self.repo_arg@, root: self.root@, stage: self.stage }
    }
}

/// The context of a failure to find the repository root from `path`.
pub open spec fn root_context(path: Seq<char>) -> Seq<char> {
    "resolve Git repository root from "@ + path
}

/// `git rev-parse --show-toplevel`.
pub open spec fn show_toplevel_args() -> Seq<Seq<char>> {
    seq!["rev-parse"@, "--show-toplevel"@]
}

/// `git worktree list --porcelain`.
pub open spec fn worktree_list_args() -> Seq<Seq<char>> {
    seq!["worktree"@, "list"@, "--porcelain"@]
}

/// Whether a `list` at `stage` waits for a report of the kind of `obs`.
pub open spec fn list_awaits(stage: ListStage, obs: ObservationView) -> bool {
    match stage {
        ListStage::FindGit => obs is GitFound,
        ListStage::RepoRoot => obs is Git,
        ListStage::Listing => obs is Git,
        ListStage::Done => false,
    }
}

/// One step of `list`: Git must be on `PATH`; the repository root is asked
/// of Git in the given path (a failure there is reported under
/// `resolve Git repository root from <path>`); the worktrees are then listed
/// from the root and read by `parse_worktree_porcelain`.
pub open spec fn list_step(s: ListState, obs: ObservationView) -> (ListState, NextView<ListView>) {
    match (s.stage, obs) {
        (ListStage::FindGit, ObservationView::GitFound(found)) => if found {
            (
                ListState { stage: ListStage::RepoRoot, ..s },
                NextView::Run(git_effect(s.repo_arg, show_toplevel_args())),
            )
        } else {
            (ListState { stage: ListStage::Done, ..s }, NextView::Finish(Err(Failure::GitNotFound)))
        },
        (ListStage::RepoRoot, ObservationView::Git(run)) => match spec_git_text(run) {
            Err(e) => (
                ListState { stage: ListStage::Done, ..s },
                NextView::Finish(
                    Err(Failure::Context { context: root_context(s.repo_arg), cause: Box::new(e) }),
                ),
            ),
            Ok(root) => (
                ListState { stage: ListStage::Listing, root, ..s },
                NextView::Run(git_effect(root, worktree_list_args())),
            ),
        },
        (ListStage::Listing, ObservationView::Git(run)) => match spec_git_text(run) {
            Err(e) => (ListState { stage: ListStage::Done, ..s }, NextView::Finish(Err(e))),
            Ok(out) => (
                ListState { stage: ListStage::Done, ..s },
                NextView::Finish(
                    Ok(
                        ListView {
                            ok: true,
                            repo: s.root,
                            worktrees: spec_parse_worktree_porcelain(out),
                        },
                    ),
                ),
            ),
        },
        _ => (s, NextView::Abort(seq![])),
    }
}

/// A successful `list` reports `ok`, with the repository root that Git
/// gave.
pub proof fn lemma_list_result(s: ListState, obs: ObservationView)
    requires
        list_step(s, obs).1 is Finish,
        list_step(s, obs).1->Finish_0 is Ok,
    ensures
        list_step(s, obs).1->Finish_0->Ok_0.ok,
        list_step(s, obs).1->Finish_0->Ok_0.repo == s.root,
        s.stage is Listing,
        spec_git_text(obs->Git_0) is Ok,
        list_step(s, obs).1->Finish_0->Ok_0.worktrees == spec_parse_worktree_porcelain(
            spec_git_text(obs->Git_0)->Ok_0,
        ),
{
}

/// The worktrees are listed with `git worktree list --porcelain`, run in the
/// repository root that Git gave for the path `list` was given.
pub proof fn lemma_list_asks_in_the_root(s: ListState, obs: ObservationView)
    requires
        s.stage is RepoRoot,
        obs is Git,
        spec_git_text(obs->Git_0) is Ok,
    ensures
        list_step(s, obs).0.root == spec_git_text(obs->Git_0)->Ok_0,
        list_step(s, obs).1 == NextView::<ListView>::Run(
            git_effect(
                spec_git_text(obs->Git_0)->Ok_0,
                seq!["worktree"@, "list"@, "--porcelain"@],
            ),
        ),
{
}

/// Each step that asks for outside work leaves the run waiting for exactly
/// the kind of report that this work calls for.
pub proof fn lemma_list_awaits_what_it_asks(s: ListState, obs: ObservationView, o: ObservationView)
    requires
        list_step(s, obs).1 is Run,
    ensures
        list_awaits(list_step(s, obs).0.stage, o) == answers(list_step(s, obs).1->Run_0, o),
{
}

/// The Git command that finds the repository root, run in `path`.
pub fn show_toplevel(path: String) -> (e: Effect)
    ensures
        e@ == git_effect(path@, show_toplevel_args()),
{
    run_git(path, args2("rev-parse", "--show-toplevel"))
}

/// Starts listing the worktrees of the repository that contains `repo`: the
/// first thing to do is to look for Git.
pub fn list(repo: String) -> (r: (ListRun, Effect))
    ensures
        r.0@ == (ListState { repo_arg: repo@, root: Seq::<char>::empty(), stage: ListStage::FindGit }),
        r.1@ == EffectView::FindGit,
{
    (ListRun { repo_arg: repo, root: String::new(), stage: ListStage::FindGit }, Effect::FindGit)
}

impl ListRun {
    /// Whether this run waits for a report of the kind of `obs`.
    pub fn awaits(&self, obs: &Observation) -> (b: bool)
        ensures
            b == list_awaits(self.stage, obs@),
    {
        match (&self.stage, obs) {
            (ListStage::FindGit, Observation::GitFound(_)) => true,
            (ListStage::RepoRoot, Observation::Git(_)) => true,
            (ListStage::Listing, Observation::Git(_)) => true,
            _ => false,
        }
    }

    /// Takes the report of the last thing done and says what comes next (see
    /// `list_step`).
    pub fn step(&mut self, obs: Observation) -> (next: Next<WorktreeList>)
        requires
            list_awaits(old(self).stage, obs@),
        ensures
            (final(self)@, next@) == list_step(old(self)@, obs@),
    {
        match obs {
            Observation::GitFound(found) => {
                if found {
                    self.stage = ListStage::RepoRoot;
                    Next::Run(show_toplevel(self.repo_arg.clone()))
                } else {
                    self.stage = ListStage::Done;
                    Next::Finish(Err(WtError::GitNotFound))
                }
            },
            Observation::Git(run) => {
                let text = git_trimmed(run);
                match self.stage {
                    ListStage::RepoRoot => match text {
                        Err(e) => {
                            self.stage = ListStage::Done;
                            let ctx = concat(
                                "resolve Git repository root from ",
                                self.repo_arg.as_str(),
                            );
                            Next::Finish(Err(with_context(ctx, e)))
                        },
                        Ok(root) => {
                            self.stage = ListStage::Listing;
                            self.root = root.clone();
                            Next::Run(run_git(root, args3("worktree", "list", "--porcelain")))
                        },
                    },
                    _ => {
                        self.stage = ListStage::Done;
                        match text {
                            Err(e) => Next::Finish(Err(e)),
                            Ok(out) => {
                                let worktrees = parse_worktree_porcelain(out.as_str());
                                Next::Finish(
                                    Ok(WorktreeList { ok: true, repo: self.root.clone(), worktrees }),
                                )
                            },
                        }
                    },
                }
            },
            _ => Next::Abort(String::new()),
        }
    }
}

} // verus!
