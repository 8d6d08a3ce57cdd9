//! `create`: a new detached worktree under the Codex home, optionally with
//! the source checkout's tracked changes and untracked files.
use vstd::prelude::*;
use crate::effects::{
    Effect, EffectView, EntryProbe, Next, NextView, Observation, ObservationView, Removal,
    ProbeView, RemovalView, answers, args2, args3, args4, args5, git_bytes, git_effect, git_trimmed, run_git,
    spec_git_bytes, spec_git_text,
};
use crate::error::{Failure, WtError, concat, spec_message, with_context};
use crate::inspect::{branch_of, rev_parse_head_args, show_current_args};
use crate::list::{root_context, show_toplevel, show_toplevel_args};
use crate::naming::{
    MAX_CANDIDATES, PathSearch, generated_id, lemma_candidate_location, lemma_file_name_is_plain,
    lemma_generated_id_is_plain, lemma_slug_is_plain, spec_candidate_id, spec_candidate_path,
    spec_generated_id, unique_worktree_path, worktree_candidate,
};
use crate::path::{
    Comp, components, file_name, is_inside, is_plain_name, join_names, join_path,
    lemma_inside_by_components, lemma_join_components, normal_comps, spec_file_name, spec_join,
    split_on,
};
use crate::setup::{spec_worktrees_dir, worktrees_dir};
use crate::slug::{lemma_slug_is_shaped, sanitize_slug, spec_sanitize_slug};
use crate::untracked::{
    copy_destination, is_clean_rel, lemma_copy_stays_inside, lemma_reported_paths_clean, spec_ancestors, spec_destination,
    spec_untracked_paths, string_views, untracked_relative_paths,
};
use crate::worktrees::opt_view;

verus! {

/// What `create` is asked to do.
#[derive(Debug)]
pub struct CreateOptions {
    /// A path inside the source repository.
    pub repo: String,
    /// The ref, branch, tag or commit to check out, detached.
    pub base: String,
    /// A label for the worktree's id; a generated id is used when absent.
    pub slug: Option<String>,
    /// Apply the source checkout's tracked changes to the new worktree.
    pub include_dirty: bool,
    /// Copy the source checkout's untracked, non-ignored files.
    pub include_untracked: bool,
}

/// The content of `CreateOptions`.
pub struct OptionsView {
    pub repo: Seq<char>,
    pub base: Seq<char>,
    pub slug: Option<Seq<char>>,
    pub include_dirty: bool,
    pub include_untracked: bool,
}

impl View for CreateOptions {
    type V = OptionsView;

    open spec fn view(&self) -> OptionsView {
        OptionsView {
            repo: self.repo@,
            base: self.base@,
            slug: opt_view(self.slug),
            include_dirty: self.include_dirty,
            include_untracked: self.include_untracked,
        }
    }
}

/// What `create` reports of the new worktree.
#[derive(Debug)]
pub struct CreateResult {
    pub ok: bool,
    pub path: String,
    pub repo: String,
    pub base_ref: String,
    pub head: String,
    pub detached: bool,
    pub dirty_applied: bool,
    pub untracked_applied: bool,
    pub untracked_count: usize,
}

/// The content of a `CreateResult`.
pub struct ResultView {
    pub ok: bool,
    pub path: Seq<char>,
    pub repo: Seq<char>,
    pub base_ref: Seq<char>,
    pub head: Seq<char>,
    pub detached: bool,
    pub dirty_applied: bool,
    pub untracked_applied: bool,
    pub untracked_count: nat,
}

impl View for CreateResult {
    type V = ResultView;

    open spec fn view(&self) -> ResultView {
        ResultView {
            ok: self.ok,
            path: self.path@,
            repo: self.repo@,
            base_ref: self.base_ref@,
            head: self.head@,
            detached: self.detached,
            dirty_applied: self.dirty_applied,
            untracked_applied: self.untracked_applied,
            untracked_count: self.untracked_count as nat,
        }
    }
}

/// How far a `create` has come.
#[derive(Debug)]
pub enum CreateStage {
    /// Looking for Git.
    FindGit,
    /// Asking Git for the repository root.
    RepoRoot,
    /// Resolving `HEAD` to a commit (for `include_dirty`).
    ResolveHead,
    /// Resolving the base to a commit (for `include_dirty`).
    ResolveBase,
    /// Listing the untracked files to check them (for `include_untracked`).
    ListUntracked,
    /// Checking one untracked entry in the source repository.
    InspectUntracked,
    /// Creating the worktrees directory.
    MakeWorktreesDir,
    /// Waiting for a hash to name the worktree after.
    MakeSeed,
    /// Asking whether a candidate worktree path is taken.
    ProbePath,
    /// Creating the worktree's id directory.
    MakeParent,
    /// Adding the worktree.
    AddWorktree,
    /// Removing the id directory after Git failed to add the worktree.
    DropParent,
    /// Getting the diff of the tracked changes.
    DiffHead,
    /// Applying that diff in the worktree.
    ApplyPatch,
    /// Listing the untracked files to copy them.
    ListCopies,
    /// Checking a directory on the way to a copy.
    InspectAncestor,
    /// Creating a missing directory on the way to a copy.
    CreateAncestor,
    /// Checking that the place of a copy is free.
    InspectDestination,
    /// Copying one untracked entry.
    CopyFile,
    /// Removing the worktree after a failure.
    CleanupWorktree,
    /// Removing the id directory after a failure.
    CleanupParent,
    /// Asking the worktree for its `HEAD`.
    RevParseHead,
    /// Asking the worktree for its branch.
    ShowBranch,
    /// Over.
    Done,
}

/// A `create` in progress.
pub struct CreateRun {
    pub options: CreateOptions,
    /// The Codex home the worktrees directory belongs to.
    pub codex_home: String,
    pub stage: CreateStage,
    /// The repository root.
    pub repo: String,
    /// The commit of the source checkout's `HEAD` (for `include_dirty`).
    pub head_commit: String,
    /// The untracked paths being checked or copied.
    pub rels: Vec<String>,
    /// The position in `rels`.
    pub index: usize,
    pub repo_name: String,
    pub worktrees_dir: String,
    pub id_base: String,
    /// The position of the candidate path being probed.
    pub probe: u32,
    pub worktree_id: String,
    /// The new worktree.
    pub path: String,
    /// The worktree's id directory.
    pub parent: String,
    pub dirty_applied: bool,
    /// How many untracked entries were copied.
    pub copied: usize,
    /// The directories on the way to the current copy.
    pub ancestors: Vec<String>,
    /// The position in `ancestors`.
    pub ancestor: usize,
    /// The place of the current copy.
    pub destination: String,
    /// The failure that a clean-up is running for.
    pub failure: Option<WtError>,
    /// The worktree's `HEAD` commit.
    pub head: String,
}

/// The content of a `CreateRun`.
pub struct CreateState {
    pub options: OptionsView,
    pub codex_home: Seq<char>,
    pub stage: CreateStage,
    pub repo: Seq<char>,
    pub head_commit: Seq<char>,
    pub rels: Seq<Seq<char>>,
    pub index: nat,
    pub repo_name: Seq<char>,
    pub worktrees_dir: Seq<char>,
    pub id_base: Seq<char>,
    pub probe: nat,
    pub worktree_id: Seq<char>,
    pub path: Seq<char>,
    pub parent: Seq<char>,
    pub dirty_applied: bool,
    pub copied: nat,
    pub ancestors: Seq<Seq<char>>,
    pub ancestor: nat,
    pub destination: Seq<char>,
    pub failure: Option<Failure>,
    pub head: Seq<char>,
}

impl View for CreateRun {
    type V = CreateState;

    open spec fn view(&self) -> CreateState {
        CreateState {
            options: self.options@,
            codex_home: self.codex_home@,
            stage: self.stage,
            repo: self.repo@,
            head_commit: self.head_commit@,
            rels: string_views(self.rels@),
            index: self.index as nat,
            repo_name: self.repo_name@,
            worktrees_dir: self.worktrees_dir@,
            id_base: self.id_base@,
            probe: self.probe as nat,
            worktree_id: self.worktree_id@,
            path: self.path@,
            parent: self.parent@,
            dirty_applied: self.dirty_applied,
            copied: self.copied as nat,
            ancestors: string_views(self.ancestors@),
            ancestor: self.ancestor as nat,
            destination: self.destination@,
            failure: match self.failure {
                Some(e) => Some(e@),
                None => None,
            },
            head: self.head@,
        }
    }
}

// ---------------------------------------------------------------------------
// The Git commands and texts of `create`.

/// `git rev-parse --verify <rev>^{commit}`.
pub open spec fn verify_commit_args(rev: Seq<char>) -> Seq<Seq<char>> {
    seq!["rev-parse"@, "--verify"@, rev + "^{commit}"@]
}

/// `git ls-files --others --exclude-standard -z`.
pub open spec fn ls_files_args() -> Seq<Seq<char>> {
    seq!["ls-files"@, "--others"@, "--exclude-standard"@, "-z"@]
}

/// `git worktree add --detach <path> <base>`.
pub open spec fn worktree_add_args(path: Seq<char>, base: Seq<char>) -> Seq<Seq<char>> {
    seq!["worktree"@, "add"@, "--detach"@, path, base]
}

/// `git diff HEAD --binary`.
pub open spec fn diff_args() -> Seq<Seq<char>> {
    seq!["diff"@, "HEAD"@, "--binary"@]
}

/// `git apply --binary --whitespace=nowarn`.
pub open spec fn apply_args() -> Seq<Seq<char>> {
    seq!["apply"@, "--binary"@, "--whitespace=nowarn"@]
}

/// `git worktree remove --force <path>`.
pub open spec fn worktree_remove_args(path: Seq<char>) -> Seq<Seq<char>> {
    seq!["worktree"@, "remove"@, "--force"@, path]
}

/// An operating-system error with its text, under `context`.
pub open spec fn io_failure(context: Seq<char>, detail: Seq<char>) -> Failure {
    Failure::Context { context, cause: Box::new(Failure::Io { detail }) }
}

/// The failure reported when the clean-up after failure `e` itself failed
/// with `cleanup`.
pub open spec fn cleanup_failure(path: Seq<char>, cleanup: Failure, e: Failure) -> Failure {
    Failure::Context {
        context: "failed to clean up "@ + path + " after create error: "@ + spec_message(cleanup),
        cause: Box::new(e),
    }
}

// ---------------------------------------------------------------------------
// The steps of `create`.

/// The outcome of one step.
pub type CreateOut = (CreateState, NextView<ResultView>);

/// The run ends with failure `e`.
pub open spec fn fails(s: CreateState, e: Failure) -> CreateOut {
    (CreateState { stage: CreateStage::Done, ..s }, NextView::Finish(Err(e)))
}

/// The run moves to `stage` and asks for `effect`.
pub open spec fn ask(s: CreateState, stage: CreateStage, effect: EffectView) -> CreateOut {
    (CreateState { stage, ..s }, NextView::Run(effect))
}

/// After the checks: the worktree is named after the last component of the
/// repository root, and the worktrees directory is created.
pub open spec fn after_checks(s: CreateState) -> CreateOut {
    match spec_file_name(s.repo) {
        None => fails(s, Failure::NoRepositoryName { repo: s.repo }),
        Some(name) => {
            let dir = spec_worktrees_dir(s.codex_home);
            ask(
                CreateState { repo_name: name, worktrees_dir: dir, ..s },
                CreateStage::MakeWorktreesDir,
                EffectView::CreateDirAll { path: dir },
            )
        },
    }
}

/// The untracked entries from position `i` on are checked one by one in the
/// source repository.
pub open spec fn check_untracked_from(s: CreateState, i: nat) -> CreateOut {
    if i < s.rels.len() {
        ask(
            CreateState { index: i, ..s },
            CreateStage::InspectUntracked,
            EffectView::Inspect { path: spec_join(s.repo, s.rels[i as int]) },
        )
    } else {
        after_checks(s)
    }
}

/// With `include_untracked`, the untracked files are listed to be checked.
pub open spec fn check_untracked(s: CreateState) -> CreateOut {
    if s.options.include_untracked {
        ask(s, CreateStage::ListUntracked, git_effect(s.repo, ls_files_args()))
    } else {
        after_checks(s)
    }
}

/// The candidate path at `i` is probed.
pub open spec fn probe_from(s: CreateState, i: nat) -> CreateOut {
    ask(
        CreateState { probe: i, ..s },
        CreateStage::ProbePath,
        EffectView::Exists {
            path: spec_candidate_path(s.worktrees_dir, s.id_base, s.repo_name, i),
        },
    )
}

/// The search for a free path starts from `id_base`.
pub open spec fn search_from(s: CreateState, id_base: Seq<char>) -> CreateOut {
    probe_from(CreateState { id_base, ..s }, 0)
}

/// After `git worktree add`: the run ends by asking the worktree for its
/// `HEAD`.
pub open spec fn finish_from(s: CreateState) -> CreateOut {
    ask(s, CreateStage::RevParseHead, git_effect(s.path, rev_parse_head_args()))
}

/// With `include_untracked`, the untracked files are listed to be copied.
pub open spec fn copies_from(s: CreateState) -> CreateOut {
    if s.options.include_untracked {
        ask(s, CreateStage::ListCopies, git_effect(s.repo, ls_files_args()))
    } else {
        finish_from(s)
    }
}

/// The directories on the way to the current copy are checked from position
/// `j` on; then its place.
pub open spec fn ancestors_from(s: CreateState, j: nat) -> CreateOut {
    if j < s.ancestors.len() {
        ask(
            CreateState { ancestor: j, ..s },
            CreateStage::InspectAncestor,
            EffectView::Inspect { path: s.ancestors[j as int] },
        )
    } else {
        ask(s, CreateStage::InspectDestination, EffectView::Inspect { path: s.destination })
    }
}

/// The untracked entries from position `i` on are copied one by one.
pub open spec fn copy_from(s: CreateState, i: nat) -> CreateOut {
    if i < s.rels.len() {
        let rel = s.rels[i as int];
        ancestors_from(
            CreateState {
                index: i,
                destination: spec_destination(s.path, rel),
                ancestors: spec_ancestors(s.path, rel),
                ..s
            },
            0,
        )
    } else {
        finish_from(s)
    }
}

/// After failure `e` (once the worktree exists), the worktree is removed.
pub open spec fn clean_up(s: CreateState, e: Failure) -> CreateOut {
    ask(
        CreateState { failure: Some(e), ..s },
        CreateStage::CleanupWorktree,
        git_effect(s.repo, worktree_remove_args(s.path)),
    )
}

/// The steps up to the checks.
pub open spec fn step_checks(s: CreateState, obs: ObservationView) -> CreateOut {
    match (s.stage, obs) {
        (CreateStage::FindGit, ObservationView::GitFound(found)) => if found {
            ask(s, CreateStage::RepoRoot, git_effect(s.options.repo, show_toplevel_args()))
        } else {
            fails(s, Failure::GitNotFound)
        },
        (CreateStage::RepoRoot, ObservationView::Git(run)) => match spec_git_text(run) {
            Err(e) => fails(
                s,
                Failure::Context { context: root_context(s.options.repo), cause: Box::new(e) },
            ),
            Ok(repo) => {
                let s2 = CreateState { repo, ..s };
                if s.options.include_dirty {
                    ask(s2, CreateStage::ResolveHead, git_effect(repo, verify_commit_args("HEAD"@)))
                } else {
                    check_untracked(s2)
                }
            },
        },
        (CreateStage::ResolveHead, ObservationView::Git(run)) => match spec_git_text(run) {
            Err(e) => fails(
                s,
                Failure::Context { context: "resolve commit "@ + "HEAD"@, cause: Box::new(e) },
            ),
            Ok(head) => ask(
                CreateState { head_commit: head, ..s },
                CreateStage::ResolveBase,
                git_effect(s.repo, verify_commit_args(s.options.base)),
            ),
        },
        (CreateStage::ResolveBase, ObservationView::Git(run)) => match spec_git_text(run) {
            Err(e) => fails(
                s,
                Failure::Context {
                    context: "resolve commit "@ + s.options.base,
                    cause: Box::new(e),
                },
            ),
            Ok(base_commit) => if base_commit == s.head_commit {
                check_untracked(s)
            } else {
                fails(
                    s,
                    Failure::DirtyBaseMismatch {
                        base: s.options.base,
                        head: s.head_commit,
                        base_commit,
                    },
                )
            },
        },
        (CreateStage::ListUntracked, ObservationView::Git(run)) => match spec_git_bytes(run) {
            Err(e) => fails(s, e),
            Ok(out) => match spec_untracked_paths(out) {
                Err(e) => fails(s, e),
                Ok(rels) => check_untracked_from(CreateState { rels, ..s }, 0),
            },
        },
        (CreateStage::InspectUntracked, ObservationView::Entry(probe)) => {
            let rel = s.rels[s.index as int];
            match probe {
                ProbeView::Failed(d) => fails(s, io_failure("inspect untracked "@ + rel, d)),
                ProbeView::Missing(d) => fails(s, io_failure("inspect untracked "@ + rel, d)),
                ProbeView::Directory => fails(s, Failure::UntrackedDirectory { rel }),
                _ => check_untracked_from(s, s.index + 1),
            }
        },
        _ => (s, NextView::Abort(seq![])),
    }
}

/// The steps that name the worktree and add it.
pub open spec fn step_add(s: CreateState, obs: ObservationView) -> CreateOut {
    match (s.stage, obs) {
        (CreateStage::MakeWorktreesDir, ObservationView::Done(r)) => match r {
            Err(d) => fails(s, io_failure("create "@ + s.worktrees_dir, d)),
            Ok(()) => match s.options.slug {
                Some(slug) => search_from(s, spec_sanitize_slug(slug)),
                None => ask(
                    s,
                    CreateStage::MakeSeed,
                    EffectView::MakeSeed { repo: s.repo, base: s.options.base },
                ),
            },
        },
        (CreateStage::MakeSeed, ObservationView::Seed(seed)) => search_from(
            s,
            spec_generated_id(seed),
        ),
        (CreateStage::ProbePath, ObservationView::Exists(taken)) => if !taken {
            let id = spec_candidate_id(s.id_base, s.probe);
            let parent = spec_join(s.worktrees_dir, id);
            ask(
                CreateState {
                    worktree_id: id,
                    path: spec_candidate_path(s.worktrees_dir, s.id_base, s.repo_name, s.probe),
                    parent,
                    ..s
                },
                CreateStage::MakeParent,
                EffectView::CreateDirAll { path: parent },
            )
        } else if s.probe + 1 < MAX_CANDIDATES {
            probe_from(s, s.probe + 1)
        } else {
            (
                CreateState { stage: CreateStage::Done, ..s },
                NextView::Abort("could not find unique worktree path for "@ + s.id_base),
            )
        },
        (CreateStage::MakeParent, ObservationView::Done(r)) => match r {
            Err(d) => fails(s, io_failure("create "@ + s.parent, d)),
            Ok(()) => ask(
                s,
                CreateStage::AddWorktree,
                git_effect(s.repo, worktree_add_args(s.path, s.options.base)),
            ),
        },
        (CreateStage::AddWorktree, ObservationView::Git(run)) => match spec_git_bytes(run) {
            Err(e) => ask(
                CreateState { failure: Some(e), ..s },
                CreateStage::DropParent,
                EffectView::RemoveDir { path: s.parent },
            ),
            Ok(_) => if s.options.include_dirty {
                ask(s, CreateStage::DiffHead, git_effect(s.repo, diff_args()))
            } else {
                copies_from(s)
            },
        },
        (CreateStage::DropParent, ObservationView::Removed(_)) => fails(
            CreateState { failure: None, ..s },
            s.failure->0,
        ),
        _ => (s, NextView::Abort(seq![])),
    }
}

/// The steps that carry changes into the new worktree.
pub open spec fn step_changes(s: CreateState, obs: ObservationView) -> CreateOut {
    match (s.stage, obs) {
        (CreateStage::DiffHead, ObservationView::Git(run)) => match spec_git_bytes(run) {
            Err(e) => clean_up(s, e),
            Ok(patch) => if patch.len() == 0 {
                copies_from(CreateState { dirty_applied: false, ..s })
            } else {
                ask(
                    CreateState { dirty_applied: true, ..s },
                    CreateStage::ApplyPatch,
                    EffectView::Git { cwd: s.path, args: apply_args(), input: Some(patch) },
                )
            },
        },
        (CreateStage::ApplyPatch, ObservationView::Git(run)) => match spec_git_bytes(run) {
            Err(e) => clean_up(
                s,
                Failure::Context {
                    context: "apply tracked dirty changes to worktree"@,
                    cause: Box::new(e),
                },
            ),
            Ok(_) => copies_from(s),
        },
        (CreateStage::ListCopies, ObservationView::Git(run)) => match spec_git_bytes(run) {
            Err(e) => clean_up(s, e),
            Ok(out) => match spec_untracked_paths(out) {
                Err(e) => clean_up(s, e),
                Ok(rels) => copy_from(CreateState { rels, copied: 0, ..s }, 0),
            },
        },
        (CreateStage::InspectAncestor, ObservationView::Entry(probe)) => {
            let dir = s.ancestors[s.ancestor as int];
            match probe {
                ProbeView::Symlink => clean_up(s, Failure::SymlinkAncestor { path: dir }),
                ProbeView::Other => clean_up(s, Failure::AncestorNotDirectory { path: dir }),
                ProbeView::Directory => ancestors_from(s, s.ancestor + 1),
                ProbeView::Missing(_) => ask(s, CreateStage::CreateAncestor, EffectView::CreateDir { path: dir }),
                ProbeView::Failed(d) => clean_up(s, io_failure("inspect "@ + dir, d)),
            }
        },
        (CreateStage::CreateAncestor, ObservationView::Done(r)) => match r {
            Err(d) => clean_up(s, io_failure("create "@ + s.ancestors[s.ancestor as int], d)),
            Ok(()) => ancestors_from(s, s.ancestor + 1),
        },
        (CreateStage::InspectDestination, ObservationView::Entry(probe)) => match probe {
            ProbeView::Missing(_) => ask(
                s,
                CreateStage::CopyFile,
                EffectView::Copy {
                    source: spec_join(s.repo, s.rels[s.index as int]),
                    destination: s.destination,
                },
            ),
            ProbeView::Failed(d) => clean_up(s, io_failure("inspect "@ + s.destination, d)),
            _ => clean_up(s, Failure::WouldOverwrite { path: s.destination }),
        },
        (CreateStage::CopyFile, ObservationView::Done(r)) => match r {
            Err(d) => clean_up(s, io_failure("copy untracked "@ + s.rels[s.index as int], d)),
            Ok(()) => copy_from(CreateState { copied: s.copied + 1, ..s }, s.index + 1),
        },
        _ => (s, NextView::Abort(seq![])),
    }
}

/// The steps that clean up after a failure and that end the run.
pub open spec fn step_end(s: CreateState, obs: ObservationView) -> CreateOut {
    match (s.stage, obs) {
        (CreateStage::CleanupWorktree, ObservationView::Git(run)) => match spec_git_bytes(run) {
            Err(ce) => fails(
                CreateState { failure: None, ..s },
                cleanup_failure(
                    s.path,
                    Failure::Context {
                        context: "remove failed worktree "@ + s.path,
                        cause: Box::new(ce),
                    },
                    s.failure->0,
                ),
            ),
            Ok(_) => ask(s, CreateStage::CleanupParent, EffectView::RemoveDir { path: s.parent }),
        },
        (CreateStage::CleanupParent, ObservationView::Removed(r)) => match r {
            RemovalView::Failed(d) => fails(
                CreateState { failure: None, ..s },
                cleanup_failure(s.path, io_failure("remove "@ + s.parent, d), s.failure->0),
            ),
            _ => fails(CreateState { failure: None, ..s }, s.failure->0),
        },
        (CreateStage::RevParseHead, ObservationView::Git(run)) => match spec_git_text(run) {
            Err(e) => clean_up(s, e),
            Ok(head) => ask(
                CreateState { head, ..s },
                CreateStage::ShowBranch,
                git_effect(s.path, show_current_args()),
            ),
        },
        (CreateStage::ShowBranch, ObservationView::Git(run)) => match spec_git_text(run) {
            Err(e) => clean_up(s, e),
            Ok(text) => (
                CreateState { stage: CreateStage::Done, ..s },
                NextView::Finish(
                    Ok(
                        ResultView {
                            ok: true,
                            path: s.path,
                            repo: s.repo,
                            base_ref: s.options.base,
                            head: s.head,
                            detached: branch_of(text) is None,
                            dirty_applied: s.dirty_applied,
                            untracked_applied: s.copied > 0,
                            untracked_count: s.copied,
                        },
                    ),
                ),
            ),
        },
        _ => (s, NextView::Abort(seq![])),
    }
}

/// One step of `create`.
pub open spec fn create_step(s: CreateState, obs: ObservationView) -> CreateOut {
    match s.stage {
        CreateStage::FindGit | CreateStage::RepoRoot | CreateStage::ResolveHead
        | CreateStage::ResolveBase | CreateStage::ListUntracked
        | CreateStage::InspectUntracked => step_checks(s, obs),
        CreateStage::MakeWorktreesDir | CreateStage::MakeSeed | CreateStage::ProbePath
        | CreateStage::MakeParent | CreateStage::AddWorktree | CreateStage::DropParent => step_add(
            s,
            obs,
        ),
        CreateStage::DiffHead | CreateStage::ApplyPatch | CreateStage::ListCopies
        | CreateStage::InspectAncestor | CreateStage::CreateAncestor
        | CreateStage::InspectDestination | CreateStage::CopyFile => step_changes(s, obs),
        _ => step_end(s, obs),
    }
}

/// Whether a `create` at `stage` waits for a report of the kind of `obs`.
pub open spec fn create_awaits(stage: CreateStage, obs: ObservationView) -> bool {
    match stage {
        CreateStage::FindGit => obs is GitFound,
        CreateStage::InspectUntracked | CreateStage::InspectAncestor
        | CreateStage::InspectDestination => obs is Entry,
        CreateStage::MakeWorktreesDir | CreateStage::MakeParent | CreateStage::CreateAncestor
        | CreateStage::CopyFile => obs is Done,
        CreateStage::MakeSeed => obs is Seed,
        CreateStage::ProbePath => obs is Exists,
        CreateStage::DropParent | CreateStage::CleanupParent => obs is Removed,
        CreateStage::Done => false,
        _ => obs is Git,
    }
}

/// Whether the stage is one of those that copy an untracked entry.
pub open spec fn is_copy_stage(stage: CreateStage) -> bool {
    stage is InspectAncestor || stage is CreateAncestor || stage is InspectDestination
        || stage is CopyFile
}

/// Whether the stage comes after the worktree's path was chosen.
pub open spec fn is_placed_stage(stage: CreateStage) -> bool {
    ||| stage is MakeParent
    ||| stage is AddWorktree
    ||| stage is DropParent
    ||| stage is DiffHead
    ||| stage is ApplyPatch
    ||| stage is ListCopies
    ||| is_copy_stage(stage)
    ||| stage is CleanupWorktree
    ||| stage is CleanupParent
    ||| stage is RevParseHead
    ||| stage is ShowBranch
}

/// Whether the stage comes after the worktrees directory was chosen.
pub open spec fn is_named_stage(stage: CreateStage) -> bool {
    stage is MakeWorktreesDir || stage is MakeSeed || stage is ProbePath || is_placed_stage(stage)
}

/// What holds of a `create` in progress at every step.
pub open spec fn create_wf(s: CreateState) -> bool {
    &&& is_named_stage(s.stage) ==> s.worktrees_dir == spec_worktrees_dir(s.codex_home)
        && is_plain_name(s.repo_name)
    &&& (s.stage is ProbePath || is_placed_stage(s.stage)) ==> is_plain_name(s.id_base)
    &&& is_placed_stage(s.stage) ==> {
        &&& s.path == spec_candidate_path(s.worktrees_dir, s.id_base, s.repo_name, s.probe)
        &&& s.parent == spec_join(s.worktrees_dir, spec_candidate_id(s.id_base, s.probe))
    }
    &&& is_copy_stage(s.stage) ==> {
        &&& s.destination == spec_destination(s.path, s.rels[s.index as int])
        &&& s.ancestors == spec_ancestors(s.path, s.rels[s.index as int])
    }
    &&& s.stage is InspectUntracked ==> s.index < s.rels.len()
    &&& s.stage is ProbePath ==> s.probe < MAX_CANDIDATES
    &&& is_copy_stage(s.stage) ==> {
        &&& s.index < s.rels.len()
        &&& s.copied <= s.index
        &&& forall|k: int| 0 <= k < s.rels.len() ==> is_clean_rel(#[trigger] s.rels[k])
    }
    &&& (s.stage is InspectAncestor || s.stage is CreateAncestor) ==> s.ancestor
        < s.ancestors.len()
    &&& (s.stage is DropParent || s.stage is CleanupWorktree || s.stage is CleanupParent)
        <==> s.failure is Some
    &&& (s.stage is DiffHead || s.stage is ApplyPatch || s.dirty_applied) ==> s.options.include_dirty
    &&& (s.stage is ListCopies || is_copy_stage(s.stage) || s.copied > 0)
        ==> s.options.include_untracked
}

proof fn lemma_copy_from_wf(s: CreateState, i: nat)
    requires
        s.worktrees_dir == spec_worktrees_dir(s.codex_home),
        is_plain_name(s.repo_name),
        is_plain_name(s.id_base),
        s.path == spec_candidate_path(s.worktrees_dir, s.id_base, s.repo_name, s.probe),
        s.parent == spec_join(s.worktrees_dir, spec_candidate_id(s.id_base, s.probe)),
        s.copied <= i,
        s.options.include_untracked,
        s.failure is None,
        s.dirty_applied ==> s.options.include_dirty,
        forall|k: int| 0 <= k < s.rels.len() ==> is_clean_rel(#[trigger] s.rels[k]),
    ensures
        create_wf(copy_from(s, i).0),
{
}

/// Whether `args` is one of the Git commands that `create` runs: finding
/// the repository root, resolving `HEAD` or the base to a commit, listing
/// untracked files, adding a worktree detached at the base, diffing and
/// applying tracked changes, removing a failed worktree, and reading the new
/// worktree's `HEAD` and branch.
pub open spec fn is_create_git_command(args: Seq<Seq<char>>, options: OptionsView) -> bool {
    ||| args == show_toplevel_args()
    ||| args == verify_commit_args("HEAD"@)
    ||| args == verify_commit_args(options.base)
    ||| args == ls_files_args()
    ||| (args.len() == 5 && args == worktree_add_args(args[3], options.base))
    ||| args == diff_args()
    ||| args == apply_args()
    ||| (args.len() == 4 && args == worktree_remove_args(args[3]))
    ||| args == rev_parse_head_args()
    ||| args == show_current_args()
}

/// Whether the stage follows a successful `git worktree add` and belongs to
/// carrying changes over.
pub open spec fn is_change_stage(stage: CreateStage) -> bool {
    stage is DiffHead || stage is ApplyPatch || stage is ListCopies || is_copy_stage(stage)
}

/// Every step keeps what holds of a `create` in progress.
pub proof fn lemma_create_step_wf(s: CreateState, obs: ObservationView)
    requires
        create_wf(s),
        create_awaits(s.stage, obs),
    ensures
        create_wf(create_step(s, obs).0),
{
    if spec_file_name(s.repo) is Some {
        lemma_file_name_is_plain(s.repo);
    }
    match (s.stage, obs) {
        (CreateStage::RepoRoot, ObservationView::Git(run)) => {
            if let Ok(repo) = spec_git_text(run) {
                if spec_file_name(repo) is Some {
                    lemma_file_name_is_plain(repo);
                }
            }
        },
        (CreateStage::MakeWorktreesDir, ObservationView::Done(r)) => {
            if let Some(slug) = s.options.slug {
                lemma_slug_is_shaped(slug);
                lemma_slug_is_plain(spec_sanitize_slug(slug));
            }
        },
        (CreateStage::MakeSeed, ObservationView::Seed(seed)) => {
            lemma_generated_id_is_plain(seed);
        },
        (CreateStage::ListCopies, ObservationView::Git(run)) => {
            if let Ok(out) = spec_git_bytes(run) {
                if let Ok(rels) = spec_untracked_paths(out) {
                    lemma_reported_paths_clean(crate::path::split_on(out, 0u8));
                    lemma_copy_from_wf(CreateState { rels, copied: 0, ..s }, 0);
                }
            }
        },
        (CreateStage::CopyFile, ObservationView::Done(r)) => {
            if r is Ok {
                lemma_copy_from_wf(CreateState { copied: s.copied + 1, ..s }, s.index + 1);
            }
        },
        _ => {},
    }
}

/// A step never changes what `create` was asked to do.
pub proof fn lemma_create_keeps_options(s: CreateState, obs: ObservationView)
    ensures
        create_step(s, obs).0.options == s.options,
{
}

/// `create` runs only the Git commands of `is_create_git_command`: in
/// particular it never creates or switches a branch, and the one worktree it
/// adds is detached at the requested base.
pub proof fn lemma_create_git_commands(s: CreateState, obs: ObservationView)
    requires
        create_step(s, obs).1 is Run,
        create_step(s, obs).1->Run_0 is Git,
    ensures
        is_create_git_command(create_step(s, obs).1->Run_0->Git_args, s.options),
{
}

/// The names of the Git commands that `create` runs differ from each other.
proof fn lemma_command_names()
    ensures
        "diff"@ != "rev-parse"@,
        "diff"@ != "ls-files"@,
        "diff"@ != "worktree"@,
        "diff"@ != "apply"@,
        "diff"@ != "branch"@,
        "apply"@ != "rev-parse"@,
        "apply"@ != "ls-files"@,
        "apply"@ != "worktree"@,
        "apply"@ != "branch"@,
        "ls-files"@ != "rev-parse"@,
        "ls-files"@ != "worktree"@,
        "ls-files"@ != "branch"@,
{
    reveal_strlit("diff");
    reveal_strlit("apply");
    reveal_strlit("rev-parse");
    reveal_strlit("ls-files");
    reveal_strlit("worktree");
    reveal_strlit("branch");
    assert("diff"@.len() == 4);
    assert("apply"@.len() == 5);
    assert("branch"@.len() == 6);
    assert("ls-files"@.len() == 8);
    assert("worktree"@.len() == 8);
    assert("rev-parse"@.len() == 9);
    assert("ls-files"@[0] == 'l');
    assert("worktree"@[0] == 'w');
}

/// Tracked changes are diffed (`git diff`) and applied (`git apply`), and
/// untracked files listed (`git ls-files`) and copied, only when the options
/// ask for them; the only Git command fed an input is `git apply`.
pub proof fn lemma_create_changes_only_when_asked(s: CreateState, obs: ObservationView)
    requires
        create_wf(s),
        create_awaits(s.stage, obs),
        create_step(s, obs).1 is Run,
    ensures
        create_step(s, obs).1->Run_0 is Git && create_step(s, obs).1->Run_0->Git_args.len() > 0
            && (create_step(s, obs).1->Run_0->Git_args[0] == "diff"@ || create_step(
            s,
            obs,
        ).1->Run_0->Git_args[0] == "apply"@) ==> s.options.include_dirty,
        create_step(s, obs).1->Run_0 is Git && create_step(s, obs).1->Run_0->Git_input is Some
            ==> create_step(s, obs).1->Run_0->Git_args == apply_args()
            && s.options.include_dirty,
        create_step(s, obs).1->Run_0 is Git && create_step(s, obs).1->Run_0->Git_args.len() > 0
            && create_step(s, obs).1->Run_0->Git_args[0] == "ls-files"@
            ==> s.options.include_untracked,
        create_step(s, obs).1->Run_0 is Copy ==> s.options.include_untracked,
{
    lemma_command_names();
}

/// Whether the stage comes after a successful `git worktree add` and before
/// the end of the run: carrying changes over, or reading the new worktree's
/// `HEAD` and branch.
pub open spec fn is_added_stage(stage: CreateStage) -> bool {
    is_change_stage(stage) || stage is RevParseHead || stage is ShowBranch
}

/// Once the worktree is added, no failure ends the run directly: the worktree
/// is removed first (`git worktree remove --force`), then its id directory,
/// and the run ends with the failure that caused the clean-up. A failure of
/// `git worktree add` itself removes the worktree's id directory.
pub proof fn lemma_create_cleans_up(s: CreateState, obs: ObservationView)
    requires
        create_wf(s),
        create_awaits(s.stage, obs),
    ensures
        is_change_stage(s.stage) ==> create_step(s, obs).1 is Run,
        is_added_stage(s.stage) ==> !(create_step(s, obs).1 is Finish && create_step(
            s,
            obs,
        ).1->Finish_0 is Err),
        is_added_stage(s.stage) && create_step(s, obs).0.failure is Some ==> create_step(
            s,
            obs,
        ).1 == NextView::<ResultView>::Run(git_effect(s.repo, worktree_remove_args(s.path))),
        s.stage is CleanupWorktree && spec_git_bytes(obs->Git_0) is Ok ==> create_step(
            s,
            obs,
        ).1 == NextView::<ResultView>::Run(EffectView::RemoveDir { path: s.parent }),
        s.stage is CleanupParent && !(obs->Removed_0 is Failed) ==> create_step(s, obs).1
            == NextView::<ResultView>::Finish(Err(s.failure->0)),
        s.stage is AddWorktree && obs is Git && spec_git_bytes(obs->Git_0) is Err ==> create_step(
            s,
            obs,
        ).1 == NextView::<ResultView>::Run(EffectView::RemoveDir { path: s.parent }),
{
}

/// What `create` reports on success: `ok`, the requested base, the new
/// worktree's `HEAD`, `untracked_applied` exactly when some file was copied,
/// tracked changes applied only when asked for, and files copied only when
/// asked for.
pub proof fn lemma_create_result(s: CreateState, obs: ObservationView)
    requires
        create_wf(s),
        create_step(s, obs).1 is Finish,
        create_step(s, obs).1->Finish_0 is Ok,
    ensures
        ({
            let r = create_step(s, obs).1->Finish_0->Ok_0;
            &&& r.ok
            &&& r.base_ref == s.options.base
            &&& r.path == s.path
            &&& r.head == s.head
            &&& r.untracked_applied == (r.untracked_count > 0)
            &&& r.dirty_applied ==> s.options.include_dirty
            &&& r.untracked_count > 0 ==> s.options.include_untracked
        }),
{
}

/// Whether doing `e` can change the file system only inside `dir`: the
/// directories it creates or removes and the copies it makes lie in `dir`, and
/// a Git command fed an input runs there.
pub open spec fn writes_inside(e: EffectView, dir: Seq<char>) -> bool {
    match e {
        EffectView::CreateDirAll { path } => is_inside(path, dir),
        EffectView::CreateDir { path } => is_inside(path, dir),
        EffectView::RemoveDir { path } => is_inside(path, dir),
        EffectView::Copy { destination, .. } => is_inside(destination, dir),
        EffectView::Git { cwd, input, .. } => input is Some ==> is_inside(cwd, dir),
        _ => true,
    }
}

/// `create` leaves the source checkout alone: every directory it creates or
/// removes and every file it copies lies under `$CODEX_HOME/worktrees`, and
/// `git apply` runs in the new worktree there. (Git's own commands, such as
/// `git worktree add`, write only Git's metadata in the repository.)
#[verifier::spinoff_prover]
#[verifier::rlimit(40)]
pub proof fn lemma_create_writes_under_worktrees(s: CreateState, obs: ObservationView)
    requires
        create_wf(s),
        create_awaits(s.stage, obs),
        create_step(s, obs).1 is Run,
    ensures
        writes_inside(create_step(s, obs).1->Run_0, spec_worktrees_dir(s.codex_home)),
{
    let dir = spec_worktrees_dir(s.codex_home);
    lemma_inside_by_components(dir, dir, seq![]);
    if s.stage is ProbePath || is_placed_stage(s.stage) {
        lemma_candidate_location(s.worktrees_dir, s.id_base, s.repo_name, s.probe);
        let id = spec_candidate_id(s.id_base, s.probe);
        assert(join_names(seq![id]) == id);
        lemma_join_components(s.worktrees_dir, seq![id]);
        lemma_inside_by_components(spec_join(s.worktrees_dir, id), dir, normal_comps(seq![id]));
        lemma_inside_by_components(
            spec_candidate_path(s.worktrees_dir, s.id_base, s.repo_name, s.probe),
            dir,
            seq![Comp::Normal(id), Comp::Normal(s.repo_name)],
        );
        if is_copy_stage(s.stage) {
            let rel = s.rels[s.index as int];
            let names = split_on(rel, '/');
            lemma_copy_stays_inside(s.path, rel);
            let head = seq![Comp::Normal(id), Comp::Normal(s.repo_name)];
            assert(components(s.destination) == components(dir) + (head + normal_comps(names)));
            lemma_inside_by_components(s.destination, dir, head + normal_comps(names));
            if s.ancestor < s.ancestors.len() {
                let k = s.ancestor as int;
                let a = s.ancestors[k];
                let tail = normal_comps(names.take(k + 1));
                assert(components(a) == components(s.path) + tail);
                assert(components(a) == components(dir) + (head + tail));
                lemma_inside_by_components(a, dir, head + tail);
            }
        }
    }
}

/// Each step that asks for outside work leaves the run waiting for exactly
/// the kind of report that this work calls for, so a caller that does what is
/// asked can always report back.
pub proof fn lemma_create_awaits_what_it_asks(s: CreateState, obs: ObservationView, o: ObservationView)
    requires
        create_step(s, obs).1 is Run,
    ensures
        create_awaits(create_step(s, obs).0.stage, o) == answers(create_step(s, obs).1->Run_0, o),
{
    match s.stage {
        CreateStage::FindGit | CreateStage::RepoRoot | CreateStage::ResolveHead
        | CreateStage::ResolveBase | CreateStage::ListUntracked
        | CreateStage::InspectUntracked => lemma_checks_await(s, obs, o),
        CreateStage::MakeWorktreesDir | CreateStage::MakeSeed | CreateStage::ProbePath
        | CreateStage::MakeParent | CreateStage::AddWorktree
        | CreateStage::DropParent => lemma_add_await(s, obs, o),
        CreateStage::DiffHead | CreateStage::ApplyPatch | CreateStage::ListCopies
        | CreateStage::InspectAncestor | CreateStage::CreateAncestor
        | CreateStage::InspectDestination | CreateStage::CopyFile => lemma_changes_await(s, obs, o),
        _ => lemma_end_await(s, obs, o),
    }
}

proof fn lemma_checks_await(s: CreateState, obs: ObservationView, o: ObservationView)
    requires
        step_checks(s, obs).1 is Run,
    ensures
        create_awaits(step_checks(s, obs).0.stage, o) == answers(step_checks(s, obs).1->Run_0, o),
{
    match (s.stage, obs) {
        (CreateStage::ListUntracked, ObservationView::Git(run)) => {
            if let Ok(out) = spec_git_bytes(run) {
                if let Ok(rels) = spec_untracked_paths(out) {
                    lemma_check_untracked_from_await(CreateState { rels, ..s }, 0, o);
                }
            }
        },
        (CreateStage::InspectUntracked, ObservationView::Entry(_)) => {
            lemma_check_untracked_from_await(s, s.index + 1, o);
        },
        _ => {},
    }
}

proof fn lemma_check_untracked_from_await(s: CreateState, i: nat, o: ObservationView)
    requires
        check_untracked_from(s, i).1 is Run,
    ensures
        create_awaits(check_untracked_from(s, i).0.stage, o) == answers(
            check_untracked_from(s, i).1->Run_0,
            o,
        ),
{
}

proof fn lemma_add_await(s: CreateState, obs: ObservationView, o: ObservationView)
    requires
        step_add(s, obs).1 is Run,
    ensures
        create_awaits(step_add(s, obs).0.stage, o) == answers(step_add(s, obs).1->Run_0, o),
{
}

proof fn lemma_copy_from_await(s: CreateState, i: nat, o: ObservationView)
    requires
        copy_from(s, i).1 is Run,
    ensures
        create_awaits(copy_from(s, i).0.stage, o) == answers(copy_from(s, i).1->Run_0, o),
{
}

proof fn lemma_changes_await(s: CreateState, obs: ObservationView, o: ObservationView)
    requires
        step_changes(s, obs).1 is Run,
    ensures
        create_awaits(step_changes(s, obs).0.stage, o) == answers(step_changes(s, obs).1->Run_0, o),
{
    match (s.stage, obs) {
        (CreateStage::ListCopies, ObservationView::Git(run)) => {
            if let Ok(out) = spec_git_bytes(run) {
                if let Ok(rels) = spec_untracked_paths(out) {
                    lemma_copy_from_await(CreateState { rels, copied: 0, ..s }, 0, o);
                }
            }
        },
        (CreateStage::CopyFile, ObservationView::Done(r)) => {
            if r is Ok {
                lemma_copy_from_await(CreateState { copied: s.copied + 1, ..s }, s.index + 1, o);
            }
        },
        _ => {},
    }
}

proof fn lemma_end_await(s: CreateState, obs: ObservationView, o: ObservationView)
    requires
        step_end(s, obs).1 is Run,
    ensures
        create_awaits(step_end(s, obs).0.stage, o) == answers(step_end(s, obs).1->Run_0, o),
{
}

/// `dirty_applied` records whether a patch was applied: diffing the source
/// checkout (`git diff HEAD --binary`) sets it exactly when the diff is not
/// empty, and then the diff is fed to `git apply --binary
/// --whitespace=nowarn` in the new worktree; no other step changes it, and a
/// successful run reports it as it stands.
pub proof fn lemma_dirty_applied_follows_the_diff(s: CreateState, obs: ObservationView)
    requires
        create_wf(s),
        create_awaits(s.stage, obs),
    ensures
        s.stage is DiffHead && spec_git_bytes(obs->Git_0) is Ok ==> ({
            let patch = spec_git_bytes(obs->Git_0)->Ok_0;
            &&& create_step(s, obs).0.dirty_applied == (patch.len() > 0)
            &&& patch.len() > 0 ==> create_step(s, obs).1 == NextView::<ResultView>::Run(
                EffectView::Git {
                    cwd: s.path,
                    args: seq!["apply"@, "--binary"@, "--whitespace=nowarn"@],
                    input: Some(patch),
                },
            )
        }),
        !(s.stage is DiffHead) ==> create_step(s, obs).0.dirty_applied == s.dirty_applied,
        create_step(s, obs).1 is Finish && create_step(s, obs).1->Finish_0 is Ok
            ==> create_step(s, obs).1->Finish_0->Ok_0.dirty_applied == s.dirty_applied,
{
}

/// The check of the untracked entries refuses an entry only when it is a
/// directory (such as a nested repository) or cannot be inspected; a file or
/// a symbolic link lets the check go on to the next entry, and after the last
/// one `create` goes on to make the worktrees directory.
pub proof fn lemma_untracked_check_refuses_only_directories(s: CreateState, obs: ObservationView)
    requires
        create_wf(s),
        s.stage is InspectUntracked,
        obs is Entry,
    ensures
        ({
            let rel = s.rels[s.index as int];
            let p = obs->Entry_0;
            let (s2, next) = create_step(s, obs);
            &&& p is Directory ==> next == NextView::<ResultView>::Finish(
                Err(Failure::UntrackedDirectory { rel }),
            )
            &&& (p is Failed || p is Missing) ==> next is Finish && next->Finish_0 is Err
                && next->Finish_0->Err_0 is Context && next->Finish_0->Err_0->context
                == "inspect untracked "@ + rel
            &&& (p is Symlink || p is Other) ==> {
                &&& !(next is Finish && next->Finish_0 is Err && next->Finish_0->Err_0
                    is UntrackedDirectory)
                &&& s.index + 1 < s.rels.len() ==> s2.stage is InspectUntracked && s2.index
                    == s.index + 1 && next == NextView::<ResultView>::Run(
                    EffectView::Inspect { path: spec_join(s.repo, s.rels[s.index + 1 as int]) },
                )
                &&& s.index + 1 == s.rels.len() && spec_file_name(s.repo) is Some ==> next
                    == NextView::<ResultView>::Run(
                    EffectView::CreateDirAll { path: spec_worktrees_dir(s.codex_home) },
                )
            }
        }),
{
}

/// A successful `create` ends on reading the new worktree's branch with
/// `git branch --show-current` in it, and reports it detached exactly when
/// that printed nothing.
pub proof fn lemma_create_detached_without_branch(s: CreateState, obs: ObservationView)
    requires
        create_wf(s),
        create_awaits(s.stage, obs),
        create_step(s, obs).1 is Finish,
        create_step(s, obs).1->Finish_0 is Ok,
    ensures
        s.stage is ShowBranch,
        spec_git_text(obs->Git_0) is Ok,
        create_step(s, obs).1->Finish_0->Ok_0.detached == (spec_git_text(obs->Git_0)->Ok_0.len()
            == 0),
{
}

/// Reading the new worktree's branch is asked with `git branch
/// --show-current`, run in the new worktree.
pub proof fn lemma_create_asks_the_branch_in_the_worktree(s: CreateState, obs: ObservationView)
    requires
        create_wf(s),
        create_awaits(s.stage, obs),
        create_step(s, obs).0.stage is ShowBranch,
        !(s.stage is ShowBranch),
    ensures
        create_step(s, obs).1 == NextView::<ResultView>::Run(
            git_effect(s.path, seq!["branch"@, "--show-current"@]),
        ),
{
}

/// The state after the probes of the search report, in turn, whether each
/// candidate path is taken.
pub open spec fn after_probes(s: CreateState, taken: Seq<bool>) -> CreateState
    decreases taken.len(),
{
    if taken.len() == 0 {
        s
    } else {
        create_step(after_probes(s, taken.drop_last()), ObservationView::Exists(taken.last())).0
    }
}

proof fn lemma_probes_taken(s: CreateState, taken: Seq<bool>, k: nat)
    requires
        s.stage is ProbePath,
        k <= taken.len(),
        s.probe + k < MAX_CANDIDATES,
        forall|i: int| 0 <= i < k ==> #[trigger] taken[i],
    ensures
        after_probes(s, taken.take(k as int)) == (CreateState { probe: s.probe + k, ..s }),
    decreases k,
{
    if k == 0 {
        assert(taken.take(0) =~= Seq::<bool>::empty());
    } else {
        lemma_probes_taken(s, taken, (k - 1) as nat);
        assert(taken.take(k as int).drop_last() =~= taken.take(k - 1));
        assert(taken.take(k as int).last() == taken[k - 1]);
    }
}

/// The search takes the first candidate path that is free: when the paths
/// at `s.probe`, ..., `s.probe + j - 1` are taken and the one at
/// `s.probe + j` is free, the worktree gets that path and that id, and its id
/// directory is created next.
pub proof fn lemma_search_takes_first_free(s: CreateState, taken: Seq<bool>, j: nat)
    requires
        s.stage is ProbePath,
        taken.len() == j + 1,
        s.probe + j < MAX_CANDIDATES,
        forall|i: int| 0 <= i < j ==> #[trigger] taken[i],
        !taken[j as int],
    ensures
        after_probes(s, taken).stage is MakeParent,
        after_probes(s, taken).worktree_id == spec_candidate_id(s.id_base, s.probe + j),
        after_probes(s, taken).path == spec_candidate_path(
            s.worktrees_dir,
            s.id_base,
            s.repo_name,
            s.probe + j,
        ),
        after_probes(s, taken).parent == spec_join(
            s.worktrees_dir,
            spec_candidate_id(s.id_base, s.probe + j),
        ),
{
    lemma_probes_taken(s, taken, j);
    assert(taken.drop_last() =~= taken.take(j as int));
}

/// When every candidate path is taken, the search gives up after the last
/// one, with the message that names the id it started from.
pub proof fn lemma_search_gives_up(s: CreateState, taken: Seq<bool>)
    requires
        s.stage is ProbePath,
        s.probe == 0,
        taken.len() == MAX_CANDIDATES,
        forall|i: int| 0 <= i < taken.len() ==> #[trigger] taken[i],
    ensures
        after_probes(s, taken).stage is Done,
        create_step(after_probes(s, taken.drop_last()), ObservationView::Exists(true)).1
            == NextView::<ResultView>::Abort(
            "could not find unique worktree path for "@ + s.id_base,
        ),
{
    let last = (MAX_CANDIDATES - 1) as nat;
    lemma_probes_taken(s, taken, last);
    assert(taken.drop_last() =~= taken.take(last as int));
}

// ---------------------------------------------------------------------------
// Running `create`.

/// The directory and the arguments of a Git command, for `run_git`.
fn git_in(cwd: &String, args: Vec<String>) -> (e: Effect)
    ensures
        e@ == git_effect(cwd@, string_views(args@)),
{
    run_git(cwd.clone(), args)
}

/// `context` under which an operating-system error with text `detail` is
/// reported.
fn io_error(context: String, detail: String) -> (e: WtError)
    ensures
        e@ == io_failure(context@, detail@),
{
    with_context(context, WtError::Io { detail })
}

/// Starts creating a worktree as `options` asks, under the Codex home
/// `codex_home`: the first thing to do is to look for Git.
pub fn create(options: CreateOptions, codex_home: String) -> (r: (CreateRun, Effect))
    ensures
        r.0@.options == options@,
        r.0@.codex_home == codex_home@,
        r.0@.stage == CreateStage::FindGit,
        r.0@.rels.len() == 0,
        r.0@.copied == 0,
        r.0@.dirty_applied == false,
        r.0@.failure is None,
        create_wf(r.0@),
        r.1@ == EffectView::FindGit,
{
    let run = CreateRun {
        options,
        codex_home,
        stage: CreateStage::FindGit,
        repo: String::new(),
        head_commit: String::new(),
        rels: Vec::new(),
        index: 0,
        repo_name: String::new(),
        worktrees_dir: String::new(),
        id_base: String::new(),
        probe: 0,
        worktree_id: String::new(),
        path: String::new(),
        parent: String::new(),
        dirty_applied: false,
        copied: 0,
        ancestors: Vec::new(),
        ancestor: 0,
        destination: String::new(),
        failure: None,
        head: String::new(),
    };
    proof {
        assert(string_views(run.rels@) =~= Seq::<Seq<char>>::empty());
    }
    (run, Effect::FindGit)
}

impl CreateRun {
    fn fails(&mut self, e: WtError) -> (next: Next<CreateResult>)
        ensures
            (final(self)@, next@) == fails(old(self)@, e@),
    {
        self.stage = CreateStage::Done;
        Next::Finish(Err(e))
    }

    fn ask(&mut self, stage: CreateStage, effect: Effect) -> (next: Next<CreateResult>)
        ensures
            (final(self)@, next@) == ask(old(self)@, stage, effect@),
    {
        self.stage = stage;
        Next::Run(effect)
    }

    fn after_checks(&mut self) -> (next: Next<CreateResult>)
        ensures
            (final(self)@, next@) == after_checks(old(self)@),
    {
        match file_name(self.repo.as_str()) {
            None => {
                let repo = self.repo.clone();
                self.fails(WtError::NoRepositoryName { repo })
            },
            Some(name) => {
                let dir = worktrees_dir(self.codex_home.as_str());
                self.repo_name = name;
                self.worktrees_dir = dir.clone();
                self.ask(CreateStage::MakeWorktreesDir, Effect::CreateDirAll { path: dir })
            },
        }
    }

    fn check_untracked_from(&mut self, i: usize) -> (next: Next<CreateResult>)
        ensures
            (final(self)@, next@) == check_untracked_from(old(self)@, i as nat),
    {
        if i < self.rels.len() {
            let path = join_path(self.repo.as_str(), self.rels[i].as_str());
            proof {
                assert(self@.rels[i as int] == self.rels@[i as int]@);
            }
            self.index = i;
            self.ask(CreateStage::InspectUntracked, Effect::Inspect { path })
        } else {
            self.after_checks()
        }
    }

    fn check_untracked(&mut self) -> (next: Next<CreateResult>)
        ensures
            (final(self)@, next@) == check_untracked(old(self)@),
    {
        if self.options.include_untracked {
            let e = git_in(&self.repo, args4("ls-files", "--others", "--exclude-standard", "-z"));
            self.ask(CreateStage::ListUntracked, e)
        } else {
            self.after_checks()
        }
    }

    fn probe_from(&mut self, i: u32) -> (next: Next<CreateResult>)
        requires
            i < MAX_CANDIDATES,
        ensures
            (final(self)@, next@) == probe_from(old(self)@, i as nat),
    {
        let (_, path) = worktree_candidate(
            self.worktrees_dir.as_str(),
            self.id_base.as_str(),
            self.repo_name.as_str(),
            i,
        );
        self.probe = i;
        self.ask(CreateStage::ProbePath, Effect::Exists { path })
    }

    fn search_from(&mut self, id_base: String) -> (next: Next<CreateResult>)
        ensures
            (final(self)@, next@) == search_from(old(self)@, id_base@),
    {
        self.id_base = id_base;
        self.probe_from(0)
    }

    fn finish_from(&mut self) -> (next: Next<CreateResult>)
        ensures
            (final(self)@, next@) == finish_from(old(self)@),
    {
        let e = git_in(&self.path, args2("rev-parse", "HEAD"));
        self.ask(CreateStage::RevParseHead, e)
    }

    fn copies_from(&mut self) -> (next: Next<CreateResult>)
        ensures
            (final(self)@, next@) == copies_from(old(self)@),
    {
        if self.options.include_untracked {
            let e = git_in(&self.repo, args4("ls-files", "--others", "--exclude-standard", "-z"));
            self.ask(CreateStage::ListCopies, e)
        } else {
            self.finish_from()
        }
    }

    fn ancestors_from(&mut self, j: usize) -> (next: Next<CreateResult>)
        ensures
            (final(self)@, next@) == ancestors_from(old(self)@, j as nat),
    {
        if j < self.ancestors.len() {
            let path = self.ancestors[j].clone();
            proof {
                assert(self@.ancestors[j as int] == self.ancestors@[j as int]@);
            }
            self.ancestor = j;
            self.ask(CreateStage::InspectAncestor, Effect::Inspect { path })
        } else {
            let path = self.destination.clone();
            self.ask(CreateStage::InspectDestination, Effect::Inspect { path })
        }
    }

    fn copy_from(&mut self, i: usize) -> (next: Next<CreateResult>)
        requires
            forall|k: int| 0 <= k < old(self)@.rels.len() ==> is_clean_rel(#[trigger] old(self)@.rels[k]),
        ensures
            (final(self)@, next@) == copy_from(old(self)@, i as nat),
    {
        if i < self.rels.len() {
            proof {
                assert(self@.rels[i as int] == self.rels@[i as int]@);
                assert(is_clean_rel(self@.rels[i as int]));
            }
            let (dest, ancestors) = copy_destination(self.path.as_str(), self.rels[i].as_str());
            self.index = i;
            self.destination = dest;
            self.ancestors = ancestors;
            self.ancestors_from(0)
        } else {
            self.finish_from()
        }
    }

    fn clean_up(&mut self, e: WtError) -> (next: Next<CreateResult>)
        ensures
            (final(self)@, next@) == clean_up(old(self)@, e@),
    {
        self.failure = Some(e);
        let eff = git_in(&self.repo, args4("worktree", "remove", "--force", self.path.as_str()));
        self.ask(CreateStage::CleanupWorktree, eff)
    }

    fn step_checks_exec(&mut self, obs: Observation) -> (next: Next<CreateResult>)
        requires
            create_wf(old(self)@),
            create_awaits(old(self).stage, obs@),
            old(self).stage is FindGit || old(self).stage is RepoRoot || old(self).stage is ResolveHead
                || old(self).stage is ResolveBase || old(self).stage is ListUntracked
                || old(self).stage is InspectUntracked,
        ensures
            (final(self)@, next@) == step_checks(old(self)@, obs@),
    {
        match self.stage {
            CreateStage::FindGit => match obs {
                Observation::GitFound(found) => {
                    if found {
                        let e = show_toplevel(self.options.repo.clone());
                        self.ask(CreateStage::RepoRoot, e)
                    } else {
                        self.fails(WtError::GitNotFound)
                    }
                },
                _ => Next::Abort(String::new()),
            },
            CreateStage::RepoRoot => match obs {
                Observation::Git(run) => match git_trimmed(run) {
                    Err(e) => {
                        let ctx = concat(
                            "resolve Git repository root from ",
                            self.options.repo.as_str(),
                        );
                        self.fails(with_context(ctx, e))
                    },
                    Ok(repo) => {
                        self.repo = repo;
                        if self.options.include_dirty {
                            let rev = concat("HEAD", "^{commit}");
                            let e = git_in(&self.repo, args3("rev-parse", "--verify", rev.as_str()));
                            self.ask(CreateStage::ResolveHead, e)
                        } else {
                            self.check_untracked()
                        }
                    },
                },
                _ => Next::Abort(String::new()),
            },
            CreateStage::ResolveHead => match obs {
                Observation::Git(run) => match git_trimmed(run) {
                    Err(e) => {
                        let ctx = concat("resolve commit ", "HEAD");
                        self.fails(with_context(ctx, e))
                    },
                    Ok(head) => {
                        self.head_commit = head;
                        let rev = concat(self.options.base.as_str(), "^{commit}");
                        let e = git_in(&self.repo, args3("rev-parse", "--verify", rev.as_str()));
                        self.ask(CreateStage::ResolveBase, e)
                    },
                },
                _ => Next::Abort(String::new()),
            },
            CreateStage::ResolveBase => match obs {
                Observation::Git(run) => match git_trimmed(run) {
                    Err(e) => {
                        let ctx = concat("resolve commit ", self.options.base.as_str());
                        self.fails(with_context(ctx, e))
                    },
                    Ok(base_commit) => {
                        if base_commit == self.head_commit {
                            self.check_untracked()
                        } else {
                            let e = WtError::DirtyBaseMismatch {
                                base: self.options.base.clone(),
                                head: self.head_commit.clone(),
                                base_commit,
                            };
                            self.fails(e)
                        }
                    },
                },
                _ => Next::Abort(String::new()),
            },
            CreateStage::ListUntracked => match obs {
                Observation::Git(run) => match git_bytes(run) {
                    Err(e) => self.fails(e),
                    Ok(out) => match untracked_relative_paths(&out) {
                        Err(e) => self.fails(e),
                        Ok(rels) => {
                            self.rels = rels;
                            self.check_untracked_from(0)
                        },
                    },
                },
                _ => Next::Abort(String::new()),
            },
            _ => match obs {
                Observation::Entry(probe) => {
                    let i = self.index;
                    proof {
                        assert(self@.rels[i as int] == self.rels@[i as int]@);
                        assert(i < self.rels.len());
                    }
                    match probe {
                        EntryProbe::Failed(d) => {
                            let ctx = concat("inspect untracked ", self.rels[i].as_str());
                            self.fails(io_error(ctx, d))
                        },
                        EntryProbe::Missing(d) => {
                            let ctx = concat("inspect untracked ", self.rels[i].as_str());
                            self.fails(io_error(ctx, d))
                        },
                        EntryProbe::Directory => {
                            let rel = self.rels[i].clone();
                            self.fails(WtError::UntrackedDirectory { rel })
                        },
                        _ => self.check_untracked_from(i + 1),
                    }
                },
                _ => Next::Abort(String::new()),
            },
        }
    }

    fn step_add_exec(&mut self, obs: Observation) -> (next: Next<CreateResult>)
        requires
            create_wf(old(self)@),
            create_awaits(old(self).stage, obs@),
            old(self).stage is MakeWorktreesDir || old(self).stage is MakeSeed
                || old(self).stage is ProbePath || old(self).stage is MakeParent
                || old(self).stage is AddWorktree || old(self).stage is DropParent,
        ensures
            (final(self)@, next@) == step_add(old(self)@, obs@),
    {
        match self.stage {
            CreateStage::MakeWorktreesDir => match obs {
                Observation::Done(r) => match r {
                    Err(d) => {
                        let ctx = concat("create ", self.worktrees_dir.as_str());
                        self.fails(io_error(ctx, d))
                    },
                    Ok(()) => match &self.options.slug {
                        Some(slug) => {
                            let id_base = sanitize_slug(slug.as_str());
                            self.search_from(id_base)
                        },
                        None => {
                            let e = Effect::MakeSeed {
                                repo: self.repo.clone(),
                                base: self.options.base.clone(),
                            };
                            self.ask(CreateStage::MakeSeed, e)
                        },
                    },
                },
                _ => Next::Abort(String::new()),
            },
            CreateStage::MakeSeed => match obs {
                Observation::Seed(seed) => {
                    let id_base = generated_id(seed);
                    self.search_from(id_base)
                },
                _ => Next::Abort(String::new()),
            },
            CreateStage::ProbePath => match obs {
                Observation::Exists(taken) => {
                    match unique_worktree_path(
                        self.worktrees_dir.as_str(),
                        self.id_base.as_str(),
                        self.repo_name.as_str(),
                        self.probe,
                        taken,
                    ) {
                        PathSearch::Found { id, path } => {
                            let parent = join_path(self.worktrees_dir.as_str(), id.as_str());
                            self.worktree_id = id;
                            self.path = path;
                            self.parent = parent.clone();
                            self.ask(CreateStage::MakeParent, Effect::CreateDirAll { path: parent })
                        },
                        PathSearch::Probe { index, .. } => self.probe_from(index),
                        PathSearch::Exhausted => {
                            self.stage = CreateStage::Done;
                            Next::Abort(
                                concat(
                                    "could not find unique worktree path for ",
                                    self.id_base.as_str(),
                                ),
                            )
                        },
                    }
                },
                _ => Next::Abort(String::new()),
            },
            CreateStage::MakeParent => match obs {
                Observation::Done(r) => match r {
                    Err(d) => {
                        let ctx = concat("create ", self.parent.as_str());
                        self.fails(io_error(ctx, d))
                    },
                    Ok(()) => {
                        let e = git_in(
                            &self.repo,
                            args5(
                                "worktree",
                                "add",
                                "--detach",
                                self.path.as_str(),
                                self.options.base.as_str(),
                            ),
                        );
                        self.ask(CreateStage::AddWorktree, e)
                    },
                },
                _ => Next::Abort(String::new()),
            },
            CreateStage::AddWorktree => match obs {
                Observation::Git(run) => match git_bytes(run) {
                    Err(e) => {
                        self.failure = Some(e);
                        let path = self.parent.clone();
                        self.ask(CreateStage::DropParent, Effect::RemoveDir { path })
                    },
                    Ok(_) => {
                        if self.options.include_dirty {
                            let e = git_in(&self.repo, args3("diff", "HEAD", "--binary"));
                            self.ask(CreateStage::DiffHead, e)
                        } else {
                            self.copies_from()
                        }
                    },
                },
                _ => Next::Abort(String::new()),
            },
            _ => match obs {
                Observation::Removed(_) => match self.failure.take() {
                    Some(e) => self.fails(e),
                    None => Next::Abort(String::new()),
                },
                _ => Next::Abort(String::new()),
            },
        }
    }

    fn step_changes_exec(&mut self, obs: Observation) -> (next: Next<CreateResult>)
        requires
            create_wf(old(self)@),
            create_awaits(old(self).stage, obs@),
            old(self).stage is DiffHead || old(self).stage is ApplyPatch
                || old(self).stage is ListCopies || old(self).stage is InspectAncestor
                || old(self).stage is CreateAncestor || old(self).stage is InspectDestination
                || old(self).stage is CopyFile,
        ensures
            (final(self)@, next@) == step_changes(old(self)@, obs@),
    {
        match self.stage {
            CreateStage::DiffHead => match obs {
                Observation::Git(run) => match git_bytes(run) {
                    Err(e) => self.clean_up(e),
                    Ok(patch) => {
                        if patch.len() == 0 {
                            self.dirty_applied = false;
                            self.copies_from()
                        } else {
                            self.dirty_applied = true;
                            let e = Effect::Git {
                                cwd: self.path.clone(),
                                args: args3("apply", "--binary", "--whitespace=nowarn"),
                                input: Some(patch),
                            };
                            self.ask(CreateStage::ApplyPatch, e)
                        }
                    },
                },
                _ => Next::Abort(String::new()),
            },
            CreateStage::ApplyPatch => match obs {
                Observation::Git(run) => match git_bytes(run) {
                    Err(e) => {
                        let ctx = String::from_str("apply tracked dirty changes to worktree");
                        self.clean_up(with_context(ctx, e))
                    },
                    Ok(_) => self.copies_from(),
                },
                _ => Next::Abort(String::new()),
            },
            CreateStage::ListCopies => match obs {
                Observation::Git(run) => match git_bytes(run) {
                    Err(e) => self.clean_up(e),
                    Ok(out) => match untracked_relative_paths(&out) {
                        Err(e) => self.clean_up(e),
                        Ok(rels) => {
                            proof {
                                lemma_reported_paths_clean(crate::path::split_on(out@, 0u8));
                            }
                            self.rels = rels;
                            self.copied = 0;
                            self.copy_from(0)
                        },
                    },
                },
                _ => Next::Abort(String::new()),
            },
            CreateStage::InspectAncestor => match obs {
                Observation::Entry(probe) => {
                    let j = self.ancestor;
                    proof {
                        assert(self@.ancestors[j as int] == self.ancestors@[j as int]@);
                        assert(j < self.ancestors.len());
                    }
                    match probe {
                        EntryProbe::Symlink => {
                            let path = self.ancestors[j].clone();
                            self.clean_up(WtError::SymlinkAncestor { path })
                        },
                        EntryProbe::Other => {
                            let path = self.ancestors[j].clone();
                            self.clean_up(WtError::AncestorNotDirectory { path })
                        },
                        EntryProbe::Directory => self.ancestors_from(j + 1),
                        EntryProbe::Missing(_) => {
                            let path = self.ancestors[j].clone();
                            self.ask(CreateStage::CreateAncestor, Effect::CreateDir { path })
                        },
                        EntryProbe::Failed(d) => {
                            let ctx = concat("inspect ", self.ancestors[j].as_str());
                            self.clean_up(io_error(ctx, d))
                        },
                    }
                },
                _ => Next::Abort(String::new()),
            },
            CreateStage::CreateAncestor => match obs {
                Observation::Done(r) => {
                    let j = self.ancestor;
                    proof {
                        assert(self@.ancestors[j as int] == self.ancestors@[j as int]@);
                        assert(j < self.ancestors.len());
                    }
                    match r {
                        Err(d) => {
                            let ctx = concat("create ", self.ancestors[j].as_str());
                            self.clean_up(io_error(ctx, d))
                        },
                        Ok(()) => self.ancestors_from(j + 1),
                    }
                },
                _ => Next::Abort(String::new()),
            },
            CreateStage::InspectDestination => match obs {
                Observation::Entry(probe) => match probe {
                    EntryProbe::Missing(_) => {
                        let i = self.index;
                        proof {
                            assert(self@.rels[i as int] == self.rels@[i as int]@);
                        }
                        let source = join_path(self.repo.as_str(), self.rels[i].as_str());
                        let e = Effect::Copy { source, destination: self.destination.clone() };
                        self.ask(CreateStage::CopyFile, e)
                    },
                    EntryProbe::Failed(d) => {
                        let ctx = concat("inspect ", self.destination.as_str());
                        self.clean_up(io_error(ctx, d))
                    },
                    _ => {
                        let path = self.destination.clone();
                        self.clean_up(WtError::WouldOverwrite { path })
                    },
                },
                _ => Next::Abort(String::new()),
            },
            _ => match obs {
                Observation::Done(r) => {
                    let i = self.index;
                    proof {
                        assert(self@.rels[i as int] == self.rels@[i as int]@);
                        assert(i < self.rels.len());
                    }
                    match r {
                        Err(d) => {
                            let ctx = concat("copy untracked ", self.rels[i].as_str());
                            self.clean_up(io_error(ctx, d))
                        },
                        Ok(()) => {
                            self.copied = self.copied + 1;
                            self.copy_from(i + 1)
                        },
                    }
                },
                _ => Next::Abort(String::new()),
            },
        }
    }

    fn step_end_exec(&mut self, obs: Observation) -> (next: Next<CreateResult>)
        requires
            create_wf(old(self)@),
            create_awaits(old(self).stage, obs@),
            old(self).stage is CleanupWorktree || old(self).stage is CleanupParent
                || old(self).stage is RevParseHead || old(self).stage is ShowBranch,
        ensures
            (final(self)@, next@) == step_end(old(self)@, obs@),
    {
        match self.stage {
            CreateStage::CleanupWorktree => match obs {
                Observation::Git(run) => match git_bytes(run) {
                    Err(ce) => {
                        let inner = with_context(
                            concat("remove failed worktree ", self.path.as_str()),
                            ce,
                        );
                        let mut ctx = concat("failed to clean up ", self.path.as_str());
                        ctx.append(" after create error: ");
                        let m = inner.message();
                        ctx.append(m.as_str());
                        match self.failure.take() {
                            Some(e) => self.fails(with_context(ctx, e)),
                            None => Next::Abort(String::new()),
                        }
                    },
                    Ok(_) => {
                        let path = self.parent.clone();
                        self.ask(CreateStage::CleanupParent, Effect::RemoveDir { path })
                    },
                },
                _ => Next::Abort(String::new()),
            },
            CreateStage::CleanupParent => match obs {
                Observation::Removed(r) => match r {
                    Removal::Failed(d) => {
                        let inner = io_error(concat("remove ", self.parent.as_str()), d);
                        let mut ctx = concat("failed to clean up ", self.path.as_str());
                        ctx.append(" after create error: ");
                        let m = inner.message();
                        ctx.append(m.as_str());
                        match self.failure.take() {
                            Some(e) => self.fails(with_context(ctx, e)),
                            None => Next::Abort(String::new()),
                        }
                    },
                    _ => match self.failure.take() {
                        Some(e) => self.fails(e),
                        None => Next::Abort(String::new()),
                    },
                },
                _ => Next::Abort(String::new()),
            },
            CreateStage::RevParseHead => match obs {
                Observation::Git(run) => match git_trimmed(run) {
                    Err(e) => self.clean_up(e),
                    Ok(head) => {
                        self.head = head;
                        let e = git_in(&self.path, args2("branch", "--show-current"));
                        self.ask(CreateStage::ShowBranch, e)
                    },
                },
                _ => Next::Abort(String::new()),
            },
            _ => match obs {
                Observation::Git(run) => match git_trimmed(run) {
                    Err(e) => self.clean_up(e),
                    Ok(text) => {
                        let detached = text.as_str().unicode_len() == 0;
                        self.stage = CreateStage::Done;
                        Next::Finish(
                            Ok(
                                CreateResult {
                                    ok: true,
                                    path: self.path.clone(),
                                    repo: self.repo.clone(),
                                    base_ref: self.options.base.clone(),
                                    head: self.head.clone(),
                                    detached,
                                    dirty_applied: self.dirty_applied,
                                    untracked_applied: self.copied > 0,
                                    untracked_count: self.copied,
                                },
                            ),
                        )
                    },
                },
                _ => Next::Abort(String::new()),
            },
        }
    }

    /// Takes the report of the last thing done and says what comes next (see
    /// `create_step`).
    pub fn step(&mut self, obs: Observation) -> (next: Next<CreateResult>)
        requires
            create_wf(old(self)@),
            create_awaits(old(self).stage, obs@),
        ensures
            (final(self)@, next@) == create_step(old(self)@, obs@),
            create_wf(final(self)@),
    {
        proof {
            lemma_create_step_wf(self@, obs@);
        }
        match self.stage {
            CreateStage::FindGit | CreateStage::RepoRoot | CreateStage::ResolveHead
            | CreateStage::ResolveBase | CreateStage::ListUntracked
            | CreateStage::InspectUntracked => self.step_checks_exec(obs),
            CreateStage::MakeWorktreesDir | CreateStage::MakeSeed | CreateStage::ProbePath
            | CreateStage::MakeParent | CreateStage::AddWorktree
            | CreateStage::DropParent => self.step_add_exec(obs),
            CreateStage::DiffHead | CreateStage::ApplyPatch | CreateStage::ListCopies
            | CreateStage::InspectAncestor | CreateStage::CreateAncestor
            | CreateStage::InspectDestination | CreateStage::CopyFile => self.step_changes_exec(obs),
            _ => self.step_end_exec(obs),
        }
    }

    /// Whether this run waits for a report of the kind of `obs`.
    pub fn awaits(&self, obs: &Observation) -> (b: bool)
        ensures
            b == create_awaits(self.stage, obs@),
    {
        match (&self.stage, obs) {
            (CreateStage::FindGit, Observation::GitFound(_)) => true,
            (CreateStage::FindGit, _) => false,
            (CreateStage::InspectUntracked, Observation::Entry(_)) => true,
            (CreateStage::InspectAncestor, Observation::Entry(_)) => true,
            (CreateStage::InspectDestination, Observation::Entry(_)) => true,
            (CreateStage::InspectUntracked, _) => false,
            (CreateStage::InspectAncestor, _) => false,
            (CreateStage::InspectDestination, _) => false,
            (CreateStage::MakeWorktreesDir, Observation::Done(_)) => true,
            (CreateStage::MakeParent, Observation::Done(_)) => true,
            (CreateStage::CreateAncestor, Observation::Done(_)) => true,
            (CreateStage::CopyFile, Observation::Done(_)) => true,
            (CreateStage::MakeWorktreesDir, _) => false,
            (CreateStage::MakeParent, _) => false,
            (CreateStage::CreateAncestor, _) => false,
            (CreateStage::CopyFile, _) => false,
            (CreateStage::MakeSeed, Observation::Seed(_)) => true,
            (CreateStage::MakeSeed, _) => false,
            (CreateStage::ProbePath, Observation::Exists(_)) => true,
            (CreateStage::ProbePath, _) => false,
            (CreateStage::DropParent, Observation::Removed(_)) => true,
            (CreateStage::CleanupParent, Observation::Removed(_)) => true,
            (CreateStage::DropParent, _) => false,
            (CreateStage::CleanupParent, _) => false,
            (CreateStage::Done, _) => false,
            (_, Observation::Git(_)) => true,
            _ => false,
        }
    }
}

} // verus!
