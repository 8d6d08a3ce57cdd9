//! The outside work that the tool's operations ask their caller to do, what
//! the caller reports back, and how a Git run's report is read.
use vstd::prelude::*;
use crate::error::{Failure, WtError, with_context};
use crate::text::{spec_trim, spec_utf8_lossy, trim, utf8_lossy};
use crate::untracked::string_views;

verus! {

/// The part of running Git that failed before Git could report.
#[derive(Debug)]
pub enum GitStage {
    /// Starting the program.
    Spawn,
    /// Writing its standard input.
    WriteInput,
    /// Waiting for it to end.
    Wait,
}

/// What running Git gave.
#[derive(Debug)]
pub enum GitRun {
    /// The operating system reported an error at `stage`.
    Failed { stage: GitStage, detail: String },
    /// Git ended; `success` tells whether its exit status was zero.
    Finished { success: bool, stdout: Vec<u8>, stderr: Vec<u8> },
}

/// The content of a `GitRun`.
pub enum GitRunView {
    Failed { stage: GitStage, detail: Seq<char> },
    Finished { success: bool, stdout: Seq<u8>, stderr: Seq<u8> },
}

impl View for GitRun {
    type V = GitRunView;

    open spec fn view(&self) -> GitRunView {
        match self {
            GitRun::Failed { stage, detail } => GitRunView::Failed { stage: *stage, detail: detail@ },
            GitRun::Finished { success, stdout, stderr } => GitRunView::Finished {
                success: *success,
                stdout: stdout@,
                stderr: stderr@,
            },
        }
    }
}

/// The context under which an operating-system error of `stage` is reported.
pub open spec fn stage_context(stage: GitStage) -> Seq<char> {
    match stage {
        GitStage::Spawn => "run git"@,
        GitStage::WriteInput => "write git stdin"@,
        GitStage::Wait => "wait for git"@,
    }
}

/// Git's standard output when it succeeded, otherwise the failure: the
/// operating-system error under its context, or `git failed: ` with Git's
/// error stream decoded and trimmed.
pub open spec fn spec_git_bytes(run: GitRunView) -> Result<Seq<u8>, Failure> {
    match run {
        GitRunView::Failed { stage, detail } => Err(
            Failure::Context {
                context: stage_context(stage),
                cause: Box::new(Failure::Io { detail }),
            },
        ),
        GitRunView::Finished { success, stdout, stderr } => if success {
            Ok(stdout)
        } else {
            Err(Failure::GitFailed { stderr: spec_trim(spec_utf8_lossy(stderr)) })
        },
    }
}

/// Git's standard output as trimmed text when it succeeded, otherwise the
/// failure (see `spec_git_bytes`).
pub open spec fn spec_git_text(run: GitRunView) -> Result<Seq<char>, Failure> {
    match spec_git_bytes(run) {
        Ok(b) => Ok(spec_trim(spec_utf8_lossy(b))),
        Err(e) => Err(e),
    }
}

fn stage_context_exec(stage: GitStage) -> (s: String)
    ensures
        s@ == stage_context(stage),
{
    match stage {
        GitStage::Spawn => String::from_str("run git"),
        GitStage::WriteInput => String::from_str("write git stdin"),
        GitStage::Wait => String::from_str("wait for git"),
    }
}

/// Git's standard output when it succeeded, otherwise the failure.
pub fn git_bytes(run: GitRun) -> (r: Result<Vec<u8>, WtError>)
    ensures
        match r {
            Ok(b) => spec_git_bytes(run@) == Ok::<Seq<u8>, Failure>(b@),
            Err(e) => spec_git_bytes(run@) == Err::<Seq<u8>, Failure>(e@),
        },
{
    match run {
        GitRun::Failed { stage, detail } => Err(
            with_context(stage_context_exec(stage), WtError::Io { detail }),
        ),
        GitRun::Finished { success, stdout, stderr } => {
            if success {
                Ok(stdout)
            } else {
                let text = utf8_lossy(stderr.as_slice());
                Err(WtError::GitFailed { stderr: trim(text.as_str()) })
            }
        },
    }
}

/// Git's standard output as trimmed text when it succeeded, otherwise the
/// failure.
pub fn git_trimmed(run: GitRun) -> (r: Result<String, WtError>)
    ensures
        match r {
            Ok(t) => spec_git_text(run@) == Ok::<Seq<char>, Failure>(t@),
            Err(e) => spec_git_text(run@) == Err::<Seq<char>, Failure>(e@),
        },
{
    match git_bytes(run) {
        Ok(b) => {
            let text = utf8_lossy(b.as_slice());
            Ok(trim(text.as_str()))
        },
        Err(e) => Err(e),
    }
}

/// What a metadata query (`fs::symlink_metadata`) found at a path.
#[derive(Debug)]
pub enum EntryProbe {
    /// Nothing is there; the text of the "not found" error.
    Missing(String),
    /// A directory.
    Directory,
    /// A symbolic link.
    Symlink,
    /// Something else, such as a regular file.
    Other,
    /// The query failed with this error text.
    Failed(String),
}

/// What removing an empty directory (`fs::remove_dir`) gave.
#[derive(Debug)]
pub enum Removal {
    Removed,
    /// There was nothing to remove.
    Missing,
    /// The directory was not empty.
    NotEmpty,
    /// Another error, with its text.
    Failed(String),
}

/// Outside work for the caller to do.
#[derive(Debug)]
pub enum Effect {
    /// Look for a regular file named `git` in the directories of `PATH`.
    FindGit,
    /// Run `git` with `args` in the directory `cwd`, with `input` as its
    /// standard input when given.
    Git { cwd: String, args: Vec<String>, input: Option<Vec<u8>> },
    /// Create the directory `path` and its missing ancestors.
    CreateDirAll { path: String },
    /// Create the directory `path`.
    CreateDir { path: String },
    /// Remove the empty directory `path`.
    RemoveDir { path: String },
    /// Tell whether something exists at `path` (following links).
    Exists { path: String },
    /// Query the metadata of `path` without following a last link.
    Inspect { path: String },
    /// Copy the file or symbolic link `source` to the new path `destination`,
    /// keeping a file's permissions.
    Copy { source: String, destination: String },
    /// Hash `repo`, `base`, the process id and the current time into a number.
    MakeSeed { repo: String, base: String },
}

/// What the caller reports after doing an `Effect`.
#[derive(Debug)]
pub enum Observation {
    /// For `FindGit`: whether it was found.
    GitFound(bool),
    /// For `Git`.
    Git(GitRun),
    /// For `CreateDirAll`, `CreateDir` and `Copy`: success, or the error text.
    Done(Result<(), String>),
    /// For `RemoveDir`.
    Removed(Removal),
    /// For `Exists`.
    Exists(bool),
    /// For `Inspect`.
    Entry(EntryProbe),
    /// For `MakeSeed`.
    Seed(u64),
}

/// The content of an `Effect`.
pub enum EffectView {
    FindGit,
    Git { cwd: Seq<char>, args: Seq<Seq<char>>, input: Option<Seq<u8>> },
    CreateDirAll { path: Seq<char> },
    CreateDir { path: Seq<char> },
    RemoveDir { path: Seq<char> },
    Exists { path: Seq<char> },
    Inspect { path: Seq<char> },
    Copy { source: Seq<char>, destination: Seq<char> },
    MakeSeed { repo: Seq<char>, base: Seq<char> },
}

impl View for Effect {
    type V = EffectView;

    open spec fn view(&self) -> EffectView {
        match self {
            Effect::FindGit => EffectView::FindGit,
            Effect::Git { cwd, args, input } => EffectView::Git {
                cwd: cwd@,
                args: string_views(args@),
                input: match input {
                    Some(i) => Some(i@),
                    None => None,
                },
            },
            Effect::CreateDirAll { path } => EffectView::CreateDirAll { path: path@ },
            Effect::CreateDir { path } => EffectView::CreateDir { path: path@ },
            Effect::RemoveDir { path } => EffectView::RemoveDir { path: path@ },
            Effect::Exists { path } => EffectView::Exists { path: path@ },
            Effect::Inspect { path } => EffectView::Inspect { path: path@ },
            Effect::Copy { source, destination } => EffectView::Copy {
                source: source@,
                destination: destination@,
            },
            Effect::MakeSeed { repo, base } => EffectView::MakeSeed { repo: repo@, base: base@ },
        }
    }
}

/// The content of an `EntryProbe`.
pub enum ProbeView {
    Missing(Seq<char>),
    Directory,
    Symlink,
    Other,
    Failed(Seq<char>),
}

/// The content of a `Removal`.
pub enum RemovalView {
    Removed,
    Missing,
    NotEmpty,
    Failed(Seq<char>),
}

/// The content of an `Observation`.
pub enum ObservationView {
    GitFound(bool),
    Git(GitRunView),
    Done(Result<(), Seq<char>>),
    Removed(RemovalView),
    Exists(bool),
    Entry(ProbeView),
    Seed(u64),
}

impl View for EntryProbe {
    type V = ProbeView;

    open spec fn view(&self) -> ProbeView {
        match self {
            EntryProbe::Missing(d) => ProbeView::Missing(d@),
            EntryProbe::Directory => ProbeView::Directory,
            EntryProbe::Symlink => ProbeView::Symlink,
            EntryProbe::Other => ProbeView::Other,
            EntryProbe::Failed(d) => ProbeView::Failed(d@),
        }
    }
}

impl View for Removal {
    type V = RemovalView;

    open spec fn view(&self) -> RemovalView {
        match self {
            Removal::Removed => RemovalView::Removed,
            Removal::Missing => RemovalView::Missing,
            Removal::NotEmpty => RemovalView::NotEmpty,
            Removal::Failed(d) => RemovalView::Failed(d@),
        }
    }
}

impl View for Observation {
    type V = ObservationView;

    open spec fn view(&self) -> ObservationView {
        match self {
            Observation::GitFound(b) => ObservationView::GitFound(*b),
            Observation::Git(r) => ObservationView::Git(r@),
            Observation::Done(r) => ObservationView::Done(
                match r {
                    Ok(()) => Ok(()),
                    Err(d) => Err(d@),
                },
            ),
            Observation::Removed(r) => ObservationView::Removed(r@),
            Observation::Exists(b) => ObservationView::Exists(*b),
            Observation::Entry(p) => ObservationView::Entry(p@),
            Observation::Seed(s) => ObservationView::Seed(*s),
        }
    }
}

/// Whether `obs` is the kind of report that `effect` calls for.
pub open spec fn answers(effect: EffectView, obs: ObservationView) -> bool {
    match effect {
        EffectView::FindGit => obs is GitFound,
        EffectView::Git { .. } => obs is Git,
        EffectView::CreateDirAll { .. } => obs is Done,
        EffectView::CreateDir { .. } => obs is Done,
        EffectView::Copy { .. } => obs is Done,
        EffectView::RemoveDir { .. } => obs is Removed,
        EffectView::Exists { .. } => obs is Exists,
        EffectView::Inspect { .. } => obs is Entry,
        EffectView::MakeSeed { .. } => obs is Seed,
    }
}

/// What an operation asks for next.
#[derive(Debug)]
pub enum Next<R> {
    /// Do this and report what happened.
    Run(Effect),
    /// The operation is over with this outcome.
    Finish(Result<R, WtError>),
    /// The operation cannot go on; the caller stops the program with this
    /// message.
    Abort(String),
}

/// The content of a `Next`.
pub enum NextView<V> {
    Run(EffectView),
    Finish(Result<V, Failure>),
    Abort(Seq<char>),
}

impl<R: View> View for Next<R> {
    type V = NextView<R::V>;

    open spec fn view(&self) -> NextView<R::V> {
        match self {
            Next::Run(e) => NextView::Run(e@),
            Next::Finish(r) => NextView::Finish(
                match r {
                    Ok(v) => Ok(v@),
                    Err(e) => Err(e@),
                },
            ),
            Next::Abort(m) => NextView::Abort(m@),
        }
    }
}

/// A `Git` effect without input.
pub open spec fn git_effect(cwd: Seq<char>, args: Seq<Seq<char>>) -> EffectView {
    EffectView::Git { cwd, args, input: None }
}

/// The `Git` effect of running `git` with `args` in `cwd`.
pub fn run_git(cwd: String, args: Vec<String>) -> (e: Effect)
    ensures
        e@ == git_effect(cwd@, string_views(args@)),
{
    Effect::Git { cwd, args, input: None }
}

/// Two arguments.
pub fn args2(a: &str, b: &str) -> (v: Vec<String>)
    ensures
        string_views(v@) == seq![a@, b@],
{
    let mut v: Vec<String> = Vec::new();
    v.push(String::from_str(a));
    v.push(String::from_str(b));
    proof {
        assert(string_views(v@) =~= seq![a@, b@]);
    }
    v
}

/// Three arguments.
pub fn args3(a: &str, b: &str, c: &str) -> (v: Vec<String>)
    ensures
        string_views(v@) == seq![a@, b@, c@],
{
    let mut v = args2(a, b);
    let s = String::from_str(c);
    v.push(s);
    proof {
        assert(string_views(v@) == string_views(v@.drop_last()).push(c@));
        assert(seq![a@, b@].push(c@) =~= seq![a@, b@, c@]);
    }
    v
}

/// Four arguments.
pub fn args4(a: &str, b: &str, c: &str, d: &str) -> (v: Vec<String>)
    ensures
        string_views(v@) == seq![a@, b@, c@, d@],
{
    let mut v = args3(a, b, c);
    let s = String::from_str(d);
    v.push(s);
    proof {
        assert(string_views(v@) == string_views(v@.drop_last()).push(d@));
        assert(seq![a@, b@, c@].push(d@) =~= seq![a@, b@, c@, d@]);
    }
    v
}

/// Five arguments.
pub fn args5(a: &str, b: &str, c: &str, d: &str, e: &str) -> (v: Vec<String>)
    ensures
        string_views(v@) == seq![a@, b@, c@, d@, e@],
{
    let mut v = args4(a, b, c, d);
    let s = String::from_str(e);
    v.push(s);
    proof {
        assert(string_views(v@) == string_views(v@.drop_last()).push(e@));
        assert(seq![a@, b@, c@, d@].push(e@) =~= seq![a@, b@, c@, d@, e@]);
    }
    v
}

} // verus!
