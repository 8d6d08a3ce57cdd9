//! What can go wrong, and the text that reports it.
use vstd::prelude::*;

verus! {

/// A failure of one of the tool's operations.
#[derive(Debug)]
pub enum WtError {
    /// No `git` program was found on `PATH`.
    GitNotFound,
    /// Git ran and failed; `stderr` is what it wrote to its error stream,
    /// decoded and trimmed.
    GitFailed { stderr: String },
    /// An operating-system error, as its own text.
    Io { detail: String },
    /// `--include-dirty` was asked for but `base` is not the checkout's `HEAD`.
    DirtyBaseMismatch { base: String, head: String, base_commit: String },
    /// An untracked entry is a directory (such as a nested repository).
    UntrackedDirectory { rel: String },
    /// Git reported an absolute untracked path.
    AbsoluteUntracked { raw: String },
    /// Git reported an untracked path that leaves or does not name a place
    /// below the repository.
    UnsafeUntracked { raw: String },
    /// The repository root has no last component to name the worktree after.
    NoRepositoryName { repo: String },
    /// A directory on the way to a copied file is a symbolic link.
    SymlinkAncestor { path: String },
    /// A path on the way to a copied file exists and is not a directory.
    AncestorNotDirectory { path: String },
    /// The place of a copied file is already taken.
    WouldOverwrite { path: String },
    /// `cause`, reported while doing what `context` says.
    Context { context: String, cause: Box<WtError> },
}

/// The content of a `WtError`, with its texts as character sequences.
pub enum Failure {
    GitNotFound,
    GitFailed { stderr: Seq<char> },
    Io { detail: Seq<char> },
    DirtyBaseMismatch { base: Seq<char>, head: Seq<char>, base_commit: Seq<char> },
    UntrackedDirectory { rel: Seq<char> },
    AbsoluteUntracked { raw: Seq<char> },
    UnsafeUntracked { raw: Seq<char> },
    NoRepositoryName { repo: Seq<char> },
    SymlinkAncestor { path: Seq<char> },
    AncestorNotDirectory { path: Seq<char> },
    WouldOverwrite { path: Seq<char> },
    Context { context: Seq<char>, cause: Box<Failure> },
}

impl View for WtError {
    type V = Failure;

    open spec fn view(&self) -> Failure
        decreases self,
    {
        match self {
            WtError::GitNotFound => Failure::GitNotFound,
            WtError::GitFailed { stderr } => Failure::GitFailed { stderr: stderr@ },
            WtError::Io { detail } => Failure::Io { detail: detail@ },
            WtError::DirtyBaseMismatch { base, head, base_commit } => Failure::DirtyBaseMismatch {
                base: base@,
                head: head@,
                base_commit: base_commit@,
            },
            WtError::UntrackedDirectory { rel } => Failure::UntrackedDirectory { rel: rel@ },
            WtError::AbsoluteUntracked { raw } => Failure::AbsoluteUntracked { raw: raw@ },
            WtError::UnsafeUntracked { raw } => Failure::UnsafeUntracked { raw: raw@ },
            WtError::NoRepositoryName { repo } => Failure::NoRepositoryName { repo: repo@ },
            WtError::SymlinkAncestor { path } => Failure::SymlinkAncestor { path: path@ },
            WtError::AncestorNotDirectory { path } => Failure::AncestorNotDirectory { path: path@ },
            WtError::WouldOverwrite { path } => Failure::WouldOverwrite { path: path@ },
            WtError::Context { context, cause } => Failure::Context {
                context: context@,
                cause: Box::new((**cause).view()),
            },
        }
    }
}

/// The text that reports `f`: contexts come first, each followed by `: ` and
/// the text of its cause.
pub open spec fn spec_message(f: Failure) -> Seq<char>
    decreases f,
{
    match f {
        Failure::GitNotFound => "git was not found on PATH"@,
        Failure::GitFailed { stderr } => "git failed: "@ + stderr,
        Failure::Io { detail } => detail,
        Failure::DirtyBaseMismatch { base, head, base_commit } =>
            "--include-dirty requires --base to resolve to the source checkout HEAD; HEAD is "@
                + head + ", but "@ + base + " resolves to "@ + base_commit,
        Failure::UntrackedDirectory { rel } => "refusing unsupported untracked directory entry: "@
            + rel + "; nested Git repositories are not copied"@,
        Failure::AbsoluteUntracked { raw } => "refusing absolute untracked path: "@ + raw,
        Failure::UnsafeUntracked { raw } => "refusing unsafe untracked path: "@ + raw,
        Failure::NoRepositoryName { repo } => "could not infer repository directory name from "@
            + repo,
        Failure::SymlinkAncestor { path } => "refusing symlink destination ancestor: "@ + path,
        Failure::AncestorNotDirectory { path } => "destination ancestor is not a directory: "@
            + path,
        Failure::WouldOverwrite { path } => "refusing to overwrite existing path: "@ + path,
        Failure::Context { context, cause } => context + ": "@ + spec_message(*cause),
    }
}

/// `a` followed by `b`.
pub fn concat(a: &str, b: &str) -> (s: String)
    ensures
        s@ == a@ + b@,
{
    let mut s = String::from_str(a);
    s.append(b);
    s
}

/// `e` reported while doing what `context` says.
pub fn with_context(context: String, e: WtError) -> (r: WtError)
    ensures
        r@ == (Failure::Context { context: context@, cause: Box::new(e@) }),
{
    WtError::Context { context, cause: Box::new(e) }
}

impl WtError {
    /// The text that reports this failure.
    pub fn message(&self) -> (m: String)
        ensures
            m@ == spec_message(self@),
        decreases self,
    {
        match self {
            WtError::GitNotFound => String::from_str("git was not found on PATH"),
            WtError::GitFailed { stderr } => concat("git failed: ", stderr.as_str()),
            WtError::Io { detail } => detail.clone(),
            WtError::DirtyBaseMismatch { base, head, base_commit } => {
                let mut m = String::from_str(
                    "--include-dirty requires --base to resolve to the source checkout HEAD; HEAD is ",
                );
                m.append(head.as_str());
                m.append(", but ");
                m.append(base.as_str());
                m.append(" resolves to ");
                m.append(base_commit.as_str());
                m
            },
            WtError::UntrackedDirectory { rel } => {
                let mut m = String::from_str("refusing unsupported untracked directory entry: ");
                m.append(rel.as_str());
                m.append("; nested Git repositories are not copied");
                m
            },
            WtError::AbsoluteUntracked { raw } => concat(
                "refusing absolute untracked path: ",
                raw.as_str(),
            ),
            WtError::UnsafeUntracked { raw } => concat(
                "refusing unsafe untracked path: ",
                raw.as_str(),
            ),
            WtError::NoRepositoryName { repo } => concat(
                "could not infer repository directory name from ",
                repo.as_str(),
            ),
            WtError::SymlinkAncestor { path } => concat(
                "refusing symlink destination ancestor: ",
                path.as_str(),
            ),
            WtError::AncestorNotDirectory { path } => concat(
                "destination ancestor is not a directory: ",
                path.as_str(),
            ),
            WtError::WouldOverwrite { path } => concat(
                "refusing to overwrite existing path: ",
                path.as_str(),
            ),
            WtError::Context { context, cause } => {
                let mut m = context.clone();
                m.append(": ");
                let inner = cause.message();
                m.append(inner.as_str());
                m
            },
        }
    }
}

} // verus!
