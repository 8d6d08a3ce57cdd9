use codex_wt::create::{create, CreateOptions, CreateResult, CreateRun};
use codex_wt::effects::{Effect, EntryProbe, GitRun, GitStage, Next, Observation, Removal};
use codex_wt::inspect::inspect;
use codex_wt::list::list;

fn ok_git(out: &str) -> Observation {
    Observation::Git(GitRun::Finished {
        success: true,
        stdout: out.as_bytes().to_vec(),
        stderr: Vec::new(),
    })
}

fn failed_git(err: &str) -> Observation {
    Observation::Git(GitRun::Finished {
        success: false,
        stdout: Vec::new(),
        stderr: err.as_bytes().to_vec(),
    })
}

fn git_of(next: &Next<CreateResult>) -> (String, Vec<String>, Option<Vec<u8>>) {
    match next {
        Next::Run(Effect::Git { cwd, args, input }) => (cwd.clone(), args.clone(), input.clone()),
        other => panic!("expected a Git effect, got {:?}", other),
    }
}

fn feed(run: &mut CreateRun, obs: Observation) -> Next<CreateResult> {
    assert!(run.awaits(&obs));
    run.step(obs)
}

fn options(slug: Option<&str>, dirty: bool, untracked: bool) -> CreateOptions {
    CreateOptions {
        repo: "/src/repo/sub".to_string(),
        base: "HEAD".to_string(),
        slug: slug.map(|s| s.to_string()),
        include_dirty: dirty,
        include_untracked: untracked,
    }
}

/// Drives a plain create up to the `worktree add`, returning the run.
fn up_to_add(opts: CreateOptions, untracked: &str) -> (CreateRun, Next<CreateResult>) {
    let checks = opts.include_untracked;
    let (mut run, first) = create(opts, "/home/me/.codex".to_string());
    assert!(matches!(first, Effect::FindGit));
    let next = feed(&mut run, Observation::GitFound(true));
    let (cwd, args, _) = git_of(&next);
    assert_eq!(cwd, "/src/repo/sub");
    assert_eq!(args, ["rev-parse", "--show-toplevel"]);
    let mut next = feed(&mut run, ok_git("/src/repo\n"));
    if checks {
        let (cwd, args, _) = git_of(&next);
        assert_eq!(cwd, "/src/repo");
        assert_eq!(args, ["ls-files", "--others", "--exclude-standard", "-z"]);
        next = feed(&mut run, ok_git(untracked));
        for entry in untracked.split('\0').filter(|e| !e.is_empty()) {
            match &next {
                Next::Run(Effect::Inspect { path }) => {
                    assert_eq!(path, &format!("/src/repo/{entry}"))
                }
                other => panic!("unexpected {:?}", other),
            }
            next = feed(&mut run, Observation::Entry(EntryProbe::Other));
        }
    }
    match &next {
        Next::Run(Effect::CreateDirAll { path }) => assert_eq!(path, "/home/me/.codex/worktrees"),
        other => panic!("unexpected {:?}", other),
    }
    let next = feed(&mut run, Observation::Done(Ok(())));
    match &next {
        Next::Run(Effect::Exists { path }) => {
            assert_eq!(path, "/home/me/.codex/worktrees/clean-one/repo")
        }
        other => panic!("unexpected {:?}", other),
    }
    let next = feed(&mut run, Observation::Exists(true));
    match &next {
        Next::Run(Effect::Exists { path }) => {
            assert_eq!(path, "/home/me/.codex/worktrees/clean-one-1/repo")
        }
        other => panic!("unexpected {:?}", other),
    }
    let next = feed(&mut run, Observation::Exists(false));
    match &next {
        Next::Run(Effect::CreateDirAll { path }) => {
            assert_eq!(path, "/home/me/.codex/worktrees/clean-one-1")
        }
        other => panic!("unexpected {:?}", other),
    }
    let next = feed(&mut run, Observation::Done(Ok(())));
    let (cwd, args, _) = git_of(&next);
    assert_eq!(cwd, "/src/repo");
    assert_eq!(
        args,
        ["worktree", "add", "--detach", "/home/me/.codex/worktrees/clean-one-1/repo", "HEAD"]
    );
    (run, next)
}

#[test]
fn create_runs_a_clean_detached_worktree() {
    let (mut run, _) = up_to_add(options(Some("Clean One"), false, false), "");
    let next = feed(&mut run, ok_git(""));
    let (cwd, args, _) = git_of(&next);
    assert_eq!(cwd, "/home/me/.codex/worktrees/clean-one-1/repo");
    assert_eq!(args, ["rev-parse", "HEAD"]);
    let next = feed(&mut run, ok_git("abc123\n"));
    let (_, args, _) = git_of(&next);
    assert_eq!(args, ["branch", "--show-current"]);
    match feed(&mut run, ok_git("\n")) {
        Next::Finish(Ok(r)) => {
            assert!(r.ok);
            assert!(r.detached);
            assert_eq!(r.head, "abc123");
            assert_eq!(r.repo, "/src/repo");
            assert_eq!(r.base_ref, "HEAD");
            assert!(!r.dirty_applied);
            assert!(!r.untracked_applied);
            assert_eq!(r.untracked_count, 0);
        }
        other => panic!("unexpected {:?}", other),
    }
}

#[test]
fn create_without_git_fails() {
    let (mut run, _) = create(options(None, false, false), "/h".to_string());
    match feed(&mut run, Observation::GitFound(false)) {
        Next::Finish(Err(e)) => assert_eq!(e.message(), "git was not found on PATH"),
        other => panic!("unexpected {:?}", other),
    }
}

#[test]
fn create_outside_a_repository_reports_the_path() {
    let (mut run, _) = create(options(None, false, false), "/h".to_string());
    feed(&mut run, Observation::GitFound(true));
    match feed(&mut run, failed_git("fatal: not a git repository\n")) {
        Next::Finish(Err(e)) => assert_eq!(
            e.message(),
            "resolve Git repository root from /src/repo/sub: git failed: fatal: not a git repository"
        ),
        other => panic!("unexpected {:?}", other),
    }
}

#[test]
fn create_names_a_worktree_from_a_seed() {
    let (mut run, _) = create(options(None, false, false), "/h".to_string());
    feed(&mut run, Observation::GitFound(true));
    feed(&mut run, ok_git("/src/repo"));
    match feed(&mut run, Observation::Done(Ok(()))) {
        Next::Run(Effect::MakeSeed { repo, base }) => {
            assert_eq!(repo, "/src/repo");
            assert_eq!(base, "HEAD");
        }
        other => panic!("unexpected {:?}", other),
    }
    match feed(&mut run, Observation::Seed(0x1234_0000_beef)) {
        Next::Run(Effect::Exists { path }) => assert_eq!(path, "/h/worktrees/0000beef/repo"),
        other => panic!("unexpected {:?}", other),
    }
}

#[test]
fn create_refuses_dirty_changes_on_another_base() {
    let mut opts = options(None, true, false);
    opts.base = "main".to_string();
    let (mut run, _) = create(opts, "/h".to_string());
    feed(&mut run, Observation::GitFound(true));
    let next = feed(&mut run, ok_git("/src/repo"));
    let (_, args, _) = git_of(&next);
    assert_eq!(args, ["rev-parse", "--verify", "HEAD^{commit}"]);
    let next = feed(&mut run, ok_git("aaa\n"));
    let (_, args, _) = git_of(&next);
    assert_eq!(args, ["rev-parse", "--verify", "main^{commit}"]);
    match feed(&mut run, ok_git("bbb\n")) {
        Next::Finish(Err(e)) => assert_eq!(
            e.message(),
            "--include-dirty requires --base to resolve to the source checkout HEAD; HEAD is aaa, but main resolves to bbb"
        ),
        other => panic!("unexpected {:?}", other),
    }
}

#[test]
fn create_applies_dirty_changes_and_cleans_up_on_failure() {
    let (mut run, _) = create(options(Some("clean-one"), true, false), "/home/me/.codex".to_string());
    feed(&mut run, Observation::GitFound(true));
    feed(&mut run, ok_git("/src/repo"));
    feed(&mut run, ok_git("aaa"));
    let next = feed(&mut run, ok_git("aaa"));
    assert!(matches!(next, Next::Run(Effect::CreateDirAll { .. })));
    feed(&mut run, Observation::Done(Ok(())));
    feed(&mut run, Observation::Exists(false));
    feed(&mut run, Observation::Done(Ok(())));
    let next = feed(&mut run, ok_git(""));
    let (cwd, args, _) = git_of(&next);
    assert_eq!(cwd, "/src/repo");
    assert_eq!(args, ["diff", "HEAD", "--binary"]);
    let next = feed(&mut run, ok_git("PATCH"));
    let (cwd, args, input) = git_of(&next);
    assert_eq!(cwd, "/home/me/.codex/worktrees/clean-one/repo");
    assert_eq!(args, ["apply", "--binary", "--whitespace=nowarn"]);
    assert_eq!(input, Some(b"PATCH".to_vec()));
    let next = feed(&mut run, failed_git("error: patch failed"));
    let (_, args, _) = git_of(&next);
    assert_eq!(
        args,
        ["worktree", "remove", "--force", "/home/me/.codex/worktrees/clean-one/repo"]
    );
    match feed(&mut run, ok_git("")) {
        Next::Run(Effect::RemoveDir { path }) => {
            assert_eq!(path, "/home/me/.codex/worktrees/clean-one")
        }
        other => panic!("unexpected {:?}", other),
    }
    match feed(&mut run, Observation::Removed(Removal::NotEmpty)) {
        Next::Finish(Err(e)) => assert_eq!(
            e.message(),
            "apply tracked dirty changes to worktree: git failed: error: patch failed"
        ),
        other => panic!("unexpected {:?}", other),
    }
}

#[test]
fn create_reports_a_failed_clean_up() {
    let (mut run, _) = up_to_add(options(Some("clean-one"), false, true), "");
    let next = feed(&mut run, ok_git(""));
    let (_, args, _) = git_of(&next);
    assert_eq!(args, ["ls-files", "--others", "--exclude-standard", "-z"]);
    let next = feed(&mut run, ok_git("../escape\0"));
    assert!(matches!(next, Next::Run(Effect::Git { .. })));
    match feed(
        &mut run,
        Observation::Git(GitRun::Failed { stage: GitStage::Spawn, detail: "no such file".to_string() }),
    ) {
        Next::Finish(Err(e)) => assert_eq!(
            e.message(),
            "failed to clean up /home/me/.codex/worktrees/clean-one-1/repo after create error: remove failed worktree /home/me/.codex/worktrees/clean-one-1/repo: run git: no such file: refusing unsafe untracked path: ../escape"
        ),
        other => panic!("unexpected {:?}", other),
    }
}

#[test]
fn create_copies_untracked_files_inside_the_worktree() {
    let (mut run, _) = up_to_add(
        options(Some("clean-one"), false, true),
        "notes/deep/untracked.txt\0top.txt\0",
    );
    feed(&mut run, ok_git(""));
    let wt = "/home/me/.codex/worktrees/clean-one-1/repo";
    match feed(&mut run, ok_git("notes/deep/untracked.txt\0top.txt\0")) {
        Next::Run(Effect::Inspect { path }) => assert_eq!(path, format!("{wt}/notes")),
        other => panic!("unexpected {:?}", other),
    }
    match feed(&mut run, Observation::Entry(EntryProbe::Missing(String::new()))) {
        Next::Run(Effect::CreateDir { path }) => assert_eq!(path, format!("{wt}/notes")),
        other => panic!("unexpected {:?}", other),
    }
    match feed(&mut run, Observation::Done(Ok(()))) {
        Next::Run(Effect::Inspect { path }) => assert_eq!(path, format!("{wt}/notes/deep")),
        other => panic!("unexpected {:?}", other),
    }
    match feed(&mut run, Observation::Entry(EntryProbe::Directory)) {
        Next::Run(Effect::Inspect { path }) => {
            assert_eq!(path, format!("{wt}/notes/deep/untracked.txt"))
        }
        other => panic!("unexpected {:?}", other),
    }
    match feed(&mut run, Observation::Entry(EntryProbe::Missing(String::new()))) {
        Next::Run(Effect::Copy { source, destination }) => {
            assert_eq!(source, "/src/repo/notes/deep/untracked.txt");
            assert_eq!(destination, format!("{wt}/notes/deep/untracked.txt"));
        }
        other => panic!("unexpected {:?}", other),
    }
    match feed(&mut run, Observation::Done(Ok(()))) {
        Next::Run(Effect::Inspect { path }) => assert_eq!(path, format!("{wt}/top.txt")),
        other => panic!("unexpected {:?}", other),
    }
    match feed(&mut run, Observation::Entry(EntryProbe::Symlink)) {
        Next::Run(Effect::Git { args, .. }) => assert_eq!(args[1], "remove"),
        other => panic!("unexpected {:?}", other),
    }
    feed(&mut run, ok_git(""));
    match feed(&mut run, Observation::Removed(Removal::Failed("busy".to_string()))) {
        Next::Finish(Err(e)) => assert_eq!(
            e.message(),
            format!("failed to clean up {wt} after create error: remove /home/me/.codex/worktrees/clean-one-1: busy: refusing to overwrite existing path: {wt}/top.txt")
        ),
        other => panic!("unexpected {:?}", other),
    }
}

#[test]
fn create_counts_copied_files() {
    let (mut run, _) = up_to_add(options(Some("clean-one"), false, true), "a.txt\0");
    feed(&mut run, ok_git(""));
    feed(&mut run, ok_git("a.txt\0"));
    feed(&mut run, Observation::Entry(EntryProbe::Missing(String::new())));
    let next = feed(&mut run, Observation::Done(Ok(())));
    let (_, args, _) = git_of(&next);
    assert_eq!(args, ["rev-parse", "HEAD"]);
    feed(&mut run, ok_git("abc"));
    match feed(&mut run, ok_git("feature")) {
        Next::Finish(Ok(r)) => {
            assert!(!r.detached);
            assert!(r.untracked_applied);
            assert_eq!(r.untracked_count, 1);
        }
        other => panic!("unexpected {:?}", other),
    }
}

#[test]
fn create_refuses_untracked_directories() {
    let (mut run, _) = create(options(None, false, true), "/h".to_string());
    feed(&mut run, Observation::GitFound(true));
    feed(&mut run, ok_git("/src/repo"));
    match feed(&mut run, ok_git("nested\0")) {
        Next::Run(Effect::Inspect { path }) => assert_eq!(path, "/src/repo/nested"),
        other => panic!("unexpected {:?}", other),
    }
    match feed(&mut run, Observation::Entry(EntryProbe::Directory)) {
        Next::Finish(Err(e)) => assert_eq!(
            e.message(),
            "refusing unsupported untracked directory entry: nested; nested Git repositories are not copied"
        ),
        other => panic!("unexpected {:?}", other),
    }
}

#[test]
fn create_removes_the_id_directory_when_add_fails() {
    let (mut run, _) = up_to_add(options(Some("clean-one"), false, false), "");
    match feed(&mut run, failed_git("fatal: invalid reference")) {
        Next::Run(Effect::RemoveDir { path }) => {
            assert_eq!(path, "/home/me/.codex/worktrees/clean-one-1")
        }
        other => panic!("unexpected {:?}", other),
    }
    match feed(&mut run, Observation::Removed(Removal::Removed)) {
        Next::Finish(Err(e)) => assert_eq!(e.message(), "git failed: fatal: invalid reference"),
        other => panic!("unexpected {:?}", other),
    }
}

#[test]
fn create_gives_up_after_the_last_candidate() {
    let (mut run, _) = create(options(Some("x"), false, false), "/h".to_string());
    feed(&mut run, Observation::GitFound(true));
    feed(&mut run, ok_git("/src/repo"));
    feed(&mut run, Observation::Done(Ok(())));
    let mut last = Next::Abort(String::new());
    for _ in 0..1000 {
        last = feed(&mut run, Observation::Exists(true));
    }
    match last {
        Next::Abort(m) => assert_eq!(m, "could not find unique worktree path for x"),
        other => panic!("unexpected {:?}", other),
    }
}

#[test]
fn list_reads_the_porcelain_of_the_root() {
    let (mut run, first) = list("/src/repo/sub".to_string());
    assert!(matches!(first, Effect::FindGit));
    run.step(Observation::GitFound(true));
    let next = run.step(ok_git("/src/repo\n"));
    match &next {
        Next::Run(Effect::Git { cwd, args, .. }) => {
            assert_eq!(cwd, "/src/repo");
            assert_eq!(args, &["worktree", "list", "--porcelain"]);
        }
        other => panic!("unexpected {:?}", other),
    }
    match run.step(ok_git("worktree /src/repo\nHEAD abc\nbranch refs/heads/main\n\n")) {
        Next::Finish(Ok(l)) => {
            assert!(l.ok);
            assert_eq!(l.repo, "/src/repo");
            assert_eq!(l.worktrees.len(), 1);
            assert_eq!(l.worktrees[0].branch.as_deref(), Some("main"));
        }
        other => panic!("unexpected {:?}", other),
    }
}

#[test]
fn inspect_reports_paths_and_status() {
    let (mut run, _) = inspect("/wt/repo".to_string());
    run.step(Observation::GitFound(true));
    run.step(ok_git("/wt/repo\n"));
    run.step(ok_git("abcdef1234\n"));
    run.step(ok_git(""));
    run.step(ok_git("/src/repo/.git/worktrees/repo\n"));
    let next = run.step(ok_git("../../src/repo/.git\n"));
    match &next {
        Next::Run(Effect::Git { args, .. }) => assert_eq!(args, &["status", "--short", "--branch"]),
        other => panic!("unexpected {:?}", other),
    }
    match run.step(ok_git("## HEAD (no branch)\n?? x\n")) {
        Next::Finish(Ok(r)) => {
            assert!(r.ok);
            assert!(r.detached);
            assert_eq!(r.branch, None);
            assert_eq!(r.head, "abcdef1234");
            assert_eq!(r.git_dir, "/src/repo/.git/worktrees/repo");
            assert_eq!(r.source_gitdir, "/wt/repo/../../src/repo/.git");
            assert_eq!(r.status, vec!["## HEAD (no branch)".to_string(), "?? x".to_string()]);
        }
        other => panic!("unexpected {:?}", other),
    }
}

#[test]
fn create_writes_only_under_the_worktrees_directory() {
    let (mut run, first) = create(options(Some("All In"), true, true), "/home/me/.codex".to_string());
    let mut effect = first;
    let mut writes: Vec<String> = Vec::new();
    let result = loop {
        let obs = match &effect {
            Effect::FindGit => Observation::GitFound(true),
            Effect::Git { cwd, args, input } => {
                if input.is_some() {
                    writes.push(cwd.clone());
                }
                match args[0].as_str() {
                    "rev-parse" if args[1] == "--show-toplevel" => ok_git("/src/repo\n"),
                    "rev-parse" => ok_git("abc\n"),
                    "ls-files" => ok_git("docs/a.txt\0b.txt\0"),
                    "diff" => ok_git("PATCH"),
                    _ => ok_git(""),
                }
            }
            Effect::CreateDirAll { path } | Effect::CreateDir { path } => {
                writes.push(path.clone());
                Observation::Done(Ok(()))
            }
            Effect::RemoveDir { path } => {
                writes.push(path.clone());
                Observation::Removed(Removal::Removed)
            }
            Effect::Copy { destination, .. } => {
                writes.push(destination.clone());
                Observation::Done(Ok(()))
            }
            Effect::Exists { .. } => Observation::Exists(false),
            Effect::Inspect { path } if path.starts_with("/src/repo/") => {
                Observation::Entry(EntryProbe::Other)
            }
            Effect::Inspect { .. } => Observation::Entry(EntryProbe::Missing(String::new())),
            Effect::MakeSeed { .. } => Observation::Seed(7),
        };
        match feed(&mut run, obs) {
            Next::Run(e) => effect = e,
            Next::Finish(r) => break r,
            Next::Abort(m) => panic!("aborted: {m}"),
        }
    };
    let r = result.unwrap();
    assert_eq!(r.path, "/home/me/.codex/worktrees/all-in/repo");
    assert!(r.dirty_applied);
    assert_eq!(r.untracked_count, 2);
    assert_eq!(
        writes,
        vec![
            "/home/me/.codex/worktrees",
            "/home/me/.codex/worktrees/all-in",
            "/home/me/.codex/worktrees/all-in/repo",
            "/home/me/.codex/worktrees/all-in/repo/docs",
            "/home/me/.codex/worktrees/all-in/repo/docs/a.txt",
            "/home/me/.codex/worktrees/all-in/repo/b.txt",
        ]
    );
    assert!(writes.iter().all(|w| w.starts_with("/home/me/.codex/worktrees")));
}

#[test]
fn create_needs_a_repository_name() {
    let (mut run, _) = create(options(None, false, false), "/h".to_string());
    feed(&mut run, Observation::GitFound(true));
    match feed(&mut run, ok_git("/\n")) {
        Next::Finish(Err(e)) => {
            assert_eq!(e.message(), "could not infer repository directory name from /")
        }
        other => panic!("unexpected {:?}", other),
    }
}

/// Drives a create with one nested untracked file up to the check of its
/// first destination ancestor, and answers that check with `probe`.
fn ancestor_answered(probe: EntryProbe) -> (CreateRun, Next<CreateResult>) {
    let (mut run, _) = up_to_add(options(Some("clean-one"), false, true), "d/x.txt\0");
    feed(&mut run, ok_git(""));
    match feed(&mut run, ok_git("d/x.txt\0")) {
        Next::Run(Effect::Inspect { path }) => {
            assert_eq!(path, "/home/me/.codex/worktrees/clean-one-1/repo/d")
        }
        other => panic!("unexpected {:?}", other),
    }
    let next = feed(&mut run, Observation::Entry(probe));
    (run, next)
}

#[test]
fn create_refuses_a_symlink_on_the_way_to_a_copy() {
    let (mut run, next) = ancestor_answered(EntryProbe::Symlink);
    let (_, args, _) = git_of(&next);
    assert_eq!(args[..3], ["worktree", "remove", "--force"]);
    feed(&mut run, ok_git(""));
    match feed(&mut run, Observation::Removed(Removal::Removed)) {
        Next::Finish(Err(e)) => assert_eq!(
            e.message(),
            "refusing symlink destination ancestor: /home/me/.codex/worktrees/clean-one-1/repo/d"
        ),
        other => panic!("unexpected {:?}", other),
    }
}

#[test]
fn create_refuses_a_file_on_the_way_to_a_copy() {
    let (mut run, next) = ancestor_answered(EntryProbe::Other);
    let (_, args, _) = git_of(&next);
    assert_eq!(args[1], "remove");
    feed(&mut run, ok_git(""));
    match feed(&mut run, Observation::Removed(Removal::Missing)) {
        Next::Finish(Err(e)) => assert_eq!(
            e.message(),
            "destination ancestor is not a directory: /home/me/.codex/worktrees/clean-one-1/repo/d"
        ),
        other => panic!("unexpected {:?}", other),
    }
}

#[test]
fn create_cleans_up_when_reading_the_new_head_fails() {
    let (mut run, _) = up_to_add(options(Some("clean-one"), false, false), "");
    feed(&mut run, ok_git(""));
    let next = feed(&mut run, failed_git("fatal: bad HEAD"));
    let (cwd, args, _) = git_of(&next);
    assert_eq!(cwd, "/src/repo");
    assert_eq!(
        args,
        ["worktree", "remove", "--force", "/home/me/.codex/worktrees/clean-one-1/repo"]
    );
    match feed(&mut run, ok_git("")) {
        Next::Run(Effect::RemoveDir { path }) => {
            assert_eq!(path, "/home/me/.codex/worktrees/clean-one-1")
        }
        other => panic!("unexpected {:?}", other),
    }
    match feed(&mut run, Observation::Removed(Removal::Removed)) {
        Next::Finish(Err(e)) => assert_eq!(e.message(), "git failed: fatal: bad HEAD"),
        other => panic!("unexpected {:?}", other),
    }
}

#[test]
fn create_cleans_up_when_reading_the_new_branch_fails() {
    let (mut run, _) = up_to_add(options(Some("clean-one"), false, false), "");
    feed(&mut run, ok_git(""));
    feed(&mut run, ok_git("abc\n"));
    let next = feed(&mut run, failed_git("fatal: no branch"));
    let (_, args, _) = git_of(&next);
    assert_eq!(args[..3], ["worktree", "remove", "--force"]);
    feed(&mut run, ok_git(""));
    match feed(&mut run, Observation::Removed(Removal::NotEmpty)) {
        Next::Finish(Err(e)) => assert_eq!(e.message(), "git failed: fatal: no branch"),
        other => panic!("unexpected {:?}", other),
    }
}
