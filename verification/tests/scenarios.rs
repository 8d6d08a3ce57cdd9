use codex_wt::create::{create, CreateOptions, CreateResult};
use codex_wt::effects::{Effect, EntryProbe, GitRun, Next, Observation, Removal};
use codex_wt::error::WtError;
use codex_wt::inspect::inspect;
use codex_wt::list::list;
use codex_wt::setup::{doctor, program_candidates, DoctorProbes};

const REPO: &str = "/tmp/fixture/repo";
const CODEX_HOME: &str = "/tmp/codex home";

fn ok_git(out: &str) -> Observation {
    Observation::Git(GitRun::Finished {
        success: true,
        stdout: out.as_bytes().to_vec(),
        stderr: Vec::new(),
    })
}

fn options(base: &str, slug: &str, dirty: bool, untracked: bool) -> CreateOptions {
    CreateOptions {
        repo: REPO.to_string(),
        base: base.to_string(),
        slug: Some(slug.to_string()),
        include_dirty: dirty,
        include_untracked: untracked,
    }
}

/// Runs a `create` against a repository whose checkout is at a commit that
/// every revision resolves to, with `patch` as its tracked changes and
/// `untracked` as Git's list of untracked files; the new worktree is
/// detached. Returns every effect asked for, in order, and the outcome.
fn drive(opts: CreateOptions, patch: &str, untracked: &str) -> (Vec<Effect>, Result<CreateResult, WtError>) {
    drive_on(&mut Vec::new(), opts, patch, untracked)
}

/// `drive`, where `disk` lists the paths that exist; the directories made and
/// the files copied are added to it, and a new worktree's path too.
fn drive_on(
    disk: &mut Vec<String>,
    opts: CreateOptions,
    patch: &str,
    untracked: &str,
) -> (Vec<Effect>, Result<CreateResult, WtError>) {
    let (mut run, mut effect) = create(opts, CODEX_HOME.to_string());
    let mut asked = Vec::new();
    loop {
        let obs = match &effect {
            Effect::FindGit => Observation::GitFound(true),
            Effect::Git { args, .. } if args[0] == "worktree" && args[1] == "add" => {
                disk.push(args[3].clone());
                ok_git("")
            }
            Effect::Git { args, .. } => match (args[0].as_str(), args[1].as_str()) {
                ("rev-parse", "--show-toplevel") => ok_git(&format!("{REPO}\n")),
                ("rev-parse", "--verify") => ok_git("c0ffee1234567\n"),
                ("rev-parse", "HEAD") => ok_git("c0ffee1234567\n"),
                ("ls-files", _) => ok_git(untracked),
                ("diff", _) => ok_git(patch),
                _ => ok_git(""),
            },
            Effect::CreateDirAll { path } | Effect::CreateDir { path } => {
                disk.push(path.clone());
                Observation::Done(Ok(()))
            }
            Effect::Copy { destination, .. } => {
                disk.push(destination.clone());
                Observation::Done(Ok(()))
            }
            Effect::RemoveDir { .. } => Observation::Removed(Removal::Removed),
            Effect::Exists { path } => Observation::Exists(disk.contains(path)),
            Effect::Inspect { path } if path.starts_with(REPO) => Observation::Entry(EntryProbe::Other),
            Effect::Inspect { .. } => Observation::Entry(EntryProbe::Missing(String::new())),
            Effect::MakeSeed { .. } => Observation::Seed(1),
        };
        assert!(run.awaits(&obs));
        let next = run.step(obs);
        asked.push(effect);
        match next {
            Next::Run(e) => effect = e,
            Next::Finish(r) => return (asked, r),
            Next::Abort(m) => panic!("aborted: {m}"),
        }
    }
}

fn git_commands(asked: &[Effect]) -> Vec<Vec<String>> {
    asked
        .iter()
        .filter_map(|e| match e {
            Effect::Git { args, .. } => Some(args.clone()),
            _ => None,
        })
        .collect()
}

#[test]
fn creates_clean_detached_worktree() {
    let (asked, r) = drive(options("HEAD", "clean-one", false, false), "", "");
    let r = r.unwrap();
    assert_eq!(r.path, format!("{CODEX_HOME}/worktrees/clean-one/repo"));
    assert!(r.detached);
    assert!(!r.dirty_applied);
    let commands = git_commands(&asked);
    assert!(commands.contains(&vec![
        "worktree".to_string(),
        "add".to_string(),
        "--detach".to_string(),
        r.path.clone(),
        "HEAD".to_string(),
    ]));
    assert!(commands.iter().all(|c| c[0] != "diff" && c[0] != "apply" && c[0] != "switch"));
}

#[test]
fn applies_dirty_changes_only_when_requested() {
    let patch = "diff --git a/tracked.txt b/tracked.txt\n-clean\n+dirty\n";
    let (asked, clean) = drive(options("HEAD", "no-dirty", false, false), patch, "");
    let clean = clean.unwrap();
    assert!(!clean.dirty_applied);
    assert!(git_commands(&asked).iter().all(|c| c[0] != "diff" && c[0] != "apply"));

    let (asked, dirty) = drive(options("HEAD", "with-dirty", true, false), patch, "");
    let dirty = dirty.unwrap();
    assert!(dirty.dirty_applied);
    let applied = asked.iter().any(|e| match e {
        Effect::Git { cwd, args, input } => {
            args[0] == "apply" && cwd == &dirty.path && input.as_deref() == Some(patch.as_bytes())
        }
        _ => false,
    });
    assert!(applied);
}

#[test]
fn copies_untracked_files_only_when_requested() {
    let listing = "notes/untracked.txt\0";
    let (asked, clean) = drive(options("HEAD", "no-untracked", false, false), "", listing);
    let clean = clean.unwrap();
    assert!(!clean.untracked_applied);
    assert!(asked.iter().all(|e| !matches!(e, Effect::Copy { .. })));

    let (asked, copied) = drive(options("HEAD", "with-untracked", false, true), "", listing);
    let copied = copied.unwrap();
    assert!(copied.untracked_applied);
    assert_eq!(copied.untracked_count, 1);
    let copies: Vec<(String, String)> = asked
        .iter()
        .filter_map(|e| match e {
            Effect::Copy { source, destination } => Some((source.clone(), destination.clone())),
            _ => None,
        })
        .collect();
    assert_eq!(
        copies,
        vec![(
            format!("{REPO}/notes/untracked.txt"),
            format!("{}/notes/untracked.txt", copied.path)
        )]
    );
}

#[test]
fn creates_from_named_branch_and_reports_list_and_inspect_json() {
    let (asked, created) = drive(options("feature/test", "branch-test", false, false), "", "");
    let created = created.unwrap();
    assert!(created.detached);
    assert_eq!(created.base_ref, "feature/test");
    assert!(git_commands(&asked)
        .iter()
        .any(|c| c[0] == "worktree" && c[1] == "add" && c[4] == "feature/test"));

    let (mut run, _) = list(REPO.to_string());
    run.step(Observation::GitFound(true));
    run.step(ok_git(&format!("{REPO}\n")));
    let porcelain = format!(
        "worktree {REPO}\nHEAD c0ffee1234567\nbranch refs/heads/feature/test\n\nworktree {}\nHEAD c0ffee1234567\ndetached\n",
        created.path
    );
    match run.step(ok_git(&porcelain)) {
        Next::Finish(Ok(listed)) => assert!(listed.worktrees.len() >= 2),
        other => panic!("unexpected {:?}", other),
    }

    let (mut run, _) = inspect(created.path.clone());
    run.step(Observation::GitFound(true));
    run.step(ok_git(&format!("{}\n", created.path)));
    run.step(ok_git("c0ffee1234567\n"));
    run.step(ok_git("\n"));
    run.step(ok_git(&format!("{REPO}/.git/worktrees/repo\n")));
    run.step(ok_git(&format!("{REPO}/.git\n")));
    match run.step(ok_git("## HEAD (no branch)\n")) {
        Next::Finish(Ok(inspected)) => {
            assert!(inspected.detached);
            assert!(inspected.head.len() >= 7);
            assert!(inspected.status[0].starts_with("## HEAD (no branch)"));
        }
        other => panic!("unexpected {:?}", other),
    }
}

#[test]
fn doctor_reports_setup_as_json() {
    let path_var = Some("/usr/local/bin:/usr/bin:/bin".to_string());
    assert_eq!(
        program_candidates(path_var.clone(), "git"),
        vec!["/usr/local/bin/git", "/usr/bin/git", "/bin/git"]
    );
    let probes = DoctorProbes {
        git_is_file: vec![false, true, true],
        git_version: Some(GitRun::Finished {
            success: true,
            stdout: b"git version 2.43.0\n".to_vec(),
            stderr: Vec::new(),
        }),
        worktrees_dir_exists: false,
        worktrees_parent_is_dir: true,
        install_dir_exists: false,
    };
    let report = doctor(
        Some(CODEX_HOME.to_string()),
        Some("/home/me".to_string()),
        path_var,
        probes,
    );
    assert!(report.ok);
    assert_eq!(report.git_path.as_deref(), Some("/usr/bin/git"));
    assert!(report.git_version.as_deref().unwrap().starts_with("git version"));
    assert_eq!(report.codex_home, CODEX_HOME);
    assert_eq!(report.worktrees_dir, format!("{CODEX_HOME}/worktrees"));
    assert!(report.worktrees_parent_exists);
    assert_eq!(report.install_dir, "/home/me/.local/bin");
    assert!(!report.install_dir_on_path);
}

#[test]
fn doctor_without_git_is_still_a_successful_report() {
    let probes = DoctorProbes {
        git_is_file: vec![false],
        git_version: Some(GitRun::Finished {
            success: true,
            stdout: b"git version 9\n".to_vec(),
            stderr: Vec::new(),
        }),
        worktrees_dir_exists: true,
        worktrees_parent_is_dir: true,
        install_dir_exists: true,
    };
    let report = doctor(None, None, Some("/home/me/.local/bin".to_string()), probes);
    assert!(report.ok);
    assert_eq!(report.git_path, None);
    assert_eq!(report.git_version, None);
    assert_eq!(report.codex_home, ".codex");
    assert_eq!(report.worktrees_dir, ".codex/worktrees");
    assert_eq!(report.install_dir, "./.local/bin");
    assert!(!report.install_dir_on_path);
}

#[test]
fn creating_twice_with_one_slug_takes_the_next_free_path() {
    let mut disk = Vec::new();
    let (_, first) = drive_on(&mut disk, options("HEAD", "clean-one", false, false), "", "");
    let first = first.unwrap();
    assert_eq!(first.path, format!("{CODEX_HOME}/worktrees/clean-one/repo"));
    let (asked, second) = drive_on(&mut disk, options("HEAD", "clean-one", false, false), "", "");
    let second = second.unwrap();
    assert_eq!(second.path, format!("{CODEX_HOME}/worktrees/clean-one-1/repo"));
    assert!(asked.iter().all(|e| match e {
        Effect::CreateDirAll { path } | Effect::CreateDir { path } | Effect::RemoveDir { path } => {
            !first.path.starts_with(path.as_str()) || path == &format!("{CODEX_HOME}/worktrees")
        }
        _ => true,
    }));
}
