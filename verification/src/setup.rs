//! Where the tool keeps its worktrees, where Git is, and the report of
//! `doctor`.
use vstd::prelude::*;
use crate::path::{
    Comp, Part, components, dot, is_plain_name, join_names, lemma_join_components, normal_comps, components_of, join_path, parent, parts_view, spec_join, spec_parent,
    split_chars, split_on, views,
};
use crate::text::{chars_of, string_of};
use crate::untracked::{lemma_join_push, string_views};
use crate::effects::{GitRun, GitRunView, git_trimmed, spec_git_text};
use crate::worktrees::opt_view;

verus! {

/// `$CODEX_HOME` when it is set, otherwise `$HOME/.codex`, otherwise `.codex`.
pub open spec fn spec_codex_home(codex_home_var: Option<Seq<char>>, home: Option<Seq<char>>) -> Seq<
    char,
> {
    match codex_home_var {
        Some(v) => v,
        None => match home {
            Some(h) => spec_join(h, ".codex"@),
            None => ".codex"@,
        },
    }
}

/// The directory that holds the worktrees: `worktrees` under the Codex home.
pub open spec fn spec_worktrees_dir(codex_home: Seq<char>) -> Seq<char> {
    spec_join(codex_home, "worktrees"@)
}

/// Where the tool is meant to be installed: `.local/bin` under `$HOME`, or
/// under `.` when `HOME` is not set.
pub open spec fn spec_install_dir(home: Option<Seq<char>>) -> Seq<char> {
    let base = match home {
        Some(h) => h,
        None => "."@,
    };
    spec_join(spec_join(base, ".local"@), "bin"@)
}

/// The Codex home (see `spec_codex_home`), from the values of the
/// `CODEX_HOME` and `HOME` variables.
pub fn codex_home(codex_home_var: Option<String>, home: Option<String>) -> (p: String)
    ensures
        p@ == spec_codex_home(
            match codex_home_var {
                Some(v) => Some(v@),
                None => None,
            },
            match home {
                Some(h) => Some(h@),
                None => None,
            },
        ),
{
    match codex_home_var {
        Some(v) => v,
        None => match home {
            Some(h) => join_path(h.as_str(), ".codex"),
            None => String::from_str(".codex"),
        },
    }
}

/// The directory that holds the worktrees.
pub fn worktrees_dir(codex_home: &str) -> (p: String)
    ensures
        p@ == spec_worktrees_dir(codex_home@),
{
    join_path(codex_home, "worktrees")
}

/// The install directory (see `spec_install_dir`), from the value of `HOME`.
pub fn install_dir(home: Option<String>) -> (p: String)
    ensures
        p@ == spec_install_dir(
            match home {
                Some(h) => Some(h@),
                None => None,
            },
        ),
{
    let base = match home {
        Some(h) => h,
        None => String::from_str("."),
    };
    let local = join_path(base.as_str(), ".local");
    join_path(local.as_str(), "bin")
}

/// Where the tool's directories are: the Codex home is `$CODEX_HOME` when it
/// is set, otherwise the directory `.codex` inside `$HOME`, otherwise `.codex`
/// itself; the worktrees directory is `worktrees` inside the Codex home; the
/// install directory is `.local/bin` inside `$HOME` (inside `.` without it).
pub proof fn lemma_tool_directories(
    codex_home_var: Option<Seq<char>>,
    home: Option<Seq<char>>,
    codex_home: Seq<char>,
)
    ensures
        codex_home_var is Some ==> spec_codex_home(codex_home_var, home) == codex_home_var->0,
        codex_home_var is None && home is Some ==> components(spec_codex_home(codex_home_var, home))
            == components(home->0) + seq![Comp::Normal(".codex"@)],
        codex_home_var is None && home is None ==> spec_codex_home(codex_home_var, home)
            == ".codex"@,
        components(spec_worktrees_dir(codex_home)) == components(codex_home) + seq![
            Comp::Normal("worktrees"@),
        ],
        components(spec_install_dir(home)) == components(
            match home {
                Some(h) => h,
                None => "."@,
            },
        ) + seq![Comp::Normal(".local"@), Comp::Normal("bin"@)],
{
    reveal_strlit(".codex");
    reveal_strlit("worktrees");
    reveal_strlit(".local");
    reveal_strlit("bin");
    assert(is_plain_name(".codex"@)) by {
        assert(".codex"@ != dot());
        assert(!".codex"@.contains('/')) by {
            assert forall|k: int| 0 <= k < 6 implies ".codex"@[k] != '/' by {}
        }
    }
    assert(is_plain_name("worktrees"@)) by {
        assert(!"worktrees"@.contains('/')) by {
            assert forall|k: int| 0 <= k < 9 implies "worktrees"@[k] != '/' by {}
        }
    }
    assert(is_plain_name(".local"@)) by {
        assert(!".local"@.contains('/')) by {
            assert forall|k: int| 0 <= k < 6 implies ".local"@[k] != '/' by {}
        }
    }
    assert(is_plain_name("bin"@)) by {
        assert(!"bin"@.contains('/')) by {
            assert forall|k: int| 0 <= k < 3 implies "bin"@[k] != '/' by {}
        }
    }
    if let Some(h) = home {
        assert(join_names(seq![".codex"@]) == ".codex"@);
        lemma_join_components(h, seq![".codex"@]);
        assert(normal_comps(seq![".codex"@]) =~= seq![Comp::Normal(".codex"@)]);
    }
    assert(join_names(seq!["worktrees"@]) == "worktrees"@);
    lemma_join_components(codex_home, seq!["worktrees"@]);
    assert(normal_comps(seq!["worktrees"@]) =~= seq![Comp::Normal("worktrees"@)]);
    let base = match home {
        Some(h) => h,
        None => "."@,
    };
    let names = seq![".local"@, "bin"@];
    assert(join_names(seq![".local"@]) == ".local"@);
    lemma_join_push(base, seq![".local"@], "bin"@);
    assert(seq![".local"@].push("bin"@) =~= names);
    lemma_join_components(base, names);
    assert(normal_comps(names) =~= seq![Comp::Normal(".local"@), Comp::Normal("bin"@)]);
}

/// The directories listed in a `PATH` value (`std::env::split_paths` on
/// Unix: the texts between `:`).
pub open spec fn spec_path_entries(path_var: Seq<char>) -> Seq<Seq<char>> {
    split_on(path_var, ':')
}

/// Where to look for `program`, in order: `program` under each directory of
/// `PATH`; nowhere when `PATH` is not set.
pub open spec fn spec_program_candidates(path_var: Option<Seq<char>>, program: Seq<char>) -> Seq<
    Seq<char>,
> {
    match path_var {
        None => seq![],
        Some(p) => spec_path_entries(p).map_values(|d: Seq<char>| spec_join(d, program)),
    }
}

/// The places to look for `program` (see `spec_program_candidates`); the
/// first that is a regular file is the program.
pub fn program_candidates(path_var: Option<String>, program: &str) -> (c: Vec<String>)
    ensures
        string_views(c@) == spec_program_candidates(
            match path_var {
                Some(p) => Some(p@),
                None => None,
            },
            program@,
        ),
{
    let mut out: Vec<String> = Vec::new();
    match path_var {
        None => {
            proof {
                assert(string_views(out@) =~= Seq::<Seq<char>>::empty());
            }
            out
        },
        Some(p) => {
            let pv = chars_of(p.as_str());
            let entries = split_chars(&pv, ':');
            let ghost es = views(entries@);
            let mut i: usize = 0;
            proof {
                assert(string_views(out@) =~= Seq::<Seq<char>>::empty());
            }
            while i < entries.len()
                invariant
                    i <= entries.len(),
                    es == views(entries@),
                    es == split_on(p@, ':'),
                    string_views(out@) == es.take(i as int).map_values(
                        |d: Seq<char>| spec_join(d, program@),
                    ),
                decreases entries.len() - i,
            {
                let dir = string_of(entries[i].as_slice());
                let cand = join_path(dir.as_str(), program);
                out.push(cand);
                proof {
                    assert(es[i as int] == dir@);
                    assert(es.take(i + 1) == es.take(i as int).push(es[i as int]));
                    assert(string_views(out@) == string_views(out@.drop_last()).push(cand@));
                    assert(es.take(i + 1).map_values(|d: Seq<char>| spec_join(d, program@))
                        == es.take(i as int).map_values(|d: Seq<char>| spec_join(d, program@)).push(
                        spec_join(es[i as int], program@),
                    ));
                }
                i += 1;
            }
            proof {
                assert(es.take(entries.len() as int) == es);
            }
            out
        },
    }
}

/// The first candidate that the caller found to be a regular file.
pub fn first_found(candidates: &Vec<String>, is_file: &Vec<bool>) -> (found: Option<String>)
    requires
        candidates.len() == is_file.len(),
    ensures
        match found {
            Some(f) => exists|k: int|
                0 <= k < candidates.len() && is_file[k] && f@ == candidates[k]@ && forall|j: int|
                    0 <= j < k ==> !is_file[j],
            None => forall|k: int| 0 <= k < candidates.len() ==> !is_file[k],
        },
{
    let mut i: usize = 0;
    while i < candidates.len()
        invariant
            i <= candidates.len() == is_file.len(),
            forall|j: int| 0 <= j < i ==> !is_file[j],
        decreases candidates.len() - i,
    {
        if is_file[i] {
            return Some(candidates[i].clone());
        }
        i += 1;
    }
    None
}

/// Whether two paths are equal as `std::path::Path` compares them: by their
/// components.
pub open spec fn path_eq(a: Seq<char>, b: Seq<char>) -> bool {
    components(a) == components(b)
}

fn comp_eq(a: &Part, b: &Part) -> (r: bool)
    ensures
        r == (a@ == b@),
{
    match (a, b) {
        (Part::Root, Part::Root) => true,
        (Part::Cur, Part::Cur) => true,
        (Part::Up, Part::Up) => true,
        (Part::Name(x), Part::Name(y)) => crate::worktrees::eq_chars(x, y),
        _ => false,
    }
}

/// Whether `a` and `b` have the same components.
pub fn same_path(a: &str, b: &str) -> (r: bool)
    ensures
        r == path_eq(a@, b@),
{
    let av = chars_of(a);
    let bv = chars_of(b);
    let ac = components_of(&av);
    let bc = components_of(&bv);
    if ac.len() != bc.len() {
        proof {
            assert(parts_view(ac@).len() != parts_view(bc@).len());
        }
        return false;
    }
    let mut i: usize = 0;
    while i < ac.len()
        invariant
            i <= ac.len() == bc.len(),
            parts_view(ac@) == components(a@),
            parts_view(bc@) == components(b@),
            forall|j: int| 0 <= j < i ==> parts_view(ac@)[j] == parts_view(bc@)[j],
        decreases ac.len() - i,
    {
        if !comp_eq(&ac[i], &bc[i]) {
            proof {
                assert(parts_view(ac@)[i as int] != parts_view(bc@)[i as int]);
            }
            return false;
        }
        i += 1;
    }
    proof {
        assert(parts_view(ac@) =~= parts_view(bc@));
    }
    true
}

/// Whether some directory of a `PATH` value is the same path as `dir`.
pub open spec fn spec_path_contains(path_var: Option<Seq<char>>, dir: Seq<char>) -> bool {
    &&& path_var is Some
    &&& exists|i: int|
        0 <= i < spec_path_entries(path_var->0).len() && path_eq(
            #[trigger] spec_path_entries(path_var->0)[i],
            dir,
        )
}

/// Whether `dir` is one of the directories of `PATH` (compared as paths).
pub fn path_contains(path_var: &Option<String>, dir: &str) -> (r: bool)
    ensures
        r == spec_path_contains(
            match path_var {
                Some(p) => Some(p@),
                None => None,
            },
            dir@,
        ),
{
    match path_var {
        None => false,
        Some(p) => {
            let pv = chars_of(p.as_str());
            let entries = split_chars(&pv, ':');
            let mut i: usize = 0;
            while i < entries.len()
                invariant
                    i <= entries.len(),
                    views(entries@) == spec_path_entries(p@),
                    match path_var {
                        Some(q) => q@ == p@,
                        None => false,
                    },
                    forall|j: int| 0 <= j < i ==> !path_eq(#[trigger] spec_path_entries(p@)[j], dir@),
                decreases entries.len() - i,
            {
                let e = string_of(entries[i].as_slice());
                proof {
                    assert(views(entries@)[i as int] == e@);
                }
                if same_path(e.as_str(), dir) {
                    proof {
                        assert(views(entries@).len() == entries@.len());
                        let k = i as int;
                        assert(0 <= k < spec_path_entries(p@).len());
                        assert(path_eq(spec_path_entries(p@)[k], dir@));
                        let pv: Seq<char> = p@;
                        let dv: Seq<char> = dir@;
                        let o: Option<Seq<char>> = Some(pv);
                        assert(o->0 == pv);
                        assert(path_eq(spec_path_entries(o->0)[k], dv));
                        assert(spec_path_contains(o, dv));
                    }
                    return true;
                }
                i += 1;
            }
            false
        },
    }
}

/// The paths that `doctor` reports on.
#[derive(Debug)]
pub struct DoctorPaths {
    pub codex_home: String,
    pub worktrees_dir: String,
    /// The parent of `worktrees_dir`, when it has one.
    pub worktrees_parent: Option<String>,
    pub install_dir: String,
}

/// The paths that `doctor` reports on, from the values of the `CODEX_HOME`
/// and `HOME` variables.
pub fn doctor_paths(codex_home_var: Option<String>, home: Option<String>) -> (p: DoctorPaths)
    ensures
        p.codex_home@ == spec_codex_home(opt_view(codex_home_var), opt_view(home)),
        p.worktrees_dir@ == spec_worktrees_dir(p.codex_home@),
        opt_view(p.worktrees_parent) == spec_parent(p.worktrees_dir@),
        p.install_dir@ == spec_install_dir(opt_view(home)),
{
    let home2 = match &home {
        Some(h) => Some(h.clone()),
        None => None,
    };
    let ch = codex_home(codex_home_var, home);
    let wd = worktrees_dir(ch.as_str());
    let wp = parent(wd.as_str());
    let id = install_dir(home2);
    DoctorPaths { codex_home: ch, worktrees_dir: wd, worktrees_parent: wp, install_dir: id }
}

/// What the caller found out for `doctor`.
pub struct DoctorProbes {
    /// For each place where `git` is looked for (`program_candidates` of
    /// `PATH` and `git`), in order: whether it is a regular file.
    pub git_is_file: Vec<bool>,
    /// The run of `git --version`, when Git was found.
    pub git_version: Option<GitRun>,
    /// Whether the worktrees directory is a directory.
    pub worktrees_dir_exists: bool,
    /// Whether the parent of the worktrees directory is a directory.
    pub worktrees_parent_is_dir: bool,
    /// Whether the install directory is a directory.
    pub install_dir_exists: bool,
}

/// The report of `doctor`.
#[derive(Debug)]
pub struct DoctorReport {
    pub ok: bool,
    pub git_path: Option<String>,
    pub git_version: Option<String>,
    pub codex_home: String,
    pub worktrees_dir: String,
    pub worktrees_dir_exists: bool,
    pub worktrees_parent_exists: bool,
    pub install_dir: String,
    pub install_dir_exists: bool,
    pub install_dir_on_path: bool,
}

/// The version text of a run of `git --version`: its trimmed output when it
/// succeeded.
pub open spec fn spec_version_text(run: Option<GitRunView>) -> Option<Seq<char>> {
    match run {
        Some(r) => match spec_git_text(r) {
            Ok(t) => Some(t),
            Err(_) => None,
        },
        None => None,
    }
}

/// Whether `found` is the first of `candidates` that `is_file` marks (none
/// when no candidate is marked).
pub open spec fn is_first_file(
    found: Option<Seq<char>>,
    candidates: Seq<Seq<char>>,
    is_file: Seq<bool>,
) -> bool {
    match found {
        Some(g) => exists|k: int|
            0 <= k < candidates.len() && #[trigger] is_file[k] && g == candidates[k] && forall|j: int|
                0 <= j < k ==> !is_file[j],
        None => forall|k: int| 0 <= k < candidates.len() ==> !#[trigger] is_file[k],
    }
}

/// The report of `doctor`, from the values of the `CODEX_HOME`, `HOME` and
/// `PATH` variables and what the caller found out: Git is the first `git`
/// on `PATH` that is a regular file, its version is the trimmed output of a
/// successful `git --version` (none without Git), the worktrees directory is
/// `worktrees` under the Codex home, the install directory is `.local/bin`
/// under `HOME`, and whether the latter is on `PATH`. The report is a
/// successful response, so `ok` holds; whether Git was found shows in
/// `git_path` and `git_version`.
pub fn doctor(
    codex_home_var: Option<String>,
    home: Option<String>,
    path_var: Option<String>,
    probes: DoctorProbes,
) -> (r: DoctorReport)
    requires
        probes.git_is_file.len() == spec_program_candidates(opt_view(path_var), "git"@).len(),
    ensures
        r.ok,
        is_first_file(
            opt_view(r.git_path),
            spec_program_candidates(opt_view(path_var), "git"@),
            probes.git_is_file@,
        ),
        opt_view(r.git_version) == if r.git_path is Some {
            spec_version_text(
                match probes.git_version {
                    Some(run) => Some(run@),
                    None => None,
                },
            )
        } else {
            None
        },
        r.codex_home@ == spec_codex_home(opt_view(codex_home_var), opt_view(home)),
        r.worktrees_dir@ == spec_worktrees_dir(r.codex_home@),
        r.worktrees_dir_exists == probes.worktrees_dir_exists,
        r.worktrees_parent_exists == (spec_parent(r.worktrees_dir@) is Some
            && probes.worktrees_parent_is_dir),
        r.install_dir@ == spec_install_dir(opt_view(home)),
        r.install_dir_exists == probes.install_dir_exists,
        r.install_dir_on_path == spec_path_contains(opt_view(path_var), r.install_dir@),
{
    let paths = doctor_paths(codex_home_var, home);
    let path_copy = match &path_var {
        Some(p) => Some(p.clone()),
        None => None,
    };
    let candidates = program_candidates(path_copy, "git");
    let git_path = first_found(&candidates, &probes.git_is_file);
    proof {
        let cands = spec_program_candidates(opt_view(path_var), "git"@);
        assert(string_views(candidates@) == cands);
        match &git_path {
            Some(g) => {
                let k = choose|k: int|
                    0 <= k < candidates.len() && probes.git_is_file[k] && g@ == candidates[k]@
                        && forall|j: int| 0 <= j < k ==> !probes.git_is_file[j];
                assert(candidates[k]@ == cands[k]);
                assert(probes.git_is_file@[k]);
            },
            None => {},
        }
    }
    let on_path = path_contains(&path_var, paths.install_dir.as_str());
    let git_version = if git_path.is_some() {
        match probes.git_version {
            Some(run) => match git_trimmed(run) {
                Ok(t) => Some(t),
                Err(_) => None,
            },
            None => None,
        }
    } else {
        None
    };
    DoctorReport {
        ok: true,
        git_path,
        git_version,
        codex_home: paths.codex_home,
        worktrees_dir: paths.worktrees_dir,
        worktrees_dir_exists: probes.worktrees_dir_exists,
        worktrees_parent_exists: paths.worktrees_parent.is_some() && probes.worktrees_parent_is_dir,
        install_dir: paths.install_dir,
        install_dir_exists: probes.install_dir_exists,
        install_dir_on_path: on_path,
    }
}

} // verus!
