//! Naming a new worktree: its id and its place under the worktrees directory.
use vstd::prelude::*;
use crate::error::concat;
use crate::path::{
    Comp, components, is_plain_name, join_names, join_path, lemma_join_components, spec_file_name,
    spec_join, split_on,
};
use crate::slug::{is_slug_shaped};
use crate::text::is_ascii_alnum;
use crate::untracked::{lemma_join_push, lemma_pieces_normal_plain, lemma_split_pieces_no_sep};
use crate::text::{decimal, hex_fixed, spec_decimal, spec_hex_fixed, string_of};

verus! {

/// How many ids (the plain one and those with `-1` ... `-999`) are tried.
pub const MAX_CANDIDATES: u32 = 1000;

/// An id made from a hash: its 32 lowest bits as 8 lower-case hexadecimal
/// digits.
pub open spec fn spec_generated_id(seed: u64) -> Seq<char> {
    spec_hex_fixed(seed as nat, 8)
}

/// An id made from a hash (see `spec_generated_id`).
pub fn generated_id(seed: u64) -> (id: String)
    ensures
        id@ == spec_generated_id(seed),
{
    let v = hex_fixed(seed, 8);
    string_of(v.as_slice())
}

/// The id tried at `index`: the base itself first, then the base followed by
/// `-` and the index.
pub open spec fn spec_candidate_id(id_base: Seq<char>, index: nat) -> Seq<char> {
    if index == 0 {
        id_base
    } else {
        id_base + "-"@ + spec_decimal(index)
    }
}

/// The worktree path tried at `index`: the repository name inside the
/// candidate id's directory inside `root`.
pub open spec fn spec_candidate_path(
    root: Seq<char>,
    id_base: Seq<char>,
    repo_name: Seq<char>,
    index: nat,
) -> Seq<char> {
    spec_join(spec_join(root, spec_candidate_id(id_base, index)), repo_name)
}

/// The id and the worktree path tried at `index`.
pub fn worktree_candidate(root: &str, id_base: &str, repo_name: &str, index: u32) -> (r: (
    String,
    String,
))
    ensures
        r.0@ == spec_candidate_id(id_base@, index as nat),
        r.1@ == spec_candidate_path(root@, id_base@, repo_name@, index as nat),
{
    let id = if index == 0 {
        String::from_str(id_base)
    } else {
        let mut s = concat(id_base, "-");
        let digits = decimal(index);
        let d = string_of(digits.as_slice());
        s.append(d.as_str());
        s
    };
    let dir = join_path(root, id.as_str());
    let path = join_path(dir.as_str(), repo_name);
    (id, path)
}

/// The next move of the search for a free worktree path.
#[derive(Debug)]
pub enum PathSearch {
    /// Ask whether `path`, the candidate at `index`, exists.
    Probe { index: u32, path: String },
    /// The candidate with this id and path is free.
    Found { id: String, path: String },
    /// Every candidate is taken.
    Exhausted,
}

/// One step of the search for a free worktree path: the candidate at `index`
/// is taken when `exists`; the first free candidate is chosen, and after the
/// last one the search gives up.
pub fn unique_worktree_path(root: &str, id_base: &str, repo_name: &str, index: u32, exists: bool) -> (r:
    PathSearch)
    requires
        index < MAX_CANDIDATES,
    ensures
        !exists ==> (r matches PathSearch::Found { id, path } && id@ == spec_candidate_id(
            id_base@,
            index as nat,
        ) && path@ == spec_candidate_path(root@, id_base@, repo_name@, index as nat)),
        exists && index + 1 < MAX_CANDIDATES ==> (r matches PathSearch::Probe { index: next, path }
            && next == index + 1 && path@ == spec_candidate_path(
            root@,
            id_base@,
            repo_name@,
            next as nat,
        )),
        exists && index + 1 >= MAX_CANDIDATES ==> r is Exhausted,
{
    if !exists {
        let (id, path) = worktree_candidate(root, id_base, repo_name, index);
        PathSearch::Found { id, path }
    } else if index + 1 < MAX_CANDIDATES {
        let (_, path) = worktree_candidate(root, id_base, repo_name, index + 1);
        PathSearch::Probe { index: index + 1, path }
    } else {
        PathSearch::Exhausted
    }
}

proof fn lemma_decimal_digits(n: nat)
    ensures
        spec_decimal(n).len() > 0,
        forall|k: int|
            0 <= k < spec_decimal(n).len() ==> '0' <= #[trigger] spec_decimal(n)[k] <= '9',
    decreases n,
{
    if n >= 10 {
        lemma_decimal_digits(n / 10);
    }
}

proof fn lemma_hex_digits(n: nat, width: nat)
    ensures
        spec_hex_fixed(n, width).len() == width,
        forall|k: int|
            0 <= k < spec_hex_fixed(n, width).len() ==> is_ascii_alnum(
                #[trigger] spec_hex_fixed(n, width)[k],
            ),
    decreases width,
{
    if width > 0 {
        lemma_hex_digits(n / 16, (width - 1) as nat);
    }
}

/// A name of ASCII letters, digits and `-` with at least one letter or digit
/// is plain: one path component.
proof fn lemma_alnum_name_is_plain(n: Seq<char>)
    requires
        forall|k: int| 0 <= k < n.len() ==> is_ascii_alnum(#[trigger] n[k]) || n[k] == '-',
        exists|k: int| 0 <= k < n.len() && is_ascii_alnum(#[trigger] n[k]),
    ensures
        is_plain_name(n),
{
    assert(!n.contains('/')) by {
        if n.contains('/') {
            let k = choose|k: int| 0 <= k < n.len() && n[k] == '/';
            assert(is_ascii_alnum(n[k]) || n[k] == '-');
        }
    }
    let k = choose|k: int| 0 <= k < n.len() && is_ascii_alnum(#[trigger] n[k]);
    assert(n != crate::path::dot()) by {
        if n == crate::path::dot() {
            assert(n[k] == '.');
        }
    }
    assert(n != crate::path::dot_dot()) by {
        if n == crate::path::dot_dot() {
            assert(n[k] == '.');
        }
    }
}

/// Every slug is one plain path component.
pub proof fn lemma_slug_is_plain(s: Seq<char>)
    requires
        is_slug_shaped(s),
    ensures
        is_plain_name(s),
{
    assert(is_ascii_alnum(s[0]) || s[0] == '-');
    lemma_alnum_name_is_plain(s);
}

/// Every generated id is one plain path component.
pub proof fn lemma_generated_id_is_plain(seed: u64)
    ensures
        is_plain_name(spec_generated_id(seed)),
{
    lemma_hex_digits(seed as nat, 8);
    let g = spec_generated_id(seed);
    assert(is_ascii_alnum(g[0]));
    lemma_alnum_name_is_plain(g);
}

/// The file name of a path, when it has one, is one plain path component.
pub proof fn lemma_file_name_is_plain(p: Seq<char>)
    requires
        spec_file_name(p) is Some,
    ensures
        is_plain_name(spec_file_name(p)->Some_0),
{
    let pieces = split_on(p, '/');
    lemma_split_pieces_no_sep(p, '/');
    lemma_pieces_normal_plain(pieces);
    let cs = components(p);
    let last = cs.last();
    // The head (root or `.`) is not normal, so the last normal component
    // comes from the pieces.
    let head_len = cs.len() - crate::path::pieces_comps(pieces).len();
    assert(crate::path::pieces_comps(pieces).len() > 0) by {
        if crate::path::pieces_comps(pieces).len() == 0 {
            assert(cs.len() <= 1);
            assert(!(cs[cs.len() - 1] is Normal));
        }
    }
    let pc = crate::path::pieces_comps(pieces);
    assert(cs.last() == pc[pc.len() - 1]);
}

/// Where a new worktree goes: the candidate path is the worktrees directory,
/// then the candidate id, then the repository name, each one path component
/// (`$CODEX_HOME/worktrees/<id>/<repo-name>`).
pub proof fn lemma_candidate_location(
    root: Seq<char>,
    id_base: Seq<char>,
    repo_name: Seq<char>,
    index: nat,
)
    requires
        is_plain_name(id_base),
        is_plain_name(repo_name),
    ensures
        is_plain_name(spec_candidate_id(id_base, index)),
        components(spec_candidate_path(root, id_base, repo_name, index)) == components(root)
            + seq![
            Comp::Normal(spec_candidate_id(id_base, index)),
            Comp::Normal(repo_name),
        ],
{
    let id = spec_candidate_id(id_base, index);
    if index > 0 {
        lemma_decimal_digits(index);
        let d = spec_decimal(index);
        let tail = "-"@ + d;
        reveal_strlit("-");
        assert(!id.contains('/')) by {
            if id.contains('/') {
                let k = choose|k: int| 0 <= k < id.len() && id[k] == '/';
                if k < id_base.len() {
                    assert(id_base[k] == '/');
                    assert(id_base.contains('/'));
                } else if k == id_base.len() {
                    assert(id[k] == '-');
                } else {
                    assert(id[k] == d[k - id_base.len() - 1]);
                }
            }
        }
        assert(id.len() >= 3);
    }
    let names = seq![id];
    assert(join_names(names) == id);
    lemma_join_push(root, names, repo_name);
    let both = names.push(repo_name);
    assert(both =~= seq![id, repo_name]);
    assert forall|i: int| 0 <= i < both.len() implies is_plain_name(#[trigger] both[i]) by {
        if i == 0 {
            assert(both[0] == id);
        }
    }
    lemma_join_components(root, both);
    assert(crate::path::normal_comps(both) =~= seq![Comp::Normal(id), Comp::Normal(repo_name)]);
}

} // verus!
