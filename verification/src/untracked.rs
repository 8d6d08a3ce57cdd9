//! Untracked files: the paths that Git reports, checked before anything is
//! copied, and where each copy goes inside the new worktree.
use vstd::prelude::*;
use vstd::utf8::{decode_utf8, valid_utf8};
use crate::error::{Failure, WtError, with_context};
use crate::path::{
    Comp, Part, components, components_of, dot, is_absolute, is_plain_name, join_names, join_path,
    lemma_join_components, lemma_pieces_comps_concat, lemma_split_join_names, lemma_split_nonempty,
    normal_comps, parts_view, path_is_absolute, piece_comp, pieces_comps, spec_join, split_chars,
    split_on, views,
};
use crate::text::{chars_of, spec_utf8_error_text, string_of, utf8_decode};

verus! {

/// Whether every component is a normal one.
pub open spec fn all_normal(cs: Seq<Comp>) -> bool {
    forall|i: int| 0 <= i < cs.len() ==> #[trigger] cs[i] is Normal
}

/// The names of normal components.
pub open spec fn comp_names(cs: Seq<Comp>) -> Seq<Seq<char>> {
    cs.map_values(|c: Comp| c->Normal_0)
}

/// What `safe_relative_path` makes of `raw`: an absolute path is refused, so
/// is one with any component other than a normal name (`..`, or a leading
/// `.`); otherwise the normal names joined with `/`.
pub open spec fn spec_safe_relative_path(raw: Seq<char>) -> Result<Seq<char>, Failure> {
    if is_absolute(raw) {
        Err(Failure::AbsoluteUntracked { raw })
    } else if !all_normal(components(raw)) {
        Err(Failure::UnsafeUntracked { raw })
    } else {
        Ok(join_names(comp_names(components(raw))))
    }
}

/// Whether `p` is a clean relative path: one or more plain names joined by `/`.
pub open spec fn is_clean_rel(p: Seq<char>) -> bool {
    let names = split_on(p, '/');
    &&& forall|i: int| 0 <= i < names.len() ==> is_plain_name(#[trigger] names[i])
    &&& p == join_names(names)
}

/// Checks one path reported by Git as untracked and returns it cleaned: the
/// normal names of its components joined with `/`. An absolute path, or one
/// with a `..` component or a leading `.`, is refused.
pub fn safe_relative_path(raw: &str) -> (r: Result<String, WtError>)
    ensures
        match r {
            Ok(p) => spec_safe_relative_path(raw@) == Ok::<Seq<char>, Failure>(p@),
            Err(e) => spec_safe_relative_path(raw@) == Err::<Seq<char>, Failure>(e@),
        },
{
    if path_is_absolute(raw) {
        return Err(WtError::AbsoluteUntracked { raw: String::from_str(raw) });
    }
    let v = chars_of(raw);
    let cs = components_of(&v);
    let ghost all = parts_view(cs@);
    let mut out: Vec<char> = Vec::new();
    let mut i: usize = 0;
    while i < cs.len()
        invariant
            i <= cs.len(),
            all == parts_view(cs@),
            all == components(raw@),
            !is_absolute(raw@),
            all_normal(all.take(i as int)),
            out@ == join_names(comp_names(all.take(i as int))),
        decreases cs.len() - i,
    {
        proof {
            assert(all[i as int] == cs@[i as int]@);
        }
        match &cs[i] {
            Part::Name(n) => {
                proof {
                    assert(comp_names(all.take(i + 1)).drop_last() == comp_names(all.take(i as int)));
                    assert(comp_names(all.take(i + 1)).last() == n@);
                    assert(all_normal(all.take(i + 1))) by {
                        assert forall|k: int| 0 <= k < i + 1 implies #[trigger] all.take(i + 1)[k] is Normal by {
                            if k < i {
                                assert(all.take(i + 1)[k] == all.take(i as int)[k]);
                            }
                        }
                    }
                }
                if i > 0 {
                    out.push('/');
                }
                let mut j: usize = 0;
                let ghost before = out@;
                while j < n.len()
                    invariant
                        j <= n.len(),
                        out@ == before + n@.take(j as int),
                    decreases n.len() - j,
                {
                    out.push(n[j]);
                    j += 1;
                    assert(before + n@.take(j as int) == (before + n@.take(j - 1)).push(n@[j - 1]));
                }
                proof {
                    assert(n@.take(n.len() as int) == n@);
                    if i == 0 {
                        assert(before == Seq::<char>::empty());
                        assert(comp_names(all.take(1)).len() == 1);
                    }
                }
            },
            _ => {
                proof {
                    assert(!(all[i as int] is Normal));
                    assert(!all_normal(all));
                    assert(!is_absolute(raw@));
                }
                return Err(WtError::UnsafeUntracked { raw: String::from_str(raw) });
            },
        }
        i += 1;
    }
    proof {
        assert(all.take(cs.len() as int) == all);
    }
    Ok(string_of(out.as_slice()))
}

pub(crate) proof fn lemma_split_pieces_no_sep<A>(s: Seq<A>, sep: A)
    ensures
        forall|i: int| 0 <= i < split_on(s, sep).len() ==> !(#[trigger] split_on(s, sep)[i]).contains(sep),
    decreases s.len(),
{
    if s.len() > 0 {
        lemma_split_pieces_no_sep(s.drop_last(), sep);
        lemma_split_nonempty(s.drop_last(), sep);
        let r = split_on(s.drop_last(), sep);
        if s.last() != sep {
            let l = r.last().push(s.last());
            assert(!l.contains(sep)) by {
                if l.contains(sep) {
                    let k = choose|k: int| 0 <= k < l.len() && l[k] == sep;
                    assert(r.last() == r[r.len() - 1]);
                    assert(r.last()[k] == sep);
                }
            }
        }
    }
}

pub(crate) proof fn lemma_pieces_normal_plain(ps: Seq<Seq<char>>)
    requires
        forall|i: int| 0 <= i < ps.len() ==> !(#[trigger] ps[i]).contains('/'),
    ensures
        forall|i: int| 0 <= i < pieces_comps(ps).len() && (#[trigger] pieces_comps(ps)[i]) is Normal
            ==> is_plain_name(pieces_comps(ps)[i]->Normal_0),
    decreases ps.len(),
{
    if ps.len() > 0 {
        lemma_pieces_normal_plain(ps.drop_last());
        let last = ps.last();
        assert(!last.contains('/'));
    }
}

proof fn lemma_first_piece_nonempty(s: Seq<char>)
    requires
        s.len() > 0,
        s[0] != '/',
    ensures
        split_on(s, '/')[0].len() > 0,
    decreases s.len(),
{
    if s.len() > 1 {
        lemma_first_piece_nonempty(s.drop_last());
        lemma_split_nonempty(s.drop_last(), '/');
        let r = split_on(s.drop_last(), '/');
        if s.last() != '/' {
            let u = r.update(r.len() - 1, r.last().push(s.last()));
            if r.len() == 1 {
                assert(u[0] == r[0].push(s.last()));
            } else {
                assert(u[0] == r[0]);
            }
        } else {
            assert(r.push(seq![])[0] == r[0]);
        }
    } else {
        assert(s.drop_last() == Seq::<char>::empty());
        assert(split_on(s.drop_last(), '/') == seq![Seq::<char>::empty()]);
        let r = split_on(s.drop_last(), '/');
        assert(s.last() == s[0]);
        assert(r.update(r.len() - 1, r.last().push(s.last()))[0].len() == 1);
    }
}

/// A path that `safe_relative_path` accepts from a non-empty report is clean:
/// plain names, at least one, joined by `/`. Joined onto any worktree path it
/// therefore stays below that path (see `lemma_join_components`).
pub proof fn lemma_accepted_path_is_clean(raw: Seq<char>)
    requires
        raw.len() > 0,
        spec_safe_relative_path(raw) is Ok,
    ensures
        is_clean_rel(spec_safe_relative_path(raw)->Ok_0),
        split_on(spec_safe_relative_path(raw)->Ok_0, '/') == comp_names(components(raw)),
{
    let pieces = split_on(raw, '/');
    let cs = components(raw);
    lemma_split_nonempty(raw, '/');
    lemma_split_pieces_no_sep(raw, '/');
    lemma_pieces_normal_plain(pieces);
    lemma_first_piece_nonempty(raw);
    // No head component: a root or leading `.` would not be normal.
    assert(pieces[0] != dot()) by {
        if pieces[0] == dot() {
            assert(cs[0] == Comp::CurDir);
        }
    }
    assert(cs == pieces_comps(pieces));
    // The first piece gives a component.
    let p0 = pieces[0];
    assert(pieces == seq![p0] + pieces.skip(1));
    lemma_pieces_comps_concat(seq![p0], pieces.skip(1));
    assert(seq![p0].drop_last() == Seq::<Seq<char>>::empty());
    assert(pieces_comps(Seq::<Seq<char>>::empty()) == Seq::<Comp>::empty());
    assert(seq![p0].last() == p0);
    assert(piece_comp(p0) is Some);
    assert(pieces_comps(seq![p0]).len() == 1);
    let names = comp_names(cs);
    assert forall|i: int| 0 <= i < names.len() implies is_plain_name(#[trigger] names[i]) by {
        assert(cs[i] is Normal);
    }
    lemma_split_join_names(names);
}

/// What one entry of Git's report becomes: its text when it is UTF-8 and a
/// safe relative path, otherwise the failure.
pub open spec fn report_path(piece: Seq<u8>) -> Result<Seq<char>, Failure> {
    if !valid_utf8(piece) {
        Err(
            Failure::Context {
                context: "untracked path is not UTF-8"@,
                cause: Box::new(Failure::Io { detail: spec_utf8_error_text(piece) }),
            },
        )
    } else {
        spec_safe_relative_path(decode_utf8(piece))
    }
}

/// The paths of the non-empty entries, in order, or the failure of the first
/// entry that fails.
pub open spec fn collect_reported(pieces: Seq<Seq<u8>>) -> Result<Seq<Seq<char>>, Failure>
    decreases pieces.len(),
{
    if pieces.len() == 0 {
        Ok(seq![])
    } else {
        match collect_reported(pieces.drop_last()) {
            Err(e) => Err(e),
            Ok(done) => if pieces.last().len() == 0 {
                Ok(done)
            } else {
                match report_path(pieces.last()) {
                    Err(e) => Err(e),
                    Ok(p) => Ok(done.push(p)),
                }
            },
        }
    }
}

/// What `untracked_relative_paths` makes of the output of
/// `git ls-files --others --exclude-standard -z`.
pub open spec fn spec_untracked_paths(out: Seq<u8>) -> Result<Seq<Seq<char>>, Failure> {
    collect_reported(split_on(out, 0u8))
}

/// The views of a sequence of byte vectors.
pub open spec fn byte_views(v: Seq<Vec<u8>>) -> Seq<Seq<u8>> {
    v.map_values(|x: Vec<u8>| x@)
}

/// The views of a sequence of strings.
pub open spec fn string_views(v: Seq<String>) -> Seq<Seq<char>> {
    v.map_values(|x: String| x@)
}

/// The pieces of `s` between zero bytes.
fn split_nul(s: &Vec<u8>) -> (out: Vec<Vec<u8>>)
    ensures
        byte_views(out@) == split_on(s@, 0u8),
{
    let mut out: Vec<Vec<u8>> = Vec::new();
    let mut cur: Vec<u8> = Vec::new();
    let mut i: usize = 0;
    while i < s.len()
        invariant
            i <= s.len(),
            byte_views(out@).push(cur@) == split_on(s@.take(i as int), 0u8),
        decreases s.len() - i,
    {
        let c = s[i];
        proof {
            assert(s@.take(i + 1).drop_last() == s@.take(i as int));
            lemma_split_nonempty(s@.take(i as int), 0u8);
        }
        if c == 0 {
            let done = cur;
            out.push(done);
            cur = Vec::new();
            proof {
                assert(byte_views(out@) == byte_views(out@.drop_last()).push(done@));
            }
        } else {
            cur.push(c);
            proof {
                let r = split_on(s@.take(i as int), 0u8);
                assert(byte_views(out@).push(cur@) == r.update(r.len() - 1, r.last().push(c)));
            }
        }
        i += 1;
    }
    let last = cur;
    out.push(last);
    proof {
        assert(s@.take(s.len() as int) == s@);
        assert(byte_views(out@) == byte_views(out@.drop_last()).push(last@));
    }
    out
}

/// Reads the output of `git ls-files --others --exclude-standard -z`: the
/// entries between zero bytes, empty ones skipped, each decoded as UTF-8 and
/// checked by `safe_relative_path`, in order; the first entry that fails
/// decides the error.
pub fn untracked_relative_paths(output: &Vec<u8>) -> (r: Result<Vec<String>, WtError>)
    ensures
        match r {
            Ok(paths) => spec_untracked_paths(output@) == Ok::<Seq<Seq<char>>, Failure>(
                string_views(paths@),
            ),
            Err(e) => spec_untracked_paths(output@) == Err::<Seq<Seq<char>>, Failure>(e@),
        },
{
    let pieces = split_nul(output);
    let ghost all = byte_views(pieces@);
    let mut paths: Vec<String> = Vec::new();
    let mut i: usize = 0;
    proof {
        assert(all.take(0) == Seq::<Seq<u8>>::empty());
        assert(string_views(paths@) =~= Seq::<Seq<char>>::empty());
    }
    while i < pieces.len()
        invariant
            i <= pieces.len(),
            all == byte_views(pieces@),
            all == split_on(output@, 0u8),
            collect_reported(all.take(i as int)) == Ok::<Seq<Seq<char>>, Failure>(
                string_views(paths@),
            ),
        decreases pieces.len() - i,
    {
        let piece = &pieces[i];
        proof {
            assert(all.take(i + 1).drop_last() == all.take(i as int));
            assert(all.take(i + 1).last() == piece@);
        }
        if piece.len() == 0 {
            proof {
                assert(collect_reported(all.take(i + 1)) == collect_reported(all.take(i as int)));
            }
        } else {
            match utf8_decode(piece.as_slice()) {
                Err(detail) => {
                    let e = with_context(
                        String::from_str("untracked path is not UTF-8"),
                        WtError::Io { detail },
                    );
                    proof {
                        assert(collect_reported(all.take(i + 1)) == Err::<Seq<Seq<char>>, Failure>(e@));
                        lemma_collect_stops(all, i as int + 1);
                        assert(all.take(all.len() as int) == all);
                    }
                    return Err(e);
                },
                Ok(text) => {
                    match safe_relative_path(text.as_str()) {
                        Err(e) => {
                            proof {
                                lemma_collect_stops(all, i as int + 1);
                                assert(all.take(all.len() as int) == all);
                            }
                            return Err(e);
                        },
                        Ok(p) => {
                            let ghost before = string_views(paths@);
                            paths.push(p);
                            proof {
                                assert(string_views(paths@) == before.push(p@));
                                assert(report_path(piece@) == Ok::<Seq<char>, Failure>(p@));
                                assert(collect_reported(all.take(i + 1)) == Ok::<
                                    Seq<Seq<char>>,
                                    Failure,
                                >(before.push(p@)));
                            }
                        },
                    }
                },
            }
        }
        i += 1;
    }
    proof {
        assert(all.take(pieces.len() as int) == all);
    }
    Ok(paths)
}

/// Once the entries up to `i` fail, all of them fail the same way.
proof fn lemma_collect_stops(all: Seq<Seq<u8>>, i: int)
    requires
        0 <= i <= all.len(),
        collect_reported(all.take(i)) is Err,
    ensures
        collect_reported(all.take(all.len() as int)) == collect_reported(all.take(i)),
    decreases all.len() - i,
{
    if i < all.len() {
        assert(all.take(i + 1).drop_last() == all.take(i));
        lemma_collect_stops(all, i + 1);
    }
}

/// Every path that `untracked_relative_paths` returns is clean: plain names,
/// at least one, joined by `/`.
pub proof fn lemma_reported_paths_clean(pieces: Seq<Seq<u8>>)
    requires
        collect_reported(pieces) is Ok,
    ensures
        forall|i: int|
            0 <= i < collect_reported(pieces)->Ok_0.len() ==> is_clean_rel(
                #[trigger] collect_reported(pieces)->Ok_0[i],
            ),
    decreases pieces.len(),
{
    if pieces.len() > 0 {
        lemma_reported_paths_clean(pieces.drop_last());
        let last = pieces.last();
        if last.len() > 0 {
            let d = decode_utf8(last);
            assert(d.len() > 0);
            lemma_accepted_path_is_clean(d);
        }
    }
}

/// Where the copy of the untracked file `rel` goes in the worktree `target`.
pub open spec fn spec_destination(target: Seq<char>, rel: Seq<char>) -> Seq<char> {
    spec_join(target, rel)
}

/// The directories between `target` and the copy of `rel`, outermost first:
/// `target` with the first one, two, ... names of `rel` pushed onto it, all
/// names but the last.
pub open spec fn spec_ancestors(target: Seq<char>, rel: Seq<char>) -> Seq<Seq<char>> {
    let names = split_on(rel, '/');
    Seq::new(
        (names.len() - 1) as nat,
        |k: int| spec_join(target, join_names(names.take(k + 1))),
    )
}

proof fn lemma_join_names_ends(names: Seq<Seq<char>>)
    requires
        names.len() >= 1,
        forall|i: int| 0 <= i < names.len() ==> is_plain_name(#[trigger] names[i]),
    ensures
        join_names(names).len() > 0,
        join_names(names).last() != '/',
        join_names(names)[0] != '/',
{
    lemma_split_join_names(names);
    assert(is_plain_name(names[0]));
    assert(names[0].contains(names[0][0]));
    let l = names.last();
    assert(is_plain_name(names[names.len() - 1]));
    assert(l.contains(l.last()));
    if names.len() > 1 {
        assert(join_names(names).last() == l.last());
    }
}

pub(crate) proof fn lemma_join_push(t: Seq<char>, names: Seq<Seq<char>>, n: Seq<char>)
    requires
        names.len() >= 1,
        forall|i: int| 0 <= i < names.len() ==> is_plain_name(#[trigger] names[i]),
        is_plain_name(n),
    ensures
        spec_join(spec_join(t, join_names(names)), n) == spec_join(t, join_names(names.push(n))),
{
    lemma_join_names_ends(names);
    assert(names.push(n).drop_last() == names);
    assert(n.contains(n[0]));
    let r = join_names(names);
    let x = spec_join(t, r);
    assert(x.len() > 0 && x.last() == r.last());
    assert(spec_join(x, n) == x + seq!['/'] + n);
    if t.len() > 0 && t.last() != '/' {
        assert(x + seq!['/'] + n =~= t + seq!['/'] + (r + seq!['/'] + n));
    } else {
        assert(x + seq!['/'] + n =~= t + (r + seq!['/'] + n));
    }
}

/// The place of the copy of `rel` (clean) in the worktree `target`, and the
/// directories on the way to it, outermost first.
pub fn copy_destination(target: &str, rel: &str) -> (r: (String, Vec<String>))
    requires
        is_clean_rel(rel@),
    ensures
        r.0@ == spec_destination(target@, rel@),
        string_views(r.1@) == spec_ancestors(target@, rel@),
{
    let dest = join_path(target, rel);
    let rv = chars_of(rel);
    let names = split_chars(&rv, '/');
    let ghost ns = views(names@);
    let mut ancestors: Vec<String> = Vec::new();
    let mut cur = String::from_str(target);
    let mut k: usize = 0;
    while k + 1 < names.len()
        invariant
            ns == views(names@),
            ns == split_on(rel@, '/'),
            names.len() >= 1,
            k + 1 <= names.len(),
            forall|i: int| 0 <= i < ns.len() ==> is_plain_name(#[trigger] ns[i]),
            k == 0 ==> cur@ == target@,
            k > 0 ==> cur@ == spec_join(target@, join_names(ns.take(k as int))),
            string_views(ancestors@) == spec_ancestors(target@, rel@).take(k as int),
        decreases names.len() - k,
    {
        let name = string_of(names[k].as_slice());
        proof {
            assert(ns[k as int] == name@);
            assert(is_plain_name(ns[k as int]));
            if k == 0 {
                assert(ns.take(1) =~= seq![ns[0]]);
            } else {
                assert(ns.take(k as int).push(ns[k as int]) == ns.take(k + 1));
                assert forall|i: int| 0 <= i < ns.take(k as int).len() implies is_plain_name(
                    #[trigger] ns.take(k as int)[i],
                ) by {
                    assert(ns.take(k as int)[i] == ns[i]);
                }
                lemma_join_push(target@, ns.take(k as int), ns[k as int]);
            }
        }
        cur = join_path(cur.as_str(), name.as_str());
        let next = cur.clone();
        ancestors.push(next);
        proof {
            assert(string_views(ancestors@) == string_views(ancestors@.drop_last()).push(next@));
            assert(spec_ancestors(target@, rel@).take(k + 1) == spec_ancestors(target@, rel@).take(
                k as int,
            ).push(spec_join(target@, join_names(ns.take(k + 1)))));
        }
        k += 1;
    }
    proof {
        assert(spec_ancestors(target@, rel@).take(k as int) == spec_ancestors(target@, rel@));
    }
    (dest, ancestors)
}

/// A copy never leaves its worktree: for a clean relative path, the
/// destination's components are the worktree's followed by the path's names,
/// and so are those of each directory on the way, with fewer names. (The
/// original's checks that the destination lies below the worktree, has a
/// parent there, and passes only through normal components therefore always
/// hold.)
pub proof fn lemma_copy_stays_inside(target: Seq<char>, rel: Seq<char>)
    requires
        is_clean_rel(rel),
    ensures
        components(spec_destination(target, rel)) == components(target) + normal_comps(
            split_on(rel, '/'),
        ),
        forall|k: int|
            0 <= k < spec_ancestors(target, rel).len() ==> components(
                #[trigger] spec_ancestors(target, rel)[k],
            ) == components(target) + normal_comps(split_on(rel, '/').take(k + 1)),
{
    let names = split_on(rel, '/');
    lemma_split_nonempty(rel, '/');
    lemma_join_components(target, names);
    assert forall|k: int| 0 <= k < spec_ancestors(target, rel).len() implies components(
        #[trigger] spec_ancestors(target, rel)[k],
    ) == components(target) + normal_comps(names.take(k + 1)) by {
        let sub = names.take(k + 1);
        assert forall|i: int| 0 <= i < sub.len() implies is_plain_name(#[trigger] sub[i]) by {
            assert(sub[i] == names[i]);
        }
        lemma_join_components(target, sub);
    }
}

} // verus!
