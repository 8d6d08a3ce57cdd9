//! Unix paths held as text: their components, joining, file name and parent,
//! as `std::path` defines them for Unix.
use vstd::prelude::*;
use crate::text::{chars_of, string_of};

verus! {

/// One component of a Unix path (`std::path::Component` without prefixes).
pub enum Comp {
    RootDir,
    CurDir,
    ParentDir,
    Normal(Seq<char>),
}

/// The pieces of `s` between occurrences of `sep`, in order; the empty
/// sequence has one empty piece.
pub open spec fn split_on<A>(s: Seq<A>, sep: A) -> Seq<Seq<A>>
    decreases s.len(),
{
    if s.len() == 0 {
        seq![seq![]]
    } else {
        let rest = split_on(s.drop_last(), sep);
        if s.last() == sep {
            rest.push(seq![])
        } else {
            rest.update(rest.len() - 1, rest.last().push(s.last()))
        }
    }
}

/// The text of one dot.
pub open spec fn dot() -> Seq<char> {
    seq!['.']
}

/// The text of two dots.
pub open spec fn dot_dot() -> Seq<char> {
    seq!['.', '.']
}

/// The component that a piece between separators stands for, if any: empty
/// pieces and `.` stand for nothing, `..` for the parent directory.
pub open spec fn piece_comp(piece: Seq<char>) -> Option<Comp> {
    if piece.len() == 0 || piece == dot() {
        None
    } else if piece == dot_dot() {
        Some(Comp::ParentDir)
    } else {
        Some(Comp::Normal(piece))
    }
}

/// The components that a sequence of pieces stands for.
pub open spec fn pieces_comps(pieces: Seq<Seq<char>>) -> Seq<Comp>
    decreases pieces.len(),
{
    if pieces.len() == 0 {
        seq![]
    } else {
        pieces_comps(pieces.drop_last()) + match piece_comp(pieces.last()) {
            Some(c) => seq![c],
            None => seq![],
        }
    }
}

/// Whether `p` is absolute (starts with `/`).
pub open spec fn is_absolute(p: Seq<char>) -> bool {
    p.len() > 0 && p[0] == '/'
}

/// The components of `p` (`Path::components`): the root for an absolute path,
/// a leading `.` of a relative path, then every piece but empty ones and `.`.
pub open spec fn components(p: Seq<char>) -> Seq<Comp> {
    let pieces = split_on(p, '/');
    let head = if is_absolute(p) {
        seq![Comp::RootDir]
    } else if pieces[0] == dot() {
        seq![Comp::CurDir]
    } else {
        seq![]
    };
    head + pieces_comps(pieces)
}

/// `a.join(b)` (`PathBuf::push`): `b` itself when it is absolute, otherwise `b`
/// after `a`, with a `/` between them when `a` is not empty and does not end
/// with one.
pub open spec fn spec_join(a: Seq<char>, b: Seq<char>) -> Seq<char> {
    if is_absolute(b) {
        b
    } else if a.len() > 0 && a.last() != '/' {
        a + seq!['/'] + b
    } else {
        a + b
    }
}

/// The text of one component.
pub open spec fn comp_text(c: Comp) -> Seq<char> {
    match c {
        Comp::RootDir => seq!['/'],
        Comp::CurDir => dot(),
        Comp::ParentDir => dot_dot(),
        Comp::Normal(n) => n,
    }
}

/// The path made by pushing the given components one after the other onto an
/// empty path.
pub open spec fn render(cs: Seq<Comp>) -> Seq<char>
    decreases cs.len(),
{
    if cs.len() == 0 {
        seq![]
    } else {
        spec_join(render(cs.drop_last()), comp_text(cs.last()))
    }
}

/// The last component of `p` when it is a normal one (`Path::file_name`).
pub open spec fn spec_file_name(p: Seq<char>) -> Option<Seq<char>> {
    let cs = components(p);
    if cs.len() > 0 && cs.last() is Normal {
        Some(cs.last()->Normal_0)
    } else {
        None
    }
}

/// The path without its last component (`Path::parent`), rendered from the
/// remaining components; `None` when `p` has no component or ends in the root.
pub open spec fn spec_parent(p: Seq<char>) -> Option<Seq<char>> {
    let cs = components(p);
    if cs.len() > 0 && !(cs.last() is RootDir) {
        Some(render(cs.drop_last()))
    } else {
        None
    }
}

/// A name that can stand as one normal component: not empty, no `/`, and
/// neither `.` nor `..`.
pub open spec fn is_plain_name(n: Seq<char>) -> bool {
    &&& n.len() > 0
    &&& !n.contains('/')
    &&& n != dot()
    &&& n != dot_dot()
}

/// The names joined with `/` (the path made by pushing them onto an empty
/// path).
pub open spec fn join_names(names: Seq<Seq<char>>) -> Seq<char>
    decreases names.len(),
{
    if names.len() == 0 {
        seq![]
    } else if names.len() == 1 {
        names[0]
    } else {
        join_names(names.drop_last()) + seq!['/'] + names.last()
    }
}

/// The views of a sequence of character vectors.
pub open spec fn views(v: Seq<Vec<char>>) -> Seq<Seq<char>> {
    v.map_values(|x: Vec<char>| x@)
}

/// One component of a Unix path, held in executable form.
pub enum Part {
    Root,
    Cur,
    Up,
    Name(Vec<char>),
}

impl View for Part {
    type V = Comp;

    open spec fn view(&self) -> Comp {
        match self {
            Part::Root => Comp::RootDir,
            Part::Cur => Comp::CurDir,
            Part::Up => Comp::ParentDir,
            Part::Name(n) => Comp::Normal(n@),
        }
    }
}

/// The views of a sequence of parts.
pub open spec fn parts_view(v: Seq<Part>) -> Seq<Comp> {
    v.map_values(|x: Part| x@)
}

pub(crate) proof fn lemma_split_nonempty<A>(s: Seq<A>, sep: A)
    ensures
        split_on(s, sep).len() >= 1,
    decreases s.len(),
{
    if s.len() > 0 {
        lemma_split_nonempty(s.drop_last(), sep);
    }
}

/// The pieces of `s` between occurrences of `sep`.
pub fn split_chars(s: &Vec<char>, sep: char) -> (out: Vec<Vec<char>>)
    ensures
        views(out@) == split_on(s@, sep),
        out@.len() >= 1,
{
    let mut out: Vec<Vec<char>> = Vec::new();
    let mut cur: Vec<char> = Vec::new();
    let mut i: usize = 0;
    while i < s.len()
        invariant
            i <= s.len(),
            views(out@).push(cur@) == split_on(s@.take(i as int), sep),
        decreases s.len() - i,
    {
        let c = s[i];
        proof {
            assert(s@.take(i + 1).drop_last() == s@.take(i as int));
            lemma_split_nonempty(s@.take(i as int), sep);
        }
        if c == sep {
            let done = cur;
            out.push(done);
            cur = Vec::new();
            proof {
                assert(views(out@) == views(out@.drop_last()).push(done@));
            }
        } else {
            let ghost old_cur = cur@;
            cur.push(c);
            proof {
                let r = split_on(s@.take(i as int), sep);
                assert(views(out@).push(cur@) == r.update(r.len() - 1, r.last().push(c)));
            }
        }
        i += 1;
    }
    let last = cur;
    out.push(last);
    proof {
        assert(s@.take(s.len() as int) == s@);
        assert(views(out@) == views(out@.drop_last()).push(last@));
    }
    out
}

fn is_dot(v: &Vec<char>) -> (b: bool)
    ensures
        b == (v@ == dot()),
{
    let r = v.len() == 1 && v[0] == '.';
    proof {
        if v@ == dot() {
            assert(v@.len() == 1);
        }
        if r {
            assert(v@ =~= dot());
        }
    }
    r
}

fn is_dot_dot(v: &Vec<char>) -> (b: bool)
    ensures
        b == (v@ == dot_dot()),
{
    let r = v.len() == 2 && v[0] == '.' && v[1] == '.';
    proof {
        if v@ == dot_dot() {
            assert(v@.len() == 2);
        }
        if r {
            assert(v@ =~= dot_dot());
        }
    }
    r
}

/// The components of the path `p` (`Path::components` on Unix).
pub fn components_of(p: &Vec<char>) -> (out: Vec<Part>)
    ensures
        parts_view(out@) == components(p@),
{
    let pieces = split_chars(p, '/');
    let mut out: Vec<Part> = Vec::new();
    if p.len() > 0 && p[0] == '/' {
        out.push(Part::Root);
    } else if is_dot(&pieces[0]) {
        out.push(Part::Cur);
    }
    let ghost head = parts_view(out@);
    let mut k: usize = 0;
    while k < pieces.len()
        invariant
            k <= pieces.len(),
            views(pieces@) == split_on(p@, '/'),
            parts_view(out@) == head + pieces_comps(views(pieces@).take(k as int)),
        decreases pieces.len() - k,
    {
        let piece = &pieces[k];
        proof {
            assert(views(pieces@).take(k + 1).drop_last() == views(pieces@).take(k as int));
            assert(views(pieces@)[k as int] == piece@);
            let t = views(pieces@).take(k + 1);
            assert(pieces_comps(t) == pieces_comps(views(pieces@).take(k as int)) + match piece_comp(piece@) {
                Some(c) => seq![c],
                None => seq![],
            });
        }
        if piece.len() == 0 || is_dot(piece) {
            proof {
                assert(piece_comp(piece@) is None);
                let prev = pieces_comps(views(pieces@).take(k as int));
                assert(prev + seq![] =~= prev);
            }
        } else if is_dot_dot(piece) {
            out.push(Part::Up);
            proof {
                assert(parts_view(out@) == parts_view(out@.drop_last()).push(Comp::ParentDir));
                assert(piece@ != dot());
                assert(piece_comp(piece@) == Some(Comp::ParentDir));
                let prev = pieces_comps(views(pieces@).take(k as int));
                assert(head + (prev + seq![Comp::ParentDir]) =~= (head + prev).push(Comp::ParentDir));
            }
        } else {
            let name = piece.clone();
            out.push(Part::Name(name));
            proof {
                assert(parts_view(out@) == parts_view(out@.drop_last()).push(Comp::Normal(piece@)));
                assert(piece_comp(piece@) == Some(Comp::Normal(piece@)));
                let prev = pieces_comps(views(pieces@).take(k as int));
                assert(head + (prev + seq![Comp::Normal(piece@)]) =~= (head + prev).push(Comp::Normal(piece@)));
            }
        }
        k += 1;
    }
    proof {
        assert(views(pieces@).take(pieces.len() as int) == views(pieces@));
    }
    out
}

/// `a` followed by `b`.
fn append_chars(a: &mut Vec<char>, b: &Vec<char>)
    ensures
        final(a)@ == old(a)@ + b@,
{
    let mut i: usize = 0;
    let ghost start = a@;
    while i < b.len()
        invariant
            i <= b.len(),
            a@ == start + b@.take(i as int),
        decreases b.len() - i,
    {
        a.push(b[i]);
        i += 1;
        assert(start + b@.take(i as int) == (start + b@.take(i - 1)).push(b@[i - 1]));
    }
    assert(b@.take(b.len() as int) == b@);
}

/// `a.join(b)` on characters (see `spec_join`).
pub fn join_chars(a: &Vec<char>, b: &Vec<char>) -> (out: Vec<char>)
    ensures
        out@ == spec_join(a@, b@),
{
    if b.len() > 0 && b[0] == '/' {
        b.clone()
    } else {
        let mut out = a.clone();
        if a.len() > 0 && a[a.len() - 1] != '/' {
            out.push('/');
        }
        append_chars(&mut out, b);
        out
    }
}

/// `Path::new(a).join(b)`: `b` when it is absolute, otherwise `b` after `a`,
/// with a `/` between them when `a` is not empty and does not end with one.
pub fn join_path(a: &str, b: &str) -> (out: String)
    ensures
        out@ == spec_join(a@, b@),
{
    let av = chars_of(a);
    let bv = chars_of(b);
    let j = join_chars(&av, &bv);
    string_of(j.as_slice())
}

/// Whether `p` is absolute (`Path::is_absolute` on Unix).
pub fn path_is_absolute(p: &str) -> (b: bool)
    ensures
        b == is_absolute(p@),
{
    let v = chars_of(p);
    v.len() > 0 && v[0] == '/'
}

/// The last component of `p` when it is a normal one (`Path::file_name`).
pub fn file_name(p: &str) -> (name: Option<String>)
    ensures
        match name {
            Some(n) => spec_file_name(p@) == Some(n@),
            None => spec_file_name(p@) is None,
        },
{
    let v = chars_of(p);
    let cs = components_of(&v);
    if cs.len() == 0 {
        return None;
    }
    proof {
        assert(parts_view(cs@).last() == cs@.last()@);
    }
    match &cs[cs.len() - 1] {
        Part::Name(n) => Some(string_of(n.as_slice())),
        _ => None,
    }
}

fn comp_text_exec(c: &Part) -> (t: Vec<char>)
    ensures
        t@ == comp_text(c@),
{
    match c {
        Part::Root => {
            let mut t: Vec<char> = Vec::new();
            t.push('/');
            t
        },
        Part::Cur => {
            let mut t: Vec<char> = Vec::new();
            t.push('.');
            t
        },
        Part::Up => {
            let mut t: Vec<char> = Vec::new();
            t.push('.');
            t.push('.');
            t
        },
        Part::Name(n) => n.clone(),
    }
}

/// The path made by pushing the first `n` given components onto an empty
/// path.
fn render_exec(cs: &Vec<Part>, n: usize) -> (out: Vec<char>)
    requires
        n <= cs.len(),
    ensures
        out@ == render(parts_view(cs@).take(n as int)),
{
    let mut out: Vec<char> = Vec::new();
    let mut i: usize = 0;
    proof {
        assert(parts_view(cs@).take(0) =~= Seq::<Comp>::empty());
    }
    while i < n
        invariant
            i <= n <= cs.len(),
            out@ == render(parts_view(cs@).take(i as int)),
        decreases n - i,
    {
        let t = comp_text_exec(&cs[i]);
        out = join_chars(&out, &t);
        proof {
            let v = parts_view(cs@);
            assert(v.take(i + 1).drop_last() == v.take(i as int));
            assert(v.take(i + 1).last() == cs@[i as int]@);
        }
        i += 1;
    }
    out
}

/// The path without its last component (`Path::parent`), rendered from the
/// components that remain; `None` when `p` has no component or ends in the
/// root.
pub fn parent(p: &str) -> (res: Option<String>)
    ensures
        match res {
            Some(q) => spec_parent(p@) == Some(q@),
            None => spec_parent(p@) is None,
        },
{
    let v = chars_of(p);
    let cs = components_of(&v);
    if cs.len() == 0 {
        return None;
    }
    proof {
        assert(parts_view(cs@).last() == cs@.last()@);
    }
    if let Part::Root = &cs[cs.len() - 1] {
        return None;
    }
    let r = render_exec(&cs, cs.len() - 1);
    proof {
        assert(parts_view(cs@).take(cs.len() - 1) == parts_view(cs@).drop_last());
    }
    Some(string_of(r.as_slice()))
}

/// Whether `p` is `dir` or lies below it, comparing whole components
/// (`Path::starts_with`).
pub open spec fn is_inside(p: Seq<char>, dir: Seq<char>) -> bool {
    &&& components(dir).len() <= components(p).len()
    &&& components(p).take(components(dir).len() as int) == components(dir)
}

/// A path whose components extend those of `dir` lies inside `dir`.
pub(crate) proof fn lemma_inside_by_components(p: Seq<char>, dir: Seq<char>, rest: Seq<Comp>)
    requires
        components(p) == components(dir) + rest,
    ensures
        is_inside(p, dir),
{
    assert((components(dir) + rest).take(components(dir).len() as int) =~= components(dir));
}

/// The normal components named by `names`.
pub open spec fn normal_comps(names: Seq<Seq<char>>) -> Seq<Comp> {
    names.map_values(|n: Seq<char>| Comp::Normal(n))
}

pub(crate) proof fn lemma_split_concat<A>(x: Seq<A>, y: Seq<A>, sep: A)
    ensures
        split_on(x + seq![sep] + y, sep) == split_on(x, sep) + split_on(y, sep),
    decreases y.len(),
{
    let z = x + seq![sep] + y;
    if y.len() == 0 {
        assert(z == (x + seq![sep]));
        assert((x + seq![sep]).drop_last() == x);
        assert(split_on(x, sep).push(seq![]) =~= split_on(x, sep) + split_on(y, sep));
    } else {
        assert(z.drop_last() == x + seq![sep] + y.drop_last());
        lemma_split_concat(x, y.drop_last(), sep);
        lemma_split_nonempty(y.drop_last(), sep);
        let a = split_on(x, sep);
        let b = split_on(y.drop_last(), sep);
        if y.last() == sep {
            assert((a + b).push(seq![]) =~= a + b.push(seq![]));
        } else {
            assert((a + b).update((a + b).len() - 1, (a + b).last().push(y.last())) =~= a + b.update(
                b.len() - 1,
                b.last().push(y.last()),
            ));
        }
    }
}

pub(crate) proof fn lemma_split_no_sep<A>(n: Seq<A>, sep: A)
    requires
        !n.contains(sep),
    ensures
        split_on(n, sep) == seq![n],
    decreases n.len(),
{
    if n.len() > 0 {
        assert(!n.drop_last().contains(sep)) by {
            if n.drop_last().contains(sep) {
                let i = choose|i: int| 0 <= i < n.drop_last().len() && n.drop_last()[i] == sep;
                assert(n[i] == sep);
            }
        }
        lemma_split_no_sep(n.drop_last(), sep);
        assert(n.last() != sep) by {
            assert(n[n.len() - 1] == n.last());
        }
        assert(n.drop_last().push(n.last()) == n);
        let r = split_on(n.drop_last(), sep);
        assert(r.update(r.len() - 1, r.last().push(n.last())) =~= seq![n]);
    } else {
        assert(n =~= Seq::<A>::empty());
    }
}

proof fn lemma_pieces_single_empty()
    ensures
        pieces_comps(seq![Seq::<char>::empty()]) == Seq::<Comp>::empty(),
{
    let e = seq![Seq::<char>::empty()];
    assert(e.drop_last() == Seq::<Seq<char>>::empty());
    assert(pieces_comps(Seq::<Seq<char>>::empty()) == Seq::<Comp>::empty());
    assert(piece_comp(e.last()) is None);
    assert(Seq::<Comp>::empty() + Seq::<Comp>::empty() =~= Seq::<Comp>::empty());
}

pub(crate) proof fn lemma_pieces_comps_concat(a: Seq<Seq<char>>, b: Seq<Seq<char>>)
    ensures
        pieces_comps(a + b) == pieces_comps(a) + pieces_comps(b),
    decreases b.len(),
{
    if b.len() > 0 {
        assert((a + b).drop_last() == a + b.drop_last());
        lemma_pieces_comps_concat(a, b.drop_last());
        let tail = match piece_comp(b.last()) {
            Some(c) => seq![c],
            None => seq![],
        };
        assert(pieces_comps(a) + pieces_comps(b.drop_last()) + tail =~= pieces_comps(a) + (
        pieces_comps(b.drop_last()) + tail));
    } else {
        assert(a + b == a);
        assert(pieces_comps(a) + seq![] =~= pieces_comps(a));
    }
}

proof fn lemma_pieces_plain(names: Seq<Seq<char>>)
    requires
        forall|i: int| 0 <= i < names.len() ==> is_plain_name(#[trigger] names[i]),
    ensures
        pieces_comps(names) == normal_comps(names),
    decreases names.len(),
{
    if names.len() > 0 {
        lemma_pieces_plain(names.drop_last());
        assert(is_plain_name(names[names.len() - 1]));
        assert(normal_comps(names) =~= normal_comps(names.drop_last()).push(
            Comp::Normal(names.last()),
        ));
    }
}

pub(crate) proof fn lemma_split_join_names(names: Seq<Seq<char>>)
    requires
        names.len() >= 1,
        forall|i: int| 0 <= i < names.len() ==> is_plain_name(#[trigger] names[i]),
    ensures
        split_on(join_names(names), '/') == names,
        join_names(names).len() > 0,
        join_names(names)[0] == names[0][0],
    decreases names.len(),
{
    if names.len() == 1 {
        assert(is_plain_name(names[0]));
        lemma_split_no_sep(names[0], '/');
        assert(seq![names[0]] =~= names);
    } else {
        let init = names.drop_last();
        assert(is_plain_name(names[names.len() - 1]));
        lemma_split_join_names(init);
        lemma_split_no_sep(names.last(), '/');
        lemma_split_concat(join_names(init), names.last(), '/');
        assert(init + seq![names.last()] =~= names);
    }
}

/// Joining a relative path made of plain names onto any path `t` gives a path
/// whose components are those of `t` followed by the names.
pub proof fn lemma_join_components(t: Seq<char>, names: Seq<Seq<char>>)
    requires
        names.len() >= 1,
        forall|i: int| 0 <= i < names.len() ==> is_plain_name(#[trigger] names[i]),
    ensures
        components(spec_join(t, join_names(names))) == components(t) + normal_comps(names),
{
    let r = join_names(names);
    lemma_split_join_names(names);
    lemma_pieces_plain(names);
    assert(is_plain_name(names[0]));
    assert(!is_absolute(r)) by {
        assert(names[0][0] != '/') by {
            assert(names[0].contains(names[0][0]));
        }
    }
    let j = spec_join(t, r);
    if t.len() == 0 {
        assert(j == r);
        assert(split_on(t, '/') == seq![Seq::<char>::empty()]);
        lemma_pieces_single_empty();
        assert(components(t) =~= Seq::<Comp>::empty());
        assert(split_on(j, '/')[0] == names[0]);
        assert(components(j) =~= components(t) + normal_comps(names));
    } else if t.last() != '/' {
        assert(j == t + seq!['/'] + r);
        lemma_split_concat(t, r, '/');
        lemma_split_nonempty(t, '/');
        lemma_pieces_comps_concat(split_on(t, '/'), names);
        assert(j[0] == t[0]);
        assert(split_on(j, '/')[0] == split_on(t, '/')[0]);
        assert(components(j) =~= components(t) + normal_comps(names));
    } else {
        let t0 = t.drop_last();
        assert(j == t + r);
        assert(t == t0 + seq!['/'] + Seq::<char>::empty());
        assert(j == t0 + seq!['/'] + r);
        lemma_split_concat(t0, r, '/');
        lemma_split_concat(t0, Seq::<char>::empty(), '/');
        lemma_split_nonempty(t0, '/');
        assert(split_on(Seq::<char>::empty(), '/') == seq![Seq::<char>::empty()]);
        lemma_pieces_comps_concat(split_on(t0, '/'), names);
        lemma_pieces_comps_concat(split_on(t0, '/'), seq![Seq::<char>::empty()]);
        lemma_pieces_single_empty();
        assert(j[0] == t[0]);
        assert(split_on(j, '/')[0] == split_on(t0, '/')[0]);
        assert(split_on(t, '/')[0] == split_on(t0, '/')[0]);
        assert(pieces_comps(split_on(t, '/')) =~= pieces_comps(split_on(t0, '/')));
        assert(components(j) =~= components(t) + normal_comps(names));
    }
}

} // verus!
