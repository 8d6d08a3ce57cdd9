//! Reading `git worktree list --porcelain`.
use vstd::prelude::*;
use crate::path::split_on;
use crate::text::{chars_of, string_of};

verus! {

/// One worktree as Git lists it.
#[derive(Debug)]
pub struct WorktreeEntry {
    pub path: String,
    pub head: Option<String>,
    pub branch: Option<String>,
    pub detached: bool,
    pub bare: bool,
    pub prunable: bool,
    pub prunable_reason: Option<String>,
}

/// The worktrees of one repository.
#[derive(Debug)]
pub struct WorktreeList {
    pub ok: bool,
    pub repo: String,
    pub worktrees: Vec<WorktreeEntry>,
}

/// The content of a `WorktreeEntry`.
pub struct EntryView {
    pub path: Seq<char>,
    pub head: Option<Seq<char>>,
    pub branch: Option<Seq<char>>,
    pub detached: bool,
    pub bare: bool,
    pub prunable: bool,
    pub prunable_reason: Option<Seq<char>>,
}

/// The view of an optional string.
pub open spec fn opt_view(o: Option<String>) -> Option<Seq<char>> {
    match o {
        Some(s) => Some(s@),
        None => None,
    }
}

impl View for WorktreeEntry {
    type V = EntryView;

    open spec fn view(&self) -> EntryView {
        EntryView {
            path: self.path@,
            head: opt_view(self.head),
            branch: opt_view(self.branch),
            detached: self.detached,
            bare: self.bare,
            prunable: self.prunable,
            prunable_reason: opt_view(self.prunable_reason),
        }
    }
}

/// The views of a sequence of entries.
pub open spec fn entry_views(v: Seq<WorktreeEntry>) -> Seq<EntryView> {
    v.map_values(|e: WorktreeEntry| e@)
}

/// The view of an optional entry.
pub open spec fn opt_entry_view(o: Option<WorktreeEntry>) -> Option<EntryView> {
    match o {
        Some(e) => Some(e@),
        None => None,
    }
}

/// A line without the carriage return that ends it, if any.
pub open spec fn strip_cr(line: Seq<char>) -> Seq<char> {
    if line.len() > 0 && line.last() == '\r' {
        line.drop_last()
    } else {
        line
    }
}

/// The lines of `s` (`str::lines`): split at line feeds, a carriage return
/// before a line feed dropped, and no empty last line after a final line feed.
pub open spec fn spec_lines(s: Seq<char>) -> Seq<Seq<char>> {
    let pieces = split_on(s, '\n');
    let done = pieces.drop_last().map_values(|p: Seq<char>| strip_cr(p));
    if pieces.last().len() == 0 {
        done
    } else {
        done.push(pieces.last())
    }
}

/// Whether `s` starts with `p`.
pub open spec fn has_prefix(s: Seq<char>, p: Seq<char>) -> bool {
    p.len() <= s.len() && s.take(p.len() as int) == p
}

/// `s` with `p` removed from its start as many times as it occurs there
/// (`str::trim_start_matches` with a non-empty text).
pub open spec fn strip_all(s: Seq<char>, p: Seq<char>) -> Seq<char>
    decreases s.len(),
{
    if p.len() > 0 && has_prefix(s, p) {
        strip_all(s.skip(p.len() as int), p)
    } else {
        s
    }
}

/// A fresh entry for the worktree at `path`.
pub open spec fn new_entry(path: Seq<char>) -> EntryView {
    EntryView {
        path,
        head: None,
        branch: None,
        detached: false,
        bare: false,
        prunable: false,
        prunable_reason: None,
    }
}

/// What an attribute line does to the entry it follows.
pub open spec fn apply_attribute(e: EntryView, line: Seq<char>) -> EntryView {
    if has_prefix(line, "HEAD "@) {
        EntryView { head: Some(line.skip(5)), ..e }
    } else if has_prefix(line, "branch "@) {
        EntryView { branch: Some(strip_all(line.skip(7), "refs/heads/"@)), ..e }
    } else if line == "detached"@ {
        EntryView { detached: true, ..e }
    } else if line == "bare"@ {
        EntryView { bare: true, ..e }
    } else if has_prefix(line, "prunable "@) {
        EntryView { prunable: true, prunable_reason: Some(line.skip(9)), ..e }
    } else if line == "prunable"@ {
        EntryView { prunable: true, ..e }
    } else {
        e
    }
}

/// The entries finished so far, with the open one (if any) closed.
pub open spec fn close(entries: Seq<EntryView>, current: Option<EntryView>) -> Seq<EntryView> {
    match current {
        Some(e) => entries.push(e),
        None => entries,
    }
}

/// The state after one line: an empty line closes the open entry, a
/// `worktree <path>` line closes it and opens a new one, any other line
/// updates the open entry (and is ignored when none is open).
pub open spec fn porcelain_step(
    state: (Seq<EntryView>, Option<EntryView>),
    line: Seq<char>,
) -> (Seq<EntryView>, Option<EntryView>) {
    let (entries, current) = state;
    if line.len() == 0 {
        (close(entries, current), None)
    } else if has_prefix(line, "worktree "@) {
        (close(entries, current), Some(new_entry(line.skip(9))))
    } else {
        match current {
            None => (entries, None),
            Some(e) => (entries, Some(apply_attribute(e, line))),
        }
    }
}

/// The state after the given lines.
pub open spec fn porcelain_run(lines: Seq<Seq<char>>) -> (Seq<EntryView>, Option<EntryView>)
    decreases lines.len(),
{
    if lines.len() == 0 {
        (seq![], None)
    } else {
        porcelain_step(porcelain_run(lines.drop_last()), lines.last())
    }
}

/// The worktrees that `git worktree list --porcelain` describes in `output`.
pub open spec fn spec_parse_worktree_porcelain(output: Seq<char>) -> Seq<EntryView> {
    let (entries, current) = porcelain_run(spec_lines(output));
    close(entries, current)
}

/// The paths of the `worktree <path>` lines among `lines`, in order.
pub open spec fn opening_paths(lines: Seq<Seq<char>>) -> Seq<Seq<char>>
    decreases lines.len(),
{
    if lines.len() == 0 {
        seq![]
    } else {
        let rest = opening_paths(lines.drop_last());
        if has_prefix(lines.last(), "worktree "@) {
            rest.push(lines.last().skip(9))
        } else {
            rest
        }
    }
}

/// The paths of a sequence of entries.
pub open spec fn entry_paths(es: Seq<EntryView>) -> Seq<Seq<char>> {
    es.map_values(|e: EntryView| e.path)
}

proof fn lemma_run_paths(lines: Seq<Seq<char>>)
    ensures
        entry_paths(close(porcelain_run(lines).0, porcelain_run(lines).1)) == opening_paths(lines),
    decreases lines.len(),
{
    if lines.len() > 0 {
        let prev = lines.drop_last();
        lemma_run_paths(prev);
        let (entries, current) = porcelain_run(prev);
        let line = lines.last();
        let closed = close(entries, current);
        reveal_strlit("worktree ");
        if line.len() == 0 {
        } else if has_prefix(line, "worktree "@) {
            let e = new_entry(line.skip(9));
            assert(entry_paths(closed.push(e)) == entry_paths(closed).push(e.path));
        } else {
            match current {
                None => {},
                Some(c) => {
                    let a = apply_attribute(c, line);
                    assert(a.path == c.path);
                    assert(entry_paths(entries.push(a)) == entry_paths(entries).push(a.path));
                    assert(entry_paths(entries.push(c)) == entry_paths(entries).push(c.path));
                },
            }
        }
    }
}

/// Listing gives one entry per `worktree <path>` line of Git's output, in
/// the order of those lines, each with the path that its line names.
pub proof fn lemma_porcelain_entries_follow_worktree_lines(output: Seq<char>)
    ensures
        entry_paths(spec_parse_worktree_porcelain(output)) == opening_paths(spec_lines(output)),
        spec_parse_worktree_porcelain(output).len() == opening_paths(spec_lines(output)).len(),
{
    lemma_run_paths(spec_lines(output));
}

proof fn lemma_prefix_char(s: Seq<char>, p: Seq<char>, i: int)
    requires
        has_prefix(s, p),
        0 <= i < p.len(),
    ensures
        s[i] == p[i],
{
    assert(s.take(p.len() as int)[i] == s[i]);
}

/// What one line of Git's porcelain output does, field by field: an empty
/// line closes the open entry; a `worktree <path>` line closes it and opens a
/// fresh one at `<path>` (no `HEAD`, no branch, not detached, bare or
/// prunable); any other line leaves the finished entries alone, is ignored
/// outside an entry, and otherwise keeps the open entry's path and sets only
/// what it names: `HEAD <sha>` the head, `branch <ref>` the branch (without
/// `refs/heads/`), `detached` the detached flag, `bare` the bare flag, and
/// `prunable [<reason>]` the prunable flag (and the reason).
pub proof fn lemma_porcelain_line(
    entries: Seq<EntryView>,
    current: Option<EntryView>,
    line: Seq<char>,
)
    ensures
        ({
            let (es2, cur2) = porcelain_step((entries, current), line);
            let closed = match current {
                Some(e) => entries.push(e),
                None => entries,
            };
            &&& line.len() == 0 ==> es2 == closed && cur2 is None
            &&& line.len() > 0 && has_prefix(line, "worktree "@) ==> es2 == closed && cur2 == Some(
                EntryView {
                    path: line.skip(9),
                    head: None,
                    branch: None,
                    detached: false,
                    bare: false,
                    prunable: false,
                    prunable_reason: None,
                },
            )
            &&& line.len() > 0 && !has_prefix(line, "worktree "@) ==> {
                &&& es2 == entries
                &&& current is None ==> cur2 is None
                &&& current matches Some(e) ==> cur2 matches Some(e2) && {
                    &&& e2.path == e.path
                    &&& e2.detached == (e.detached || line == "detached"@)
                    &&& e2.bare == (e.bare || line == "bare"@)
                    &&& e2.head == if has_prefix(line, "HEAD "@) {
                        Some(line.skip(5))
                    } else {
                        e.head
                    }
                    &&& e2.branch == if has_prefix(line, "branch "@) {
                        Some(strip_all(line.skip(7), "refs/heads/"@))
                    } else {
                        e.branch
                    }
                    &&& e2.prunable == (e.prunable || line == "prunable"@ || has_prefix(
                        line,
                        "prunable "@,
                    ))
                    &&& e2.prunable_reason == if has_prefix(line, "prunable "@) {
                        Some(line.skip(9))
                    } else {
                        e.prunable_reason
                    }
                }
            }
        }),
{
    reveal_strlit("worktree ");
    reveal_strlit("HEAD ");
    reveal_strlit("branch ");
    reveal_strlit("detached");
    reveal_strlit("bare");
    reveal_strlit("prunable ");
    reveal_strlit("prunable");
    if line.len() > 0 && !has_prefix(line, "worktree "@) {
        if let Some(e) = current {
            // The tags exclude each other by their first characters or lengths.
            if has_prefix(line, "HEAD "@) {
                lemma_prefix_char(line, "HEAD "@, 0);
            }
            if has_prefix(line, "branch "@) {
                lemma_prefix_char(line, "branch "@, 0);
                lemma_prefix_char(line, "branch "@, 1);
            }
            if has_prefix(line, "prunable "@) {
                lemma_prefix_char(line, "prunable "@, 0);
                lemma_prefix_char(line, "prunable "@, 8);
            }
            if line == "detached"@ {
                assert(line[0] == 'd');
            }
            if line == "bare"@ {
                assert(line[0] == 'b' && line[1] == 'a');
            }
            if line == "prunable"@ {
                assert(line.len() == 8);
            }
        }
    }
}

/// Whether line `j` of `lines` opens an entry.
pub open spec fn opens_entry(lines: Seq<Seq<char>>, j: int) -> bool {
    lines[j].len() > 0 && has_prefix(lines[j], "worktree "@)
}

/// Whether lines `a` (exclusive) to `b` (exclusive) are attribute lines: not
/// empty and not opening an entry.
pub open spec fn attribute_lines(lines: Seq<Seq<char>>, a: int, b: int) -> bool {
    forall|j: int| a < j < b ==> #[trigger] lines[j].len() > 0 && !has_prefix(lines[j], "worktree "@)
}

proof fn lemma_run_take(lines: Seq<Seq<char>>, i: int)
    requires
        0 <= i < lines.len(),
    ensures
        porcelain_run(lines.take(i + 1)) == porcelain_step(porcelain_run(lines.take(i)), lines[i]),
{
    assert(lines.take(i + 1).drop_last() =~= lines.take(i));
    assert(lines.take(i + 1).last() == lines[i]);
}

/// Inside an entry: after its opening line `a` and the attribute lines up
/// to `i`, the finished entries are those before it, and the open entry has
/// the opening line's path and is detached (bare) exactly when one of those
/// attribute lines is `detached` (`bare`).
proof fn lemma_inside_entry(lines: Seq<Seq<char>>, a: int, i: int)
    requires
        0 <= a < i <= lines.len(),
        opens_entry(lines, a),
        attribute_lines(lines, a, i),
    ensures
        porcelain_run(lines.take(i)).0 == close(
            porcelain_run(lines.take(a)).0,
            porcelain_run(lines.take(a)).1,
        ),
        porcelain_run(lines.take(i)).1 is Some,
        porcelain_run(lines.take(i)).1->0.path == lines[a].skip(9),
        porcelain_run(lines.take(i)).1->0.detached == exists|j: int|
            a < j < i && #[trigger] lines[j] == "detached"@,
        porcelain_run(lines.take(i)).1->0.bare == exists|j: int|
            a < j < i && #[trigger] lines[j] == "bare"@,
    decreases i - a,
{
    if i == a + 1 {
        lemma_run_take(lines, a);
        let r = porcelain_run(lines.take(a));
        lemma_porcelain_line(r.0, r.1, lines[a]);
    } else {
        lemma_inside_entry(lines, a, i - 1);
        lemma_run_take(lines, i - 1);
        let r = porcelain_run(lines.take(i - 1));
        assert(lines[i - 1].len() > 0 && !has_prefix(lines[i - 1], "worktree "@));
        lemma_porcelain_line(r.0, r.1, lines[i - 1]);
        assert((exists|j: int| a < j < i && #[trigger] lines[j] == "detached"@) == ((exists|
            j: int,
        | a < j < i - 1 && #[trigger] lines[j] == "detached"@) || lines[i - 1] == "detached"@));
        assert((exists|j: int| a < j < i && #[trigger] lines[j] == "bare"@) == ((exists|j: int|
            a < j < i - 1 && #[trigger] lines[j] == "bare"@) || lines[i - 1] == "bare"@));
    }
}

/// Finished entries stay finished: the entries done after `m` lines begin
/// those done after `n >= m` lines, and those of the whole output.
proof fn lemma_entries_stay(lines: Seq<Seq<char>>, m: int, n: int)
    requires
        0 <= m <= n <= lines.len(),
    ensures
        porcelain_run(lines.take(m)).0.len() <= porcelain_run(lines.take(n)).0.len(),
        forall|k: int|
            0 <= k < porcelain_run(lines.take(m)).0.len() ==> #[trigger] porcelain_run(
                lines.take(n),
            ).0[k] == porcelain_run(lines.take(m)).0[k],
    decreases n - m,
{
    if m < n {
        lemma_entries_stay(lines, m, n - 1);
        lemma_run_take(lines, n - 1);
        let r = porcelain_run(lines.take(n - 1));
        lemma_porcelain_line(r.0, r.1, lines[n - 1]);
    }
}

/// One entry per `worktree <path>` line, with what its attribute lines say:
/// for an opening line `a` whose attribute lines run up to `b` (where the
/// output ends, or an empty line or the next opening line stands), the
/// entry counted by the opening lines before `a` has that path, and is
/// detached (bare) exactly when one of its attribute lines is the word
/// `detached` (`bare`).
pub proof fn lemma_porcelain_entry_attributes(output: Seq<char>, a: int, b: int)
    requires
        0 <= a < b <= spec_lines(output).len(),
        opens_entry(spec_lines(output), a),
        attribute_lines(spec_lines(output), a, b),
        b < spec_lines(output).len() ==> spec_lines(output)[b].len() == 0 || has_prefix(
            spec_lines(output)[b],
            "worktree "@,
        ),
    ensures
        ({
            let lines = spec_lines(output);
            let es = spec_parse_worktree_porcelain(output);
            let k = opening_paths(lines.take(a)).len() as int;
            &&& k < es.len()
            &&& es[k].path == lines[a].skip(9)
            &&& es[k].detached == exists|j: int| a < j < b && #[trigger] lines[j] == "detached"@
            &&& es[k].bare == exists|j: int| a < j < b && #[trigger] lines[j] == "bare"@
        }),
{
    let lines = spec_lines(output);
    lemma_inside_entry(lines, a, b);
    let ra = porcelain_run(lines.take(a));
    let before = close(ra.0, ra.1);
    lemma_run_paths(lines.take(a));
    assert(entry_paths(before).len() == before.len());
    let k = before.len() as int;
    let rb = porcelain_run(lines.take(b));
    let e = rb.1->0;
    assert(lines.take(lines.len() as int) =~= lines);
    if b == lines.len() {
        assert(spec_parse_worktree_porcelain(output) == rb.0.push(e));
    } else {
        lemma_run_take(lines, b);
        lemma_porcelain_line(rb.0, rb.1, lines[b]);
        let rb1 = porcelain_run(lines.take(b + 1));
        assert(rb1.0 == rb.0.push(e));
        lemma_entries_stay(lines, b + 1, lines.len() as int);
        let rl = porcelain_run(lines);
        assert(rl.0[k] == e);
        assert(spec_parse_worktree_porcelain(output) == close(rl.0, rl.1));
        match rl.1 {
            Some(c) => assert(rl.0.push(c)[k] == e),
            None => {},
        }
    }
}

/// The lines of `v` (see `spec_lines`).
pub fn lines_of(v: &Vec<char>) -> (out: Vec<Vec<char>>)
    ensures
        out@.map_values(|x: Vec<char>| x@) == spec_lines(v@),
{
    let ghost pieces = split_on(v@, '\n');
    let mut out: Vec<Vec<char>> = Vec::new();
    let mut cur: Vec<char> = Vec::new();
    let mut i: usize = 0;
    proof {
        assert(v@.take(0) == Seq::<char>::empty());
        assert(out@.map_values(|x: Vec<char>| x@) =~= Seq::<Seq<char>>::empty());
    }
    while i < v.len()
        invariant
            i <= v.len(),
            split_on(v@.take(i as int), '\n').last() == cur@,
            out@.map_values(|x: Vec<char>| x@) == split_on(v@.take(i as int), '\n').drop_last().map_values(
                |p: Seq<char>| strip_cr(p),
            ),
        decreases v.len() - i,
    {
        let c = v[i];
        proof {
            assert(v@.take(i + 1).drop_last() == v@.take(i as int));
            crate::path::lemma_split_nonempty(v@.take(i as int), '\n');
        }
        let ghost r = split_on(v@.take(i as int), '\n');
        if c == '\n' {
            let mut line = cur;
            if line.len() > 0 && line[line.len() - 1] == '\r' {
                line.pop();
            }
            let ghost lv = line@;
            out.push(line);
            cur = Vec::new();
            proof {
                assert(r.push(seq![]).drop_last() == r);
                assert(r == r.drop_last().push(r.last()));
                assert(r.map_values(|p: Seq<char>| strip_cr(p)) == r.drop_last().map_values(
                    |p: Seq<char>| strip_cr(p),
                ).push(strip_cr(r.last())));
                assert(out@.map_values(|x: Vec<char>| x@) == out@.drop_last().map_values(
                    |x: Vec<char>| x@,
                ).push(lv));
            }
        } else {
            cur.push(c);
            proof {
                let u = r.update(r.len() - 1, r.last().push(c));
                assert(u.drop_last() == r.drop_last());
            }
        }
        i += 1;
    }
    proof {
        assert(v@.take(v.len() as int) == v@);
    }
    if cur.len() > 0 {
        let ghost cv = cur@;
        out.push(cur);
        proof {
            assert(out@.map_values(|x: Vec<char>| x@) == out@.drop_last().map_values(
                |x: Vec<char>| x@,
            ).push(cv));
        }
    }
    out
}

/// Whether `s` starts with `p`.
pub fn starts_with_chars(s: &Vec<char>, p: &Vec<char>) -> (b: bool)
    ensures
        b == has_prefix(s@, p@),
{
    if p.len() > s.len() {
        return false;
    }
    let mut i: usize = 0;
    while i < p.len()
        invariant
            i <= p.len() <= s.len(),
            s@.take(i as int) == p@.take(i as int),
        decreases p.len() - i,
    {
        if s[i] != p[i] {
            proof {
                assert(s@.take(p.len() as int)[i as int] != p@[i as int]);
            }
            return false;
        }
        proof {
            assert(s@.take(i + 1) == s@.take(i as int).push(s@[i as int]));
            assert(p@.take(i + 1) == p@.take(i as int).push(p@[i as int]));
        }
        i += 1;
    }
    proof {
        assert(p@.take(p.len() as int) == p@);
    }
    true
}

/// Whether `a` and `b` hold the same characters.
pub fn eq_chars(a: &Vec<char>, b: &Vec<char>) -> (r: bool)
    ensures
        r == (a@ == b@),
{
    if a.len() != b.len() {
        return false;
    }
    let r = starts_with_chars(a, b);
    proof {
        if r {
            assert(a@.take(b.len() as int) == a@);
        }
        if a@ == b@ {
            assert(a@.take(b.len() as int) == a@);
        }
    }
    r
}

/// `s` without its first `n` characters.
pub fn skip_chars(s: &Vec<char>, n: usize) -> (r: Vec<char>)
    requires
        n <= s.len(),
    ensures
        r@ == s@.skip(n as int),
{
    let mut r: Vec<char> = Vec::new();
    let mut i: usize = n;
    while i < s.len()
        invariant
            n <= i <= s.len(),
            r@ == s@.subrange(n as int, i as int),
        decreases s.len() - i,
    {
        r.push(s[i]);
        i += 1;
    }
    r
}

fn strip_all_exec(s: &Vec<char>, p: &Vec<char>) -> (r: Vec<char>)
    requires
        p.len() > 0,
    ensures
        r@ == strip_all(s@, p@),
{
    let mut cur = s.clone();
    while starts_with_chars(&cur, p)
        invariant
            p.len() > 0,
            strip_all(cur@, p@) == strip_all(s@, p@),
        decreases cur.len(),
    {
        cur = skip_chars(&cur, p.len());
    }
    cur
}

fn apply_attribute_exec(e: WorktreeEntry, line: &Vec<char>) -> (r: WorktreeEntry)
    ensures
        r@ == apply_attribute(e@, line@),
{
    let head_tag = chars_of("HEAD ");
    let branch_tag = chars_of("branch ");
    let detached_tag = chars_of("detached");
    let bare_tag = chars_of("bare");
    let prunable_tag = chars_of("prunable ");
    let prunable_word = chars_of("prunable");
    proof {
        reveal_strlit("HEAD ");
        reveal_strlit("branch ");
        reveal_strlit("prunable ");
    }
    if starts_with_chars(line, &head_tag) {
        let rest = skip_chars(line, 5);
        WorktreeEntry { head: Some(string_of(rest.as_slice())), ..e }
    } else if starts_with_chars(line, &branch_tag) {
        let rest = skip_chars(line, 7);
        let heads = chars_of("refs/heads/");
        proof {
            reveal_strlit("refs/heads/");
        }
        let name = strip_all_exec(&rest, &heads);
        WorktreeEntry { branch: Some(string_of(name.as_slice())), ..e }
    } else if eq_chars(line, &detached_tag) {
        WorktreeEntry { detached: true, ..e }
    } else if eq_chars(line, &bare_tag) {
        WorktreeEntry { bare: true, ..e }
    } else if starts_with_chars(line, &prunable_tag) {
        let rest = skip_chars(line, 9);
        WorktreeEntry { prunable: true, prunable_reason: Some(string_of(rest.as_slice())), ..e }
    } else if eq_chars(line, &prunable_word) {
        WorktreeEntry { prunable: true, ..e }
    } else {
        e
    }
}

fn porcelain_line(
    entries: &mut Vec<WorktreeEntry>,
    current: Option<WorktreeEntry>,
    line: &Vec<char>,
) -> (next: Option<WorktreeEntry>)
    ensures
        (entry_views(final(entries)@), opt_entry_view(next)) == porcelain_step(
            (entry_views(old(entries)@), opt_entry_view(current)),
            line@,
        ),
{
    let worktree_tag = chars_of("worktree ");
    proof {
        reveal_strlit("worktree ");
    }
    let opens = starts_with_chars(line, &worktree_tag);
    if line.len() == 0 || opens {
        let ghost before = entry_views(entries@);
        match current {
            Some(e) => {
                let ghost ev = e@;
                entries.push(e);
                proof {
                    assert(entry_views(entries@) == before.push(ev));
                }
            },
            None => {},
        }
        if line.len() == 0 {
            None
        } else {
            let path = skip_chars(line, 9);
            Some(
                WorktreeEntry {
                    path: string_of(path.as_slice()),
                    head: None,
                    branch: None,
                    detached: false,
                    bare: false,
                    prunable: false,
                    prunable_reason: None,
                },
            )
        }
    } else {
        match current {
            None => None,
            Some(e) => Some(apply_attribute_exec(e, line)),
        }
    }
}

/// Reads the output of `git worktree list --porcelain`: one entry per
/// `worktree <path>` line, filled in by the `HEAD <sha>`, `branch <ref>`
/// (without its `refs/heads/` prefix), `detached`, `bare` and
/// `prunable [<reason>]` lines after it; an empty line ends an entry, and
/// lines outside any entry are ignored.
pub fn parse_worktree_porcelain(output: &str) -> (entries: Vec<WorktreeEntry>)
    ensures
        entry_views(entries@) == spec_parse_worktree_porcelain(output@),
{
    let v = chars_of(output);
    let lines = lines_of(&v);
    let ghost ls = lines@.map_values(|x: Vec<char>| x@);
    let mut entries: Vec<WorktreeEntry> = Vec::new();
    let mut current: Option<WorktreeEntry> = None;
    let mut i: usize = 0;
    proof {
        assert(ls.take(0) == Seq::<Seq<char>>::empty());
        assert(entry_views(entries@) =~= Seq::<EntryView>::empty());
    }
    while i < lines.len()
        invariant
            i <= lines.len(),
            ls == lines@.map_values(|x: Vec<char>| x@),
            ls == spec_lines(output@),
            (entry_views(entries@), opt_entry_view(current)) == porcelain_run(ls.take(i as int)),
        decreases lines.len() - i,
    {
        proof {
            assert(ls.take(i + 1).drop_last() == ls.take(i as int));
            assert(ls.take(i + 1).last() == lines@[i as int]@);
        }
        current = porcelain_line(&mut entries, current, &lines[i]);
        i += 1;
    }
    proof {
        assert(ls.take(lines.len() as int) == ls);
    }
    let ghost before = entry_views(entries@);
    match current {
        Some(e) => {
            let ghost ev = e@;
            entries.push(e);
            proof {
                assert(entry_views(entries@) == before.push(ev));
            }
        },
        None => {},
    }
    entries
}

} // verus!
