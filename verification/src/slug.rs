//! Turning a free-form label into a worktree id that is safe in a path.
use vstd::prelude::*;
use crate::text::{
    all_ascii, ascii_alnum, ascii_lower, chars_of, is_ascii_alnum, is_ascii_char, is_ascii_upper,
    lower_char, lower_char_exec, string_of,
};

verus! {

/// The longest id (in characters) that a slug may have.
pub const SLUG_MAX: usize = 48;

/// The characters of `raw` after lower-casing each (`lower_char`), flattened.
pub open spec fn lowered(raw: Seq<char>) -> Seq<char>
    decreases raw.len(),
{
    if raw.len() == 0 {
        seq![]
    } else {
        lowered(raw.drop_last()) + lower_char(raw.last())
    }
}

/// Keeps ASCII letters and digits, and turns every run of other characters
/// that follows a kept character into a single `-`.
pub open spec fn collapse(s: Seq<char>) -> Seq<char>
    decreases s.len(),
{
    if s.len() == 0 {
        seq![]
    } else {
        let prev = collapse(s.drop_last());
        let c = s.last();
        if is_ascii_alnum(c) {
            prev.push(c)
        } else if prev.len() > 0 && prev.last() != '-' {
            prev.push('-')
        } else {
            prev
        }
    }
}

/// `s` without its trailing `-` characters.
pub open spec fn trim_dashes_end(s: Seq<char>) -> Seq<char>
    decreases s.len(),
{
    if s.len() > 0 && s.last() == '-' {
        trim_dashes_end(s.drop_last())
    } else {
        s
    }
}

/// At most the first `SLUG_MAX` characters of `s`.
pub open spec fn clip(s: Seq<char>) -> Seq<char> {
    if s.len() > SLUG_MAX {
        s.take(SLUG_MAX as int)
    } else {
        s
    }
}

/// The id used when a label leaves nothing behind.
pub open spec fn fallback_slug() -> Seq<char> {
    seq!['w', 'o', 'r', 'k', 't', 'r', 'e', 'e']
}

/// The slug of lower-cased text `low`: runs of characters other than ASCII
/// letters and digits turned into one `-` (none at the start), clipped to
/// `SLUG_MAX` characters, trailing `-` removed, and `worktree` when nothing is
/// left.
pub open spec fn slug_of_lowered(low: Seq<char>) -> Seq<char> {
    let t = trim_dashes_end(clip(collapse(low)));
    if t.len() == 0 {
        fallback_slug()
    } else {
        t
    }
}

/// The slug of `raw`: the slug of its lower-cased characters.
pub open spec fn spec_sanitize_slug(raw: Seq<char>) -> Seq<char> {
    slug_of_lowered(lowered(raw))
}

/// Whether `s` has the shape of a slug: 1 to `SLUG_MAX` characters, each an
/// ASCII letter, digit or `-`, with no `-` at either end and no two `-` in a row.
pub open spec fn is_slug_shaped(s: Seq<char>) -> bool {
    &&& 0 < s.len() <= SLUG_MAX
    &&& forall|i: int| 0 <= i < s.len() ==> is_ascii_alnum(#[trigger] s[i]) || s[i] == '-'
    &&& s[0] != '-'
    &&& s.last() != '-'
    &&& forall|i: int| 0 <= i < s.len() - 1 ==> !(#[trigger] s[i] == '-' && s[i + 1] == '-')
}

/// Whether no character of `s` is an ASCII upper-case letter.
pub open spec fn no_ascii_upper(s: Seq<char>) -> bool {
    forall|i: int| 0 <= i < s.len() ==> !is_ascii_upper(#[trigger] s[i])
}

/// Every character of `collapse(s)` is an ASCII letter, digit or `-`; it does
/// not start with `-`, has no two `-` in a row, and grows by at most one
/// character per character of `s`.
proof fn lemma_collapse_shape(s: Seq<char>)
    ensures
        forall|i: int| 0 <= i < collapse(s).len() ==> is_ascii_alnum(#[trigger] collapse(s)[i])
            || collapse(s)[i] == '-',
        collapse(s).len() > 0 ==> collapse(s)[0] != '-',
        forall|i: int|
            0 <= i < collapse(s).len() - 1 ==> !(#[trigger] collapse(s)[i] == '-' && collapse(s)[i
                + 1] == '-'),
        collapse(s).len() <= s.len(),
        no_ascii_upper(s) ==> no_ascii_upper(collapse(s)),
    decreases s.len(),
{
    if s.len() > 0 {
        lemma_collapse_shape(s.drop_last());
    }
}

/// `collapse` of a prefix is a prefix of `collapse`.
proof fn lemma_collapse_prefix(s: Seq<char>, i: int)
    requires
        0 <= i <= s.len(),
    ensures
        collapse(s.take(i)).len() <= collapse(s).len(),
        collapse(s).take(collapse(s.take(i)).len() as int) == collapse(s.take(i)),
    decreases s.len(),
{
    if i == s.len() {
        assert(s.take(i) == s);
    } else {
        lemma_collapse_prefix(s.drop_last(), i);
        assert(s.drop_last().take(i) == s.take(i));
    }
}

/// One more character adds at most one character to `collapse`.
proof fn lemma_collapse_step(s: Seq<char>, i: int)
    requires
        0 <= i < s.len(),
    ensures
        collapse(s.take(i + 1)).len() <= collapse(s.take(i)).len() + 1,
{
    assert(s.take(i + 1).drop_last() == s.take(i));
}

proof fn lemma_trim_dashes_end(s: Seq<char>)
    ensures
        trim_dashes_end(s).len() <= s.len(),
        trim_dashes_end(s) == s.take(trim_dashes_end(s).len() as int),
        trim_dashes_end(s).len() > 0 ==> trim_dashes_end(s).last() != '-',
    decreases s.len(),
{
    if s.len() > 0 && s.last() == '-' {
        lemma_trim_dashes_end(s.drop_last());
    } else {
        assert(s.take(s.len() as int) == s);
    }
}

/// The characters of `raw` after lower-casing each of them.
fn lower_all(raw: &Vec<char>) -> (out: Vec<char>)
    ensures
        out@ == lowered(raw@),
{
    let mut out: Vec<char> = Vec::new();
    let mut i: usize = 0;
    while i < raw.len()
        invariant
            i <= raw.len(),
            out@ == lowered(raw@.take(i as int)),
        decreases raw.len() - i,
    {
        let low = lower_char_exec(raw[i]);
        let mut j: usize = 0;
        let ghost before = out@;
        while j < low.len()
            invariant
                j <= low.len(),
                low@ == lower_char(raw@[i as int]),
                out@ == before + low@.take(j as int),
            decreases low.len() - j,
        {
            out.push(low[j]);
            j += 1;
            assert(before + low@.take(j as int) == (before + low@.take(j - 1)).push(low@[j - 1]));
        }
        assert(low@.take(j as int) == low@);
        assert(raw@.take(i + 1).drop_last() == raw@.take(i as int));
        i += 1;
    }
    assert(raw@.take(raw.len() as int) == raw@);
    out
}

/// Turns a free-form label into a worktree id: lower case, ASCII letters and
/// digits kept, every run of other characters after the first kept one turned
/// into a single `-`, at most `SLUG_MAX` characters, no trailing `-`, and
/// `worktree` when nothing is left.
pub fn sanitize_slug(raw: &str) -> (slug: String)
    ensures
        slug@ == spec_sanitize_slug(raw@),
{
    let chars = chars_of(raw);
    let low = lower_all(&chars);
    slug_from_lowered(&low)
}

/// The slug of already lower-cased characters (see `slug_of_lowered`).
pub fn slug_from_lowered(low: &Vec<char>) -> (slug: String)
    ensures
        slug@ == slug_of_lowered(low@),
{
    let mut out: Vec<char> = Vec::new();
    let mut i: usize = 0;
    while i < low.len() && out.len() < SLUG_MAX
        invariant
            i <= low.len(),
            out@ == collapse(low@.take(i as int)),
            out@.len() <= SLUG_MAX,
        decreases low.len() - i,
    {
        let c = low[i];
        proof {
            assert(low@.take(i + 1).drop_last() == low@.take(i as int));
            lemma_collapse_step(low@, i as int);
        }
        if ascii_alnum(c) {
            out.push(c);
        } else if out.len() > 0 && out[out.len() - 1] != '-' {
            out.push('-');
        }
        i += 1;
    }
    proof {
        lemma_collapse_prefix(low@, i as int);
        if i == low.len() {
            assert(low@.take(i as int) == low@);
        }
        assert(out@ == clip(collapse(low@)));
    }
    let ghost clipped = out@;
    while out.len() > 0 && out[out.len() - 1] == '-'
        invariant
            trim_dashes_end(out@) == trim_dashes_end(clipped),
        decreases out.len(),
    {
        out.pop();
    }
    if out.len() == 0 {
        let s = String::from_str("worktree");
        proof {
            reveal_strlit("worktree");
            assert(s@ == fallback_slug());
        }
        s
    } else {
        string_of(out.as_slice())
    }
}


/// Every slug is path-safe: between 1 and `SLUG_MAX` characters, each an ASCII
/// letter, digit or `-`, with no `-` at either end and no two `-` in a row.
pub proof fn lemma_slug_is_shaped(raw: Seq<char>)
    ensures
        is_slug_shaped(spec_sanitize_slug(raw)),
{
    let c = collapse(lowered(raw));
    lemma_collapse_shape(lowered(raw));
    let k = clip(c);
    assert(k == c.take(k.len() as int));
    let t = trim_dashes_end(k);
    lemma_trim_dashes_end(k);
    if t.len() == 0 {
        let f = fallback_slug();
        assert(is_slug_shaped(f));
    } else {
        assert(forall|i: int| 0 <= i < t.len() ==> t[i] == c[i]);
        assert(is_slug_shaped(t));
    }
}

/// Lower-casing an ASCII text leaves it ASCII and without upper-case letters.
proof fn lemma_lowered_ascii(raw: Seq<char>)
    requires
        all_ascii(raw),
    ensures
        no_ascii_upper(lowered(raw)),
        lowered(raw).len() == raw.len(),
        forall|i: int| 0 <= i < raw.len() ==> #[trigger] lowered(raw)[i] == ascii_lower(raw[i]),
    decreases raw.len(),
{
    if raw.len() > 0 {
        lemma_lowered_ascii(raw.drop_last());
        assert(is_ascii_char(raw.last()));
        let c = raw.last();
        assert(!is_ascii_upper(ascii_lower(c))) by {
            if is_ascii_upper(c) {
                assert(ascii_lower(c) as u32 == (c as u32) + 32);
            }
        }
    }
}

/// The slug of an ASCII label has no upper-case letters.
pub proof fn lemma_slug_of_ascii_is_lower(raw: Seq<char>)
    requires
        all_ascii(raw),
    ensures
        no_ascii_upper(spec_sanitize_slug(raw)),
{
    lemma_lowered_ascii(raw);
    let c = collapse(lowered(raw));
    lemma_collapse_shape(lowered(raw));
    let k = clip(c);
    assert(k == c.take(k.len() as int));
    let t = trim_dashes_end(k);
    lemma_trim_dashes_end(k);
    if t.len() == 0 {
        let f = fallback_slug();
        assert(no_ascii_upper(f));
    } else {
        assert(forall|i: int| 0 <= i < t.len() ==> t[i] == c[i]);
    }
}

/// On a text of slug characters with no leading `-` and no two `-` in a row,
/// `collapse` changes nothing.
proof fn lemma_collapse_identity(s: Seq<char>)
    requires
        forall|i: int| 0 <= i < s.len() ==> is_ascii_alnum(#[trigger] s[i]) || s[i] == '-',
        s.len() > 0 ==> s[0] != '-',
        forall|i: int| 0 <= i < s.len() - 1 ==> !(#[trigger] s[i] == '-' && s[i + 1] == '-'),
    ensures
        collapse(s) == s,
    decreases s.len(),
{
    if s.len() > 0 {
        let p = s.drop_last();
        assert forall|i: int| 0 <= i < p.len() - 1 implies !(#[trigger] p[i] == '-' && p[i + 1] == '-') by {
            assert(p[i] == s[i] && p[i + 1] == s[i + 1]);
        }
        lemma_collapse_identity(p);
        if !is_ascii_alnum(s.last()) {
            assert(s.last() == '-');
            assert(s.len() >= 2);
            assert(!(s[s.len() - 2] == '-' && s[s.len() - 1] == '-'));
            assert(p.last() != '-');
        }
        assert(p.push(s.last()) == s);
    }
}

/// A slug-shaped text without upper-case letters is its own slug.
pub proof fn lemma_slug_fixed_point(s: Seq<char>)
    requires
        is_slug_shaped(s),
        no_ascii_upper(s),
    ensures
        spec_sanitize_slug(s) == s,
{
    assert(all_ascii(s)) by {
        assert forall|i: int| 0 <= i < s.len() implies is_ascii_char(#[trigger] s[i]) by {
            assert(is_ascii_alnum(s[i]) || s[i] == '-');
        }
    }
    lemma_lowered_ascii(s);
    assert(lowered(s) == s) by {
        assert forall|i: int| 0 <= i < s.len() implies #[trigger] lowered(s)[i] == s[i] by {
            assert(lowered(s)[i] == ascii_lower(s[i]));
            assert(!is_ascii_upper(s[i]));
        }
    }
    lemma_collapse_identity(s);
    assert(clip(s) == s);
    assert(trim_dashes_end(s) == s);
}

/// Sanitizing the slug of an ASCII label again changes nothing.
pub proof fn lemma_slug_idempotent_on_ascii(raw: Seq<char>)
    requires
        all_ascii(raw),
    ensures
        spec_sanitize_slug(spec_sanitize_slug(raw)) == spec_sanitize_slug(raw),
{
    lemma_slug_is_shaped(raw);
    lemma_slug_of_ascii_is_lower(raw);
    lemma_slug_fixed_point(spec_sanitize_slug(raw));
}

} // verus!
