//! Small verified helpers on text, stated over sequences of characters.

use vstd::prelude::*;

verus! {

/// The characters of `s`, in order.
pub fn chars_of(s: &str) -> (v: Vec<char>)
    ensures
        v@ == s@,
{
    let n = s.unicode_len();
    let mut v: Vec<char> = Vec::new();
    let mut i: usize = 0;
    while i < n
        invariant
            n == s@.len(),
            i <= n,
            v@ == s@.subrange(0, i as int),
        decreases n - i,
    {
        v.push(s.get_char(i));
        i = i + 1;
    }
    assert(s@.subrange(0, n as int) == s@);
    v
}

/// `needle` stands in `text` at position `at`.
pub open spec fn occurs_at(text: Seq<char>, needle: Seq<char>, at: int) -> bool {
    &&& 0 <= at
    &&& at + needle.len() <= text.len()
    &&& text.subrange(at, at + needle.len()) == needle
}

/// `needle` stands somewhere in `text`.
pub open spec fn occurs_in(text: Seq<char>, needle: Seq<char>) -> bool {
    exists|at: int| occurs_at(text, needle, at)
}

/// Position `at` is where a line of `text` begins: the very start, or just
/// behind a line feed.
pub open spec fn line_start(text: Seq<char>, at: int) -> bool {
    at == 0 || (0 < at <= text.len() && text[at - 1] == '\n')
}

/// Some line of `text` begins with `needle`.
pub open spec fn begins_a_line(text: Seq<char>, needle: Seq<char>) -> bool {
    exists|at: int| line_start(text, at) && occurs_at(text, needle, at)
}

/// Tells whether `needle` stands in `text` at position `at`.
pub fn matches_at(text: &Vec<char>, needle: &Vec<char>, at: usize) -> (r: bool)
    ensures
        r == occurs_at(text@, needle@, at as int),
{
    if needle.len() > text.len() || at > text.len() - needle.len() {
        return false;
    }
    let mut k: usize = 0;
    while k < needle.len()
        invariant
            at + needle.len() <= text.len(),
            k <= needle.len(),
            forall|j: int| 0 <= j < k ==> text@[at + j] == needle@[j],
        decreases needle.len() - k,
    {
        if text[at + k] != needle[k] {
            assert(text@.subrange(at as int, at + needle.len())[k as int] != needle@[k as int]);
            return false;
        }
        k = k + 1;
    }
    assert(text@.subrange(at as int, at + needle.len()) =~= needle@);
    true
}

/// Tells whether `needle` stands somewhere in `text`.
pub fn contains_text(text: &Vec<char>, needle: &Vec<char>) -> (r: bool)
    ensures
        r == occurs_in(text@, needle@),
{
    let mut at: usize = 0;
    while at < text.len()
        invariant
            at <= text.len(),
            forall|j: int| 0 <= j < at ==> !occurs_at(text@, needle@, j),
        decreases text.len() - at,
    {
        if matches_at(text, needle, at) {
            return true;
        }
        at = at + 1;
    }
    matches_at(text, needle, at)
}

/// Tells whether some line of `text` begins with `needle`.
pub fn line_begins_with(text: &Vec<char>, needle: &Vec<char>) -> (r: bool)
    ensures
        r == begins_a_line(text@, needle@),
{
    let mut at: usize = 0;
    while at < text.len()
        invariant
            at <= text.len(),
            forall|j: int| 0 <= j < at ==> !(line_start(text@, j) && occurs_at(text@, needle@, j)),
        decreases text.len() - at,
    {
        if (at == 0 || text[at - 1] == '\n') && matches_at(text, needle, at) {
            assert(line_start(text@, at as int) && occurs_at(text@, needle@, at as int));
            return true;
        }
        at = at + 1;
    }
    let last = (at == 0 || text[at - 1] == '\n') && matches_at(text, needle, at);
    assert(last == (line_start(text@, at as int) && occurs_at(text@, needle@, at as int)));
    last
}

/// A character that parts the components of a path.
pub open spec fn is_separator(c: char) -> bool {
    c == '/' || c == '\\'
}

/// The last component of the path `name` is longer than `.db` and ends with
/// it.
pub open spec fn ends_in_db(name: Seq<char>) -> bool {
    let n = name.len() as int;
    &&& n >= 4
    &&& !is_separator(name[n - 4])
    &&& name[n - 3] == '.'
    &&& name[n - 2] == 'd'
    &&& name[n - 1] == 'b'
}

/// `text` ends with `suffix`.
pub open spec fn ends_with(text: Seq<char>, suffix: Seq<char>) -> bool {
    occurs_at(text, suffix, text.len() - suffix.len())
}

/// What is named like a backup file ends with `.db`.
pub proof fn lemma_ends_in_db(name: Seq<char>)
    requires
        ends_in_db(name),
    ensures
        ends_with(name, ".db"@),
{
    reveal_strlit(".db");
    assert(name.subrange(name.len() - 3, name.len() as int) =~= ".db"@);
}

/// Tells whether `name` carries the extension of a backup file.
pub fn has_db_extension(name: &str) -> (r: bool)
    ensures
        r == ends_in_db(name@),
{
    let v = chars_of(name);
    let n = v.len();
    n >= 4 && v[n - 4] != '/' && v[n - 4] != '\\' && v[n - 3] == '.' && v[n - 2] == 'd' && v[n - 1]
        == 'b'
}

/// `a` comes strictly before `b` in lexicographic order of code points.
pub open spec fn text_lt(a: Seq<char>, b: Seq<char>) -> bool
    decreases a.len(),
{
    if b.len() == 0 {
        false
    } else if a.len() == 0 {
        true
    } else if a[0] != b[0] {
        (a[0] as u32) < (b[0] as u32)
    } else {
        text_lt(a.drop_first(), b.drop_first())
    }
}

/// No text comes before itself.
pub proof fn lemma_text_lt_irreflexive(a: Seq<char>)
    ensures
        !text_lt(a, a),
    decreases a.len(),
{
    if a.len() > 0 {
        lemma_text_lt_irreflexive(a.drop_first());
    }
}

/// The order is never both ways.
pub proof fn lemma_text_lt_asymmetric(a: Seq<char>, b: Seq<char>)
    ensures
        !(text_lt(a, b) && text_lt(b, a)),
    decreases a.len(),
{
    if a.len() > 0 && b.len() > 0 && a[0] == b[0] {
        lemma_text_lt_asymmetric(a.drop_first(), b.drop_first());
    }
}

/// The order is transitive.
pub proof fn lemma_text_lt_transitive(a: Seq<char>, b: Seq<char>, c: Seq<char>)
    requires
        text_lt(a, b),
        text_lt(b, c),
    ensures
        text_lt(a, c),
    decreases a.len(),
{
    if a.len() > 0 && b.len() > 0 && c.len() > 0 && a[0] == b[0] && b[0] == c[0] {
        lemma_text_lt_transitive(a.drop_first(), b.drop_first(), c.drop_first());
    }
}

/// Tells whether `a` comes strictly before `b`.
pub fn precedes(a: &str, b: &str) -> (r: bool)
    ensures
        r == text_lt(a@, b@),
{
    let va = chars_of(a);
    let vb = chars_of(b);
    let mut i: usize = 0;
    assert(va@.skip(0) =~= va@ && vb@.skip(0) =~= vb@);
    while i < va.len() && i < vb.len() && va[i] == vb[i]
        invariant
            i <= va.len(),
            i <= vb.len(),
            text_lt(va@, vb@) == text_lt(va@.skip(i as int), vb@.skip(i as int)),
        decreases va.len() - i,
    {
        assert(va@.skip(i as int).drop_first() =~= va@.skip(i + 1));
        assert(vb@.skip(i as int).drop_first() =~= vb@.skip(i + 1));
        i = i + 1;
    }
    if i >= vb.len() {
        false
    } else if i >= va.len() {
        true
    } else {
        (va[i] as u32) < (vb[i] as u32)
    }
}

} // verus!
