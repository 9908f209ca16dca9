//! Comparing, searching and lowering text, as sequences of characters.
use vstd::prelude::*;

verus! {

/// `text` begins with `prefix`.
pub open spec fn begins_with(text: Seq<char>, prefix: Seq<char>) -> bool {
    prefix.len() <= text.len() && text.take(prefix.len() as int) == prefix
}

/// `part` stands in `text` at position `at`.
pub open spec fn stands_at(text: Seq<char>, part: Seq<char>, at: int) -> bool {
    0 <= at <= text.len() - part.len() && text.subrange(at, at + part.len()) == part
}

/// `part` stands somewhere in `text`.
pub open spec fn has_part(text: Seq<char>, part: Seq<char>) -> bool {
    exists|at: int| stands_at(text, part, at)
}

/// The lower-case form of an ASCII capital; every other character as it is.
pub open spec fn ascii_lower_char(c: char) -> char {
    if 'A' <= c <= 'Z' {
        ((c as u8) + 32) as char
    } else {
        c
    }
}

/// `text` with its ASCII capitals lowered.
pub open spec fn ascii_lower(text: Seq<char>) -> Seq<char> {
    text.map_values(|c: char| ascii_lower_char(c))
}

/// What an optional text holds.
pub open spec fn text_view(text: Option<String>) -> Option<Seq<char>> {
    match text {
        Some(t) => Some(t@),
        None => None,
    }
}

/// Copies an optional text.
pub(crate) fn copy_text(text: &Option<String>) -> (copy: Option<String>)
    ensures
        text_view(copy) == text_view(*text),
{
    match text {
        Some(t) => Some(t.clone()),
        None => None,
    }
}

/// The characters of `text`.
pub(crate) fn chars_of(text: &str) -> (chars: Vec<char>)
    ensures
        chars@ == text@,
{
    let mut chars: Vec<char> = Vec::new();
    for c in it: text.chars()
        invariant
            it.seq() == text@,
            chars@ == text@.take(it.index() as int),
    {
        chars.push(c);
    }
    chars
}

/// Whether two texts are the same.
pub(crate) fn same_text(a: &str, b: &str) -> (same: bool)
    ensures
        same == (a@ == b@),
{
    a.to_owned() == b.to_owned()
}

/// Whether `part` stands in `text` at position `at`.
fn part_stands_at(text: &Vec<char>, part: &Vec<char>, at: usize) -> (stands: bool)
    requires
        at + part@.len() <= text@.len(),
    ensures
        stands == stands_at(text@, part@, at as int),
{
    let total: usize = text.len();
    for k in 0..part.len()
        invariant
            total == text@.len(),
            at + part@.len() <= total,
            forall|j: int| 0 <= j < k ==> text@[at + j] == part@[j],
    {
        if text[at + k] != part[k] {
            proof {
                assert(text@.subrange(at as int, at + part@.len())[k as int] == text@[at + k]);
            }
            return false;
        }
    }
    assert(text@.subrange(at as int, at + part@.len()) =~= part@);
    true
}

/// Whether `text` begins with `prefix`.
pub(crate) fn text_begins_with(text: &str, prefix: &str) -> (begins: bool)
    ensures
        begins == begins_with(text@, prefix@),
{
    let t = chars_of(text);
    let p = chars_of(prefix);
    if p.len() > t.len() {
        return false;
    }
    assert(t@.subrange(0, p@.len() as int) == t@.take(p@.len() as int));
    part_stands_at(&t, &p, 0)
}

/// `text` with its ASCII capitals lowered.
pub(crate) fn lower_chars(text: &str) -> (lowered: Vec<char>)
    ensures
        lowered@ == ascii_lower(text@),
{
    let chars = chars_of(text);
    let mut lowered: Vec<char> = Vec::new();
    for k in 0..chars.len()
        invariant
            chars@ == text@,
            lowered@ == ascii_lower(text@).take(k as int),
    {
        let c = chars[k];
        if 'A' <= c && c <= 'Z' {
            lowered.push(((c as u8) + 32u8) as char);
        } else {
            lowered.push(c);
        }
        assert(lowered@ =~= ascii_lower(text@).take(k + 1));
    }
    assert(ascii_lower(text@).take(chars@.len() as int) =~= ascii_lower(text@));
    lowered
}

/// Whether `part` stands somewhere in `text`.
pub(crate) fn chars_have_part(text: &Vec<char>, part: &str) -> (found: bool)
    ensures
        found == has_part(text@, part@),
{
    let p = chars_of(part);
    if p.len() > text.len() {
        return false;
    }
    let last: usize = text.len() - p.len();
    let mut at: usize = 0;
    while at < last
        invariant
            p@ == part@,
            p@.len() <= text@.len(),
            at <= last == text@.len() - p@.len(),
            forall|j: int| 0 <= j < at ==> !stands_at(text@, part@, j),
        decreases last - at,
    {
        if part_stands_at(text, &p, at) {
            return true;
        }
        at = at + 1;
    }
    part_stands_at(text, &p, last)
}

} // verus!
