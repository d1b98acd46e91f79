//! The characters of a text, and the white space that surrounds its content.

use vstd::prelude::*;

verus! {

/// Whether `c` is white space: a character with Unicode's `White_Space` property.
pub open spec fn whitespace(c: char) -> bool {
    let n = c as u32;
    ||| 0x09 <= n <= 0x0D
    ||| n == 0x20
    ||| n == 0x85
    ||| n == 0xA0
    ||| n == 0x1680
    ||| 0x2000 <= n <= 0x200A
    ||| n == 0x2028
    ||| n == 0x2029
    ||| n == 0x202F
    ||| n == 0x205F
    ||| n == 0x3000
}

/// Whether every character of `s` is white space.
pub open spec fn blank(s: Seq<char>) -> bool {
    forall|i: int| 0 <= i < s.len() ==> whitespace(#[trigger] s[i])
}

/// `s` without the white space it starts with.
pub open spec fn trimmed_start(s: Seq<char>) -> Seq<char>
    decreases s.len(),
{
    if s.len() > 0 && whitespace(s.first()) {
        trimmed_start(s.drop_first())
    } else {
        s
    }
}

/// `s` without the white space it ends with.
pub open spec fn trimmed_end(s: Seq<char>) -> Seq<char>
    decreases s.len(),
{
    if s.len() > 0 && whitespace(s.last()) {
        trimmed_end(s.drop_last())
    } else {
        s
    }
}

/// `s` without the white space at either end.
pub open spec fn trimmed(s: Seq<char>) -> Seq<char> {
    trimmed_end(trimmed_start(s))
}

/// Tells whether `c` is white space.
pub fn is_whitespace(c: char) -> (yes: bool)
    ensures
        yes == whitespace(c),
{
    let n: u32 = c as u32;
    (0x09 <= n && n <= 0x0D) || n == 0x20 || n == 0x85 || n == 0xA0 || n == 0x1680 || (0x2000 <= n
        && n <= 0x200A) || n == 0x2028 || n == 0x2029 || n == 0x202F || n == 0x205F || n == 0x3000
}

/// The characters of `text`, in order.
pub fn chars_of(text: &str) -> (chars: Vec<char>)
    ensures
        chars@ == text@,
{
    let mut chars: Vec<char> = Vec::new();
    for c in it: text.chars()
        invariant
            it.seq() == text@,
            chars@ == text@.take(it.index() as int),
    {
        chars.push(c);
    }
    chars
}

/// Removes the white space at both ends of `text`.
pub fn trim<'a>(text: &'a str) -> (inner: &'a str)
    ensures
        inner@ == trimmed(text@),
{
    let chars = chars_of(text);
    let len = chars.len();
    let mut start: usize = 0;
    assert(chars@.skip(0) == chars@);
    while start < len && is_whitespace(chars[start])
        invariant
            len == chars.len(),
            start <= len,
            trimmed_start(chars@) == trimmed_start(chars@.skip(start as int)),
        decreases len - start,
    {
        assert(chars@.skip(start as int).drop_first() == chars@.skip(start + 1));
        start += 1;
    }
    let ghost tail = chars@.skip(start as int);
    assert(trimmed_start(chars@) == tail);
    let mut end: usize = len;
    while end > start && is_whitespace(chars[end - 1])
        invariant
            len == chars.len(),
            start <= end <= len,
            tail == chars@.skip(start as int),
            trimmed_end(tail) == trimmed_end(chars@.subrange(start as int, end as int)),
        decreases end - start,
    {
        assert(chars@.subrange(start as int, end as int).drop_last() == chars@.subrange(
            start as int,
            end - 1,
        ));
        end -= 1;
    }
    text.substring_char(start, end)
}

/// White space around a text does not change what is left after trimming.
pub proof fn lemma_trimmed_ignores_padding(before: Seq<char>, s: Seq<char>, after: Seq<char>)
    requires
        blank(before),
        blank(after),
    ensures
        trimmed(before + s + after) == trimmed(s),
{
    assert(before + s + after == before + (s + after));
    lemma_trimmed_start_skips(before, s + after);
    if blank(s) {
        lemma_trimmed_start_of_blank(s);
        lemma_trimmed_start_of_blank(s + after);
        assert(trimmed_start(s + after) == trimmed_start(s));
    } else {
        lemma_trimmed_start_keeps_tail(s, after);
        lemma_trimmed_end_drops(trimmed_start(s), after);
    }
}

/// Leading white space is dropped whatever follows it.
proof fn lemma_trimmed_start_skips(before: Seq<char>, s: Seq<char>)
    requires
        blank(before),
    ensures
        trimmed_start(before + s) == trimmed_start(s),
    decreases before.len(),
{
    if before.len() == 0 {
        assert(before + s == s);
    } else {
        assert((before + s).first() == before[0]);
        assert((before + s).drop_first() == before.drop_first() + s);
        lemma_trimmed_start_skips(before.drop_first(), s);
    }
}

/// Nothing is left of a blank text once its start is trimmed.
proof fn lemma_trimmed_start_of_blank(s: Seq<char>)
    requires
        blank(s),
    ensures
        trimmed_start(s).len() == 0,
    decreases s.len(),
{
    if s.len() > 0 {
        lemma_trimmed_start_of_blank(s.drop_first());
    }
}

/// Trimming the start of a text that is not blank leaves in place what
/// follows the text.
proof fn lemma_trimmed_start_keeps_tail(s: Seq<char>, after: Seq<char>)
    requires
        !blank(s),
    ensures
        trimmed_start(s + after) == trimmed_start(s) + after,
    decreases s.len(),
{
    assert((s + after).first() == s[0]);
    if whitespace(s.first()) {
        let rest = s.drop_first();
        let i = choose|i: int| 0 <= i < s.len() && !whitespace(s[i]);
        assert(!whitespace(rest[i - 1]));
        assert((s + after).drop_first() == rest + after);
        lemma_trimmed_start_keeps_tail(rest, after);
    }
}

/// Trailing white space is dropped whatever precedes it.
proof fn lemma_trimmed_end_drops(s: Seq<char>, after: Seq<char>)
    requires
        blank(after),
    ensures
        trimmed_end(s + after) == trimmed_end(s),
    decreases after.len(),
{
    if after.len() == 0 {
        assert(s + after == s);
    } else {
        assert((s + after).last() == after.last());
        assert((s + after).drop_last() == s + after.drop_last());
        lemma_trimmed_end_drops(s, after.drop_last());
    }
}

} // verus!
