//! Texts as sequences of characters: numbers in decimal notation, cutting
//! a text to a length, and what it means for one text to occur in another.

use vstd::prelude::*;
use vstd::string::*;

verus! {

/// The character that writes a single decimal digit.
pub open spec fn digit(d: nat) -> char
    recommends
        d < 10,
{
    "0123456789"@[d as int]
}

/// Decimal notation of a natural number, most significant digit first,
/// without sign or leading zeros.
pub open spec fn decimal(n: nat) -> Seq<char>
    decreases n,
{
    if n < 10 {
        seq![digit(n)]
    } else {
        decimal(n / 10).push(digit(n % 10))
    }
}

/// The first `limit` characters of `text`, or all of it when it is shorter.
pub open spec fn truncated(text: Seq<char>, limit: nat) -> Seq<char> {
    if text.len() <= limit {
        text
    } else {
        text.subrange(0, limit as int)
    }
}

/// `needle` occurs in `text` as a contiguous run of characters.
pub open spec fn occurs_in(needle: Seq<char>, text: Seq<char>) -> bool {
    exists|start: int|
        0 <= start && start + needle.len() <= text.len() && #[trigger] text.subrange(
            start,
            start + needle.len(),
        ) == needle
}

spec fn pow10(e: nat) -> nat
    decreases e,
{
    if e == 0 {
        1
    } else {
        10 * pow10((e - 1) as nat)
    }
}

proof fn lemma_decimal_len_bound(n: nat, digits: nat)
    requires
        digits >= 1,
    ensures
        1 <= decimal(n).len(),
        n < pow10(digits) ==> decimal(n).len() <= digits,
    decreases n,
{
    if n >= 10 {
        if digits >= 2 {
            lemma_decimal_len_bound(n / 10, (digits - 1) as nat);
        } else {
            lemma_decimal_len_bound(n / 10, 1);
        }
    }
    reveal_with_fuel(pow10, 2);
}

/// A number in decimal notation has at least one digit, and at most twenty
/// when it fits in 64 bits.
pub proof fn lemma_decimal_len(n: nat)
    ensures
        1 <= decimal(n).len(),
        n <= u64::MAX ==> decimal(n).len() <= 20,
{
    lemma_decimal_len_bound(n, 20);
    assert(pow10(20) == 100_000_000_000_000_000_000nat) by {
        reveal_with_fuel(pow10, 21);
    }
}

/// A text begins with each of its heads: what precedes a suffix occurs in
/// the whole.
pub proof fn lemma_head_occurs(head: Seq<char>, tail: Seq<char>)
    ensures
        occurs_in(head, head + tail),
{
    let whole = head + tail;
    let start = 0int;
    assert(whole.subrange(start, start + head.len()) =~= head);
}

/// A text ends with each of its tails: what follows a prefix occurs in the
/// whole.
pub proof fn lemma_tail_occurs(head: Seq<char>, tail: Seq<char>)
    ensures
        occurs_in(tail, head + tail),
{
    let whole = head + tail;
    assert(whole.subrange(head.len() as int, (head.len() + tail.len()) as int) =~= tail);
}

/// What occurs in a part of a text occurs in the text.
pub proof fn lemma_occurs_in_transitive(inner: Seq<char>, middle: Seq<char>, outer: Seq<char>)
    requires
        occurs_in(inner, middle),
        occurs_in(middle, outer),
    ensures
        occurs_in(inner, outer),
{
    let i = choose|start: int|
        0 <= start && start + inner.len() <= middle.len() && #[trigger] middle.subrange(
            start,
            start + inner.len(),
        ) == inner;
    let j = choose|start: int|
        0 <= start && start + middle.len() <= outer.len() && #[trigger] outer.subrange(
            start,
            start + middle.len(),
        ) == middle;
    assert(outer.subrange(i + j, i + j + inner.len()) =~= outer.subrange(
        j,
        j + middle.len(),
    ).subrange(i, i + inner.len()));
}

/// `text` without the white space at its start and at its end.
pub uninterp spec fn trimmed(text: Seq<char>) -> Seq<char>;

/// Takes the white space off both ends of `text`.
///
/// Trusted: calls `str::trim`, which returns the part of the text between
/// its leading and its trailing white space. The part is a function of the
/// text; it is named, not spelt out.
#[verifier::external_body]
pub(crate) fn trim(text: &str) -> (kept: &str)
    ensures
        kept@ == trimmed(text@),
{
    text.trim()
}

/// Appends the decimal notation of `n` to `out`.
pub fn append_decimal(out: &mut String, n: u64)
    ensures
        final(out)@ == old(out)@ + decimal(n as nat),
    decreases n,
{
    if n >= 10 {
        append_decimal(out, n / 10);
    }
    let d: usize = (n % 10) as usize;
    proof {
        reveal_strlit("0123456789");
    }
    let glyph = "0123456789".substring_char(d, d + 1);
    assert(glyph@ =~= seq![digit(d as nat)]);
    out.append(glyph);
    assert(final(out)@ =~= old(out)@ + decimal(n as nat));
}

/// The decimal notation of `n` as a new string.
pub fn decimal_string(n: u64) -> (s: String)
    ensures
        s@ == decimal(n as nat),
{
    let mut s = String::new();
    append_decimal(&mut s, n);
    s
}

/// A copy of `text`, where there is one.
pub fn copy_optional(text: &Option<String>) -> (copy: Option<String>)
    ensures
        copy.deep_view() == text.deep_view(),
{
    match text {
        Some(t) => Some(t.clone()),
        None => None,
    }
}

/// `text`, with spaces after it where it has fewer than `width`
/// characters, so that it has `width` of them.
pub open spec fn padded(text: Seq<char>, width: nat) -> Seq<char> {
    if text.len() >= width {
        text
    } else {
        text + Seq::new((width - text.len()) as nat, |i: int| ' ')
    }
}

/// Fills `text` up with spaces to `width` characters.
pub fn pad(text: &str, width: usize) -> (filled: String)
    ensures
        filled@ == padded(text@, width as nat),
{
    let mut filled = String::from_str(text);
    let mut len = text.unicode_len();
    if len >= width {
        return filled;
    }
    proof {
        reveal_strlit(" ");
    }
    while len < width
        invariant
            text@.len() <= len <= width,
            " "@ == seq![' '],
            filled@ == text@ + Seq::new((len - text@.len()) as nat, |i: int| ' '),
        decreases width - len,
    {
        filled.append(" ");
        len = len + 1;
        assert(filled@ =~= text@ + Seq::new((len - text@.len()) as nat, |i: int| ' '));
    }
    filled
}

/// Copies at most `limit` leading characters of `text`.
pub fn truncate(text: &str, limit: usize) -> (s: String)
    ensures
        s@ == truncated(text@, limit as nat),
{
    let len = text.unicode_len();
    if len <= limit {
        String::from_str(text)
    } else {
        String::from_str(text.substring_char(0, limit))
    }
}

} // verus!
