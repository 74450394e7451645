//! What holds of texts: how they are searched, cut, numbered and put together.

use vstd::prelude::*;
use vstd::utf8::*;

verus! {

// ---------------------------------------------------------------------------
// Texts around a text
// ---------------------------------------------------------------------------

/// Whether `text` is `inner` with `before` in front of it and `after` behind it,
/// character by character.
pub open spec fn frames(
    text: Seq<char>,
    before: Seq<char>,
    inner: Seq<char>,
    after: Seq<char>,
) -> bool {
    &&& text.len() == before.len() + inner.len() + after.len()
    &&& forall|i: int| 0 <= i < before.len() ==> #[trigger] before[i] == text[i]
    &&& forall|i: int| 0 <= i < inner.len() ==> #[trigger] inner[i] == text[before.len() + i]
    &&& forall|i: int|
        0 <= i < after.len() ==> #[trigger] after[i] == text[before.len() + inner.len() + i]
}

/// A frame hides nothing: in the same frame, different texts stay different.
pub proof fn a_frame_hides_nothing(
    one: Seq<char>,
    other: Seq<char>,
    before: Seq<char>,
    one_inner: Seq<char>,
    other_inner: Seq<char>,
    after: Seq<char>,
)
    requires
        frames(one, before, one_inner, after),
        frames(other, before, other_inner, after),
    ensures
        one == other <==> one_inner == other_inner,
{
    if one == other {
        assert(one_inner =~= other_inner) by {
            assert forall|i: int| 0 <= i < one_inner.len() implies one_inner[i]
                == other_inner[i] by {}
        }
    }
    if one_inner == other_inner {
        assert forall|i: int| 0 <= i < one.len() implies one[i] == other[i] by {
            if i < before.len() {
                assert(before[i] == one[i]);
                assert(before[i] == other[i]);
            } else if i < before.len() + one_inner.len() {
                assert(one_inner[i - before.len()] == one[before.len() + (i - before.len())]);
                assert(other_inner[i - before.len()] == other[before.len() + (i - before.len())]);
            } else {
                let j = i - before.len() - one_inner.len();
                assert(after[j] == one[before.len() + one_inner.len() + j]);
                assert(after[j] == other[before.len() + one_inner.len() + j]);
            }
        }
        assert(one =~= other);
    }
}

// ---------------------------------------------------------------------------
// Searches
// ---------------------------------------------------------------------------

/// A text is found exactly if it stands somewhere in the other one, with some
/// text before it and some text behind it.
pub proof fn a_text_is_found_where_it_stands(needle: Seq<char>, haystack: Seq<char>)
    ensures
        crate::text::occurs_in(needle, haystack) <==> exists|before: Seq<char>, after: Seq<char>|
            haystack == #[trigger] (before + needle + after),
{
    if crate::text::occurs_in(needle, haystack) {
        let at = choose|at: int| crate::text::occurs_at(needle, haystack, at);
        let before = haystack.take(at);
        let after = haystack.skip(at + needle.len());
        let run = haystack.subrange(at, at + needle.len());
        assert(run == needle);
        assert(haystack =~= before + run + after);
        assert(haystack == before + needle + after);
    }
    if exists|before: Seq<char>, after: Seq<char>|
        haystack == #[trigger] (before + needle + after) {
        let (before, after) = choose|before: Seq<char>, after: Seq<char>|
            haystack == #[trigger] (before + needle + after);
        let at = before.len() as int;
        assert(haystack.subrange(at, at + needle.len()) =~= needle);
        assert(crate::text::occurs_at(needle, haystack, at));
    }
}

// ---------------------------------------------------------------------------
// Numerals
// ---------------------------------------------------------------------------

/// The number that a row of digits stands for, read from left to right.
pub open spec fn number_of(digits: Seq<char>) -> int
    decreases digits.len(),
{
    if digits.len() == 0 {
        0
    } else {
        10 * number_of(digits.drop_last()) + (digits.last() as int - '0' as int)
    }
}

/// A numeral reads back as the number it was written for. It is made of digits
/// and of nothing else, at least one of them, and starts with a zero only for
/// zero itself.
pub proof fn a_numeral_reads_back(n: nat)
    ensures
        number_of(crate::text::decimal(n)) == n,
        crate::text::decimal(n).len() > 0,
        forall|i: int|
            0 <= i < crate::text::decimal(n).len() ==> '0' <= #[trigger] crate::text::decimal(n)[i]
                <= '9',
        crate::text::decimal(n)[0] == '0' <==> n == 0,
        n < 10 ==> crate::text::decimal(n).len() == 1,
    decreases n,
{
    let text = crate::text::decimal(n);
    reveal_with_fuel(number_of, 2);
    if n >= 10 {
        a_numeral_reads_back(n / 10);
        assert(text.drop_last() =~= crate::text::decimal(n / 10));
        assert(text[0] == crate::text::decimal(n / 10)[0]);
    }
}

/// Different numbers have different numerals.
pub proof fn different_numbers_have_different_numerals(one: nat, other: nat)
    ensures
        crate::text::decimal(one) == crate::text::decimal(other) <==> one == other,
{
    a_numeral_reads_back(one);
    a_numeral_reads_back(other);
}

// ---------------------------------------------------------------------------
// Prefixes
// ---------------------------------------------------------------------------

/// The smaller of two lengths.
pub open spec fn shorter(one: nat, other: nat) -> nat {
    if one < other {
        one
    } else {
        other
    }
}

/// A text can be cut after so many bytes exactly if some of its first characters
/// take up so many bytes, or all the bytes that there are.
pub proof fn a_cut_falls_between_characters(text: Seq<char>, limit: nat)
    ensures
        crate::text::can_cut(text, limit) <==> exists|k: int|
            0 <= k <= text.len() && (#[trigger] encode_utf8(text.take(k))).len() == shorter(
                limit,
                encode_utf8(text).len(),
            ),
{
    let bytes = encode_utf8(text);
    let end = shorter(limit, bytes.len()) as int;
    encode_utf8_valid_utf8(text);
    if crate::text::can_cut(text, limit) {
        a_prefix_is_made_of_the_first_characters(text, limit);
        let prefix = crate::text::byte_prefix(text, limit);
        assert(encode_utf8(text.take(prefix.len() as int)).len() == end);
    }
    if exists|k: int| 0 <= k <= text.len() && (#[trigger] encode_utf8(text.take(k))).len() == end {
        let k = choose|k: int|
            0 <= k <= text.len() && (#[trigger] encode_utf8(text.take(k))).len() == end;
        let rest = encode_utf8(text.skip(k));
        lemma_encode_concat(text.take(k), text.skip(k));
        assert(text.take(k) + text.skip(k) =~= text);
        is_char_boundary_start_end_of_seq(bytes);
        if end < bytes.len() {
            encode_utf8_valid_utf8(text.skip(k));
            is_char_boundary_start_end_of_seq(rest);
            is_char_boundary_iff_not_is_continuation_byte(rest, 0);
            assert(bytes[end] == rest[0]);
            is_char_boundary_iff_not_is_continuation_byte(bytes, end);
        }
    }
}

/// A prefix is made of the first characters of a text, as many as take up so
/// many bytes, or all of them where there are fewer bytes.
pub proof fn a_prefix_is_made_of_the_first_characters(text: Seq<char>, limit: nat)
    requires
        crate::text::can_cut(text, limit),
    ensures
        ({
            let prefix = crate::text::byte_prefix(text, limit);
            &&& prefix.len() <= text.len()
            &&& prefix == text.take(prefix.len() as int)
            &&& encode_utf8(prefix).len() == shorter(limit, encode_utf8(text).len())
        }),
{
    let bytes = encode_utf8(text);
    let end = crate::text::prefix_len(text, limit) as int;
    let prefix = crate::text::byte_prefix(text, limit);
    let head = bytes.subrange(0, end);
    let tail = bytes.subrange(end, bytes.len() as int);
    encode_utf8_valid_utf8(text);
    encode_utf8_decode_utf8(text);
    valid_utf8_split(bytes, end);
    decode_utf8_split(bytes, end);
    decode_utf8_encode_utf8(head);
    assert(text == prefix + decode_utf8(tail));
    assert(prefix =~= text.take(prefix.len() as int));
}

/// Encoding goes character by character.
proof fn lemma_encode_concat(one: Seq<char>, other: Seq<char>)
    ensures
        encode_utf8(one + other) == encode_utf8(one) + encode_utf8(other),
    decreases one.len(),
{
    if one.len() == 0 {
        assert(one + other =~= other);
        assert(encode_utf8(one) + encode_utf8(other) =~= encode_utf8(other));
    } else {
        assert((one + other).drop_first() =~= one.drop_first() + other);
        lemma_encode_concat(one.drop_first(), other);
        assert(encode_utf8(one + other) =~= encode_utf8(one) + encode_utf8(other));
    }
}

} // verus!
