//! Text helpers: decimal numerals, substring search and bounded prefixes.

use vstd::prelude::*;
use vstd::string::*;
use vstd::utf8::*;

verus! {

/// The ASCII digit that stands for `d`.
pub open spec fn digit(d: nat) -> char {
    (('0' as nat) + d) as char
}

/// The decimal numeral of `n`, without leading zeros.
pub open spec fn decimal(n: nat) -> Seq<char>
    decreases n,
{
    if n < 10 {
        seq![digit(n)]
    } else {
        decimal(n / 10).push(digit(n % 10))
    }
}

/// Whether `needle` occurs somewhere in `haystack` as a run of consecutive
/// characters.
pub open spec fn occurs_in(needle: Seq<char>, haystack: Seq<char>) -> bool {
    exists|at: int| occurs_at(needle, haystack, at)
}

/// Whether `needle` occurs in `haystack` starting at character `at`.
pub open spec fn occurs_at(needle: Seq<char>, haystack: Seq<char>, at: int) -> bool {
    &&& 0 <= at
    &&& at + needle.len() <= haystack.len()
    &&& haystack.subrange(at, at + needle.len()) == needle
}

/// How many bytes of `text` a prefix of at most `limit` bytes takes.
pub open spec fn prefix_len(text: Seq<char>, limit: nat) -> nat {
    if encode_utf8(text).len() < limit {
        encode_utf8(text).len()
    } else {
        limit
    }
}

/// Whether cutting `text` after its first `limit` bytes leaves every character
/// whole. A text of fewer bytes is not cut at all.
pub open spec fn can_cut(text: Seq<char>, limit: nat) -> bool {
    is_char_boundary(encode_utf8(text), prefix_len(text, limit) as int)
}

/// The characters that the first `limit` bytes of `text` encode.
pub open spec fn byte_prefix(text: Seq<char>, limit: nat) -> Seq<char> {
    decode_utf8(encode_utf8(text).subrange(0, prefix_len(text, limit) as int))
}

/// The digit `d` as text.
fn digit_str(d: u64) -> (s: &'static str)
    requires
        d < 10,
    ensures
        s@ == seq![digit(d as nat)],
{
    proof {
        reveal_strlit("0");
        reveal_strlit("1");
        reveal_strlit("2");
        reveal_strlit("3");
        reveal_strlit("4");
        reveal_strlit("5");
        reveal_strlit("6");
        reveal_strlit("7");
        reveal_strlit("8");
        reveal_strlit("9");
    }
    if d == 0 {
        "0"
    } else if d == 1 {
        "1"
    } else if d == 2 {
        "2"
    } else if d == 3 {
        "3"
    } else if d == 4 {
        "4"
    } else if d == 5 {
        "5"
    } else if d == 6 {
        "6"
    } else if d == 7 {
        "7"
    } else if d == 8 {
        "8"
    } else {
        "9"
    }
}

/// Writes `n` in decimal.
pub fn to_decimal(n: u64) -> (s: String)
    ensures
        s@ == decimal(n as nat),
    decreases n,
{
    if n < 10 {
        digit_str(n).to_string()
    } else {
        let mut s = to_decimal(n / 10);
        s.append(digit_str(n % 10));
        assert(s@ =~= decimal(n as nat));
        s
    }
}

/// Joins two texts.
pub fn join(left: &str, right: &str) -> (s: String)
    ensures
        s@ == left@ + right@,
{
    left.to_string().concat(right)
}

/// The characters of `text`, in order.
fn char_vec(text: &str) -> (chars: Vec<char>)
    ensures
        chars@ == text@,
{
    let mut chars: Vec<char> = Vec::new();
    for c in it: text.chars()
        invariant
            it.seq() == text@,
            chars@ == text@.take(it.index() as int),
    {
        chars.push(c);
    }
    chars
}

/// Whether `needle` occurs in `haystack`.
pub fn contains(haystack: &str, needle: &str) -> (found: bool)
    ensures
        found == occurs_in(needle@, haystack@),
{
    let hay = char_vec(haystack);
    let pat = char_vec(needle);
    if pat.len() > hay.len() {
        assert(!occurs_in(needle@, haystack@));
        return false;
    }
    let last: usize = hay.len() - pat.len();
    let mut at: usize = 0;
    loop
        invariant
            hay@ == haystack@,
            pat@ == needle@,
            pat.len() <= hay.len(),
            last == hay.len() - pat.len(),
            at <= last,
            forall|i: int| 0 <= i < at ==> !occurs_at(needle@, haystack@, i),
        decreases last - at,
    {
        let mut matched: usize = 0;
        while matched < pat.len() && hay[at + matched] == pat[matched]
            invariant
                at + pat.len() <= hay.len(),
                matched <= pat.len(),
                forall|k: int| 0 <= k < matched ==> hay@[at + k] == pat@[k],
            decreases pat.len() - matched,
        {
            matched = matched + 1;
        }
        if matched == pat.len() {
            assert(hay@.subrange(at as int, at + pat@.len()) =~= pat@);
            assert(occurs_at(needle@, haystack@, at as int));
            return true;
        }
        assert(!occurs_at(needle@, haystack@, at as int)) by {
            assert(hay@.subrange(at as int, at + pat@.len())[matched as int] == hay@[at + matched]);
        }
        if at == last {
            assert forall|i: int| !occurs_at(needle@, haystack@, i) by {}
            return false;
        }
        at = at + 1;
    }
}

/// Whether the first `limit` bytes of `text`, or all of a shorter one, end
/// between two characters.
pub fn is_cuttable(text: &str, limit: usize) -> (ok: bool)
    ensures
        ok == can_cut(text@, limit as nat),
{
    let len: usize = text.as_bytes().len();
    text.is_char_boundary(if len < limit { len } else { limit })
}

/// The first `limit` bytes of `text`, or all of a shorter one.
pub fn cut(text: &str, limit: usize) -> (prefix: String)
    requires
        can_cut(text@, limit as nat),
    ensures
        prefix@ == byte_prefix(text@, limit as nat),
{
    let len: usize = text.as_bytes().len();
    let (head, _tail) = text.split_at(if len < limit { len } else { limit });
    proof {
        vstd::utf8::encode_utf8_decode_utf8(head@);
    }
    head.to_string()
}

} // verus!
