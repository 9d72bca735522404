//! Character-level helpers shared by the parser and the renderers.

use vstd::prelude::*;
use vstd::std_specs::iter::IteratorSpec;
use vstd::string::StringSliceAdditionalSpecFns;
use vstd::utf8::{encode_utf8, is_char_boundary};

verus! {

/// The characters of `s`, in order.
pub fn chars_of(s: &str) -> (r: Vec<char>)
    ensures
        r@ == s@,
{
    broadcast use vstd::string::group_string_axioms;

    let mut it = s.chars();
    let mut r: Vec<char> = Vec::new();
    loop
        invariant
            it.obeys_prophetic_iter_laws(),
            it.decrease() is Some,
            r@ + it.remaining() == s@,
        ensures
            r@ == s@,
        decreases it.decrease()->0,
    {
        match it.next() {
            Some(c) => {
                r.push(c);
                assert(r@ + it.remaining() =~= s@);
            },
            None => {
                assert(r@ + it.remaining() =~= r@);
                break;
            },
        }
    }
    r
}

/// Relies on `String::push`: the character is appended at the end.
#[verifier::external_body]
fn push_char(s: &mut String, c: char)
    ensures
        final(s)@ == old(s)@.push(c),
{
    s.push(c)
}

/// Whether `c` has the Unicode White_Space property.
pub open spec fn is_white_space(c: char) -> bool {
    let u = c as u32;
    (0x9 <= u <= 0xd) || u == 0x20 || u == 0x85 || u == 0xa0 || u == 0x1680 || (0x2000 <= u
        <= 0x200a) || u == 0x2028 || u == 0x2029 || u == 0x202f || u == 0x205f || u == 0x3000
}

/// `s` without its leading white space.
pub open spec fn trimmed_start(s: Seq<char>) -> Seq<char>
    decreases s.len(),
{
    if s.len() > 0 && is_white_space(s[0]) {
        trimmed_start(s.drop_first())
    } else {
        s
    }
}

/// `s` without its trailing white space.
pub open spec fn trimmed_end(s: Seq<char>) -> Seq<char>
    decreases s.len(),
{
    if s.len() > 0 && is_white_space(s.last()) {
        trimmed_end(s.drop_last())
    } else {
        s
    }
}

/// `s` without its leading and trailing white space.
pub open spec fn trimmed(s: Seq<char>) -> Seq<char> {
    trimmed_end(trimmed_start(s))
}

/// Relies on `str::trim`: the text without leading and trailing characters
/// that have the Unicode White_Space property.
#[verifier::external_body]
pub(crate) fn trim(s: &str) -> (r: &str)
    ensures
        r@ == trimmed(s@),
{
    s.trim()
}

/// The characters `chars[from..to]` as a new string.
pub fn string_of(chars: &Vec<char>, from: usize, to: usize) -> (r: String)
    requires
        from <= to <= chars@.len(),
    ensures
        r@ == chars@.subrange(from as int, to as int),
{
    let mut r = String::new();
    let mut i: usize = from;
    while i < to
        invariant
            from <= i <= to <= chars@.len(),
            r@ == chars@.subrange(from as int, i as int),
        decreases to - i,
    {
        push_char(&mut r, chars[i]);
        assert(r@ =~= chars@.subrange(from as int, i + 1));
        i = i + 1;
    }
    r
}

/// Whether `p` occurs in `s` at position `at`.
pub open spec fn occurs_at(s: Seq<char>, p: Seq<char>, at: int) -> bool {
    0 <= at && at + p.len() <= s.len() && s.subrange(at, at + p.len()) == p
}

/// Whether `s` begins with `p`.
pub open spec fn has_prefix(s: Seq<char>, p: Seq<char>) -> bool {
    occurs_at(s, p, 0)
}

/// The first position at or after `from` where `p` occurs in `s`, or `None`.
pub open spec fn find_from(s: Seq<char>, p: Seq<char>, from: int) -> Option<int>
    decreases s.len() + 1 - from,
{
    if from < 0 || from + p.len() > s.len() {
        None
    } else if occurs_at(s, p, from) {
        Some(from)
    } else {
        find_from(s, p, from + 1)
    }
}

/// Whether `p` occurs in `chars` at position `at`.
pub fn occurs_at_exec(chars: &Vec<char>, p: &Vec<char>, at: usize) -> (r: bool)
    ensures
        r == occurs_at(chars@, p@, at as int),
{
    if p.len() > chars.len() || at > chars.len() - p.len() {
        return false;
    }
    let mut k: usize = 0;
    while k < p.len()
        invariant
            at + p@.len() <= chars@.len(),
            chars@.len() <= usize::MAX,
            k <= p@.len(),
            forall|j: int| 0 <= j < k ==> chars@[at + j] == p@[j],
        decreases p@.len() - k,
    {
        if chars[at + k] != p[k] {
            assert(chars@.subrange(at as int, at + p@.len())[k as int] != p@[k as int]);
            return false;
        }
        k = k + 1;
    }
    assert(chars@.subrange(at as int, at + p@.len()) =~= p@);
    true
}

/// The first position at or after `from` where `p` occurs in `chars`.
pub fn find_exec(chars: &Vec<char>, p: &Vec<char>, from: usize) -> (r: Option<usize>)
    ensures
        match r {
            Some(i) => find_from(chars@, p@, from as int) == Some(i as int) && occurs_at(
                chars@,
                p@,
                i as int,
            ),
            None => find_from(chars@, p@, from as int) is None,
        },
{
    if p.len() > chars.len() {
        return None;
    }
    let last = chars.len() - p.len();
    let mut i: usize = from;
    while i <= last
        invariant
            last == chars@.len() - p@.len(),
            from <= i,
            find_from(chars@, p@, from as int) == find_from(chars@, p@, i as int),
        decreases last + 1 - i,
    {
        if occurs_at_exec(chars, p, i) {
            return Some(i);
        }
        if i == last {
            assert(find_from(chars@, p@, i + 1) is None);
            return None;
        }
        i = i + 1;
    }
    None
}

/// Whether two strings hold the same characters.
pub fn same_text(a: &str, b: &str) -> (r: bool)
    ensures
        r == (a@ == b@),
{
    let x = chars_of(a);
    let y = chars_of(b);
    if x.len() != y.len() {
        return false;
    }
    let r = occurs_at_exec(&x, &y, 0);
    assert(x@.subrange(0, y@.len() as int) =~= x@);
    r
}

/// `s` with each match of `from` replaced by `to`, matches taken from the
/// left and without overlap.
pub open spec fn replaced(s: Seq<char>, from: Seq<char>, to: Seq<char>) -> Seq<char>
    decreases s.len(),
{
    if from.len() == 0 || s.len() < from.len() {
        s
    } else if s.take(from.len() as int) == from {
        to + replaced(s.skip(from.len() as int), from, to)
    } else {
        seq![s[0]] + replaced(s.skip(1), from, to)
    }
}

/// Relies on `str::replace`, for a copy of `s` in which every non-overlapping
/// match of `from`, found from the left, is replaced by `to`.
#[verifier::external_body]
pub(crate) fn replace_all(s: &str, from: &str, to: &str) -> (r: String)
    requires
        from@.len() > 0,
    ensures
        r@ == replaced(s@, from@, to@),
{
    s.replace(from, to)
}

/// The decimal digit for `d`, which is below ten.
pub open spec fn digit(d: nat) -> char {
    ((d + 48) as u8) as char
}

/// The decimal notation of `n`, without sign or leading zeros.
pub open spec fn decimal(n: nat) -> Seq<char>
    decreases n,
{
    if n < 10 {
        seq![digit(n)]
    } else {
        decimal(n / 10).push(digit(n % 10))
    }
}

/// The decimal notation of `n`.
pub fn decimal_string(n: u64) -> (r: String)
    ensures
        r@ == decimal(n as nat),
    decreases n,
{
    let d = (n % 10) as u8;
    let c = (d + 48) as char;
    if n < 10 {
        let mut r = String::new();
        push_char(&mut r, c);
        assert(r@ =~= seq![digit(n as nat)]);
        r
    } else {
        let mut r = decimal_string(n / 10);
        push_char(&mut r, c);
        r
    }
}

/// The UTF-8 encoding of a concatenation is the concatenation of the
/// encodings.
pub proof fn lemma_encode_utf8_concat(a: Seq<char>, b: Seq<char>)
    ensures
        encode_utf8(a + b) == encode_utf8(a) + encode_utf8(b),
    decreases a.len(),
{
    if a.len() > 0 {
        assert((a + b).drop_first() =~= a.drop_first() + b);
        lemma_encode_utf8_concat(a.drop_first(), b);
        assert(encode_utf8(a + b) =~= encode_utf8(a) + encode_utf8(b));
    } else {
        assert(a + b =~= b);
        assert(encode_utf8(a) + encode_utf8(b) =~= encode_utf8(b));
    }
}

/// The UTF-8 bytes of `s` if there are at most `max_len` of them; else its
/// first `max_len - 3` bytes followed by an ellipsis of three dots.
pub open spec fn truncated(s: Seq<u8>, max_len: nat) -> Seq<u8> {
    if s.len() <= max_len {
        s
    } else {
        s.subrange(0, max_len - 3) + encode_utf8("..."@)
    }
}

/// `s` cut to at most `max_len` bytes, an ellipsis marking the cut. A cut
/// must fall on a character boundary.
pub fn truncate(s: &str, max_len: usize) -> (r: String)
    requires
        s.spec_bytes().len() <= max_len || (max_len >= 3 && is_char_boundary(
            s.spec_bytes(),
            max_len - 3,
        )),
    ensures
        encode_utf8(r@) == truncated(s.spec_bytes(), max_len as nat),
        encode_utf8(r@).len() <= max_len,
{
    proof {
        reveal_strlit("...");
        assert(encode_utf8("..."@).len() == 3) by {
            assert("..."@ == seq!['.', '.', '.']);
            reveal_with_fuel(encode_utf8, 4);
        }
    }
    let n = s.as_bytes().len();
    assert(n == s.spec_bytes().len());
    if n <= max_len {
        let r = String::from_str(s);
        assert(encode_utf8(r@) == s.spec_bytes());
        r
    } else {
        let (head, _) = s.split_at(max_len - 3);
        let r = String::from_str(head).concat("...");
        proof {
            lemma_encode_utf8_concat(head@, "..."@);
            assert(encode_utf8(head@) == s.spec_bytes().subrange(0, max_len - 3));
        }
        r
    }
}

} // verus!
