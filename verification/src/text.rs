//! Character- and byte-level predicates shared by every validator.

use vstd::prelude::*;
use vstd::utf8::*;

verus! {

broadcast use vstd::string::group_string_axioms;

/// Unicode general category `Cc`: U+0000..=U+001F and U+007F..=U+009F.
pub open spec fn is_control(c: char) -> bool {
    (c as u32) <= 0x1f || (0x7f <= (c as u32) && (c as u32) <= 0x9f)
}

/// Whether some character of `s` is a control character.
pub open spec fn has_control(s: Seq<char>) -> bool {
    exists|i: int| 0 <= i < s.len() && is_control(#[trigger] s[i])
}

/// UTF-8 encoding of a character sequence; `str::len` is its length.
pub open spec fn utf8_len(s: Seq<char>) -> nat {
    encode_utf8(s).len()
}

pub fn char_is_control(c: char) -> (r: bool)
    ensures
        r == is_control(c),
{
    let u = c as u32;
    u <= 0x1f || (0x7f <= u && u <= 0x9f)
}

pub fn str_has_control(s: &str) -> (r: bool)
    ensures
        r == has_control(s@),
{
    let mut found = false;
    for c in it: s.chars()
        invariant
            it.seq() == s@,
            found == exists|i: int| 0 <= i < it.index() && is_control(#[trigger] s@[i]),
    {
        if char_is_control(c) {
            found = true;
        }
    }
    found
}


/// Byte-wise lexicographic order, which is the order of `str` and `String`.
pub open spec fn bytes_lt(a: Seq<u8>, b: Seq<u8>) -> bool
    decreases a.len(),
{
    if a.len() == 0 {
        b.len() > 0
    } else if b.len() == 0 {
        false
    } else if a[0] != b[0] {
        a[0] < b[0]
    } else {
        bytes_lt(a.drop_first(), b.drop_first())
    }
}

/// Lexicographic order of two texts, compared by their UTF-8 bytes.
pub open spec fn text_lt(a: Seq<char>, b: Seq<char>) -> bool {
    bytes_lt(encode_utf8(a), encode_utf8(b))
}

pub proof fn lemma_encode_injective(a: Seq<char>, b: Seq<char>)
    requires
        encode_utf8(a) == encode_utf8(b),
    ensures
        a == b,
{
    encode_utf8_decode_utf8(a);
    encode_utf8_decode_utf8(b);
}

pub fn bytes_less(a: &[u8], b: &[u8]) -> (r: bool)
    ensures
        r == bytes_lt(a@, b@),
{
    let mut i: usize = 0;
    assert(a@.skip(0) =~= a@);
    assert(b@.skip(0) =~= b@);
    while i < a.len() && i < b.len()
        invariant
            i <= a@.len(),
            i <= b@.len(),
            bytes_lt(a@, b@) == bytes_lt(a@.skip(i as int), b@.skip(i as int)),
        decreases a.len() - i,
    {
        if a[i] != b[i] {
            return a[i] < b[i];
        }
        assert(a@.skip(i as int).drop_first() =~= a@.skip(i + 1));
        assert(b@.skip(i as int).drop_first() =~= b@.skip(i + 1));
        i = i + 1;
    }
    i < b.len()
}

pub fn bytes_equal(a: &[u8], b: &[u8]) -> (r: bool)
    ensures
        r == (a@ == b@),
{
    if a.len() != b.len() {
        return false;
    }
    let mut i: usize = 0;
    while i < a.len()
        invariant
            a@.len() == b@.len(),
            i <= a@.len(),
            forall|j: int| 0 <= j < i ==> a@[j] == b@[j],
        decreases a.len() - i,
    {
        if a[i] != b[i] {
            return false;
        }
        i = i + 1;
    }
    assert(a@ =~= b@);
    true
}

/// `a < b` on strings.
pub fn str_less(a: &str, b: &str) -> (r: bool)
    ensures
        r == text_lt(a@, b@),
{
    bytes_less(a.as_bytes(), b.as_bytes())
}

/// `a == b` on strings.
pub fn str_eq(a: &str, b: &str) -> (r: bool)
    ensures
        r == (a@ == b@),
{
    let r = bytes_equal(a.as_bytes(), b.as_bytes());
    proof {
        if r {
            lemma_encode_injective(a@, b@);
        }
    }
    r
}

/// Byte length of a text, as `str::len` reports it.
pub fn text_len(s: &str) -> (r: usize)
    ensures
        r == utf8_len(s@),
{
    s.as_bytes().len()
}

/// Whether every adjacent pair of `items` is in strictly increasing order.
pub open spec fn strictly_sorted(items: Seq<Seq<char>>) -> bool {
    forall|i: int| 0 <= i < items.len() - 1 ==> text_lt(#[trigger] items[i], items[i + 1])
}

pub open spec fn string_views(items: Seq<String>) -> Seq<Seq<char>> {
    items.map_values(|s: String| s@)
}

pub fn strings_strictly_sorted(items: &Vec<String>) -> (r: bool)
    ensures
        r == strictly_sorted(string_views(items@)),
{
    let mut i: usize = 1;
    while i < items.len()
        invariant
            1 <= i,
            forall|j: int| 0 <= j < i - 1 && j < items@.len() - 1 ==> text_lt(#[trigger] string_views(items@)[j], string_views(items@)[j + 1]),
        decreases items.len() - i,
    {
        if !str_less(items[i - 1].as_str(), items[i].as_str()) {
            assert(!text_lt(string_views(items@)[i - 1], string_views(items@)[i as int]));
            return false;
        }
        i = i + 1;
    }
    true
}

/// Whether `items` holds an entry equal to `expected`.
pub fn strings_contain(items: &Vec<String>, expected: &str) -> (r: bool)
    ensures
        r == string_views(items@).contains(expected@),
{
    let mut i: usize = 0;
    while i < items.len()
        invariant
            i <= items@.len(),
            forall|j: int| 0 <= j < i ==> items@[j]@ != expected@,
        decreases items.len() - i,
    {
        if str_eq(items[i].as_str(), expected) {
            assert(string_views(items@)[i as int] == expected@);
            return true;
        }
        i = i + 1;
    }
    assert(!string_views(items@).contains(expected@)) by {
        if string_views(items@).contains(expected@) {
            let k = choose|k: int| 0 <= k < string_views(items@).len() && string_views(items@)[k] == expected@;
            assert(items@[k]@ == expected@);
        }
    }
    false
}


pub proof fn lemma_bytes_lt_irreflexive(a: Seq<u8>)
    ensures
        !bytes_lt(a, a),
    decreases a.len(),
{
    if a.len() > 0 {
        lemma_bytes_lt_irreflexive(a.drop_first());
    }
}

pub proof fn lemma_bytes_lt_transitive(a: Seq<u8>, b: Seq<u8>, c: Seq<u8>)
    requires
        bytes_lt(a, b),
        bytes_lt(b, c),
    ensures
        bytes_lt(a, c),
    decreases a.len(),
{
    if a.len() > 0 && b.len() > 0 && c.len() > 0 && a[0] == b[0] && b[0] == c[0] {
        lemma_bytes_lt_transitive(a.drop_first(), b.drop_first(), c.drop_first());
    }
}

pub proof fn lemma_bytes_lt_total(a: Seq<u8>, b: Seq<u8>)
    ensures
        a == b || bytes_lt(a, b) || bytes_lt(b, a),
    decreases a.len(),
{
    if a.len() > 0 && b.len() > 0 && a[0] == b[0] {
        lemma_bytes_lt_total(a.drop_first(), b.drop_first());
        if a.drop_first() == b.drop_first() {
            assert(a =~= seq![a[0]] + a.drop_first());
            assert(b =~= seq![b[0]] + b.drop_first());
        }
    } else if a.len() == 0 && b.len() == 0 {
        assert(a =~= b);
    }
}

pub proof fn lemma_text_lt_order(a: Seq<char>, b: Seq<char>, c: Seq<char>)
    ensures
        !text_lt(a, a),
        text_lt(a, b) && text_lt(b, c) ==> text_lt(a, c),
        a == b || text_lt(a, b) || text_lt(b, a),
        text_lt(a, b) ==> !text_lt(b, a) && a != b,
{
    lemma_bytes_lt_irreflexive(encode_utf8(a));
    if text_lt(a, b) && text_lt(b, c) {
        lemma_bytes_lt_transitive(encode_utf8(a), encode_utf8(b), encode_utf8(c));
    }
    if text_lt(a, b) && text_lt(b, a) {
        lemma_bytes_lt_transitive(encode_utf8(a), encode_utf8(b), encode_utf8(a));
    }
    lemma_bytes_lt_total(encode_utf8(a), encode_utf8(b));
    if encode_utf8(a) == encode_utf8(b) {
        lemma_encode_injective(a, b);
    }
}


/// A control character other than line feed, carriage return, or tab.
pub open spec fn is_disallowed_control(c: char) -> bool {
    is_control(c) && c != '\n' && c != '\r' && c != '\t'
}

pub open spec fn has_disallowed_control(s: Seq<char>) -> bool {
    exists|i: int| 0 <= i < s.len() && is_disallowed_control(#[trigger] s[i])
}

pub fn str_has_disallowed_control(s: &str) -> (r: bool)
    ensures
        r == has_disallowed_control(s@),
{
    let mut found = false;
    for c in it: s.chars()
        invariant
            it.seq() == s@,
            found == exists|i: int| 0 <= i < it.index() && is_disallowed_control(#[trigger] s@[i]),
    {
        if char_is_control(c) && c != '\n' && c != '\r' && c != '\t' {
            found = true;
        }
    }
    found
}

/// Non-empty, at most `maximum` UTF-8 bytes, and free of control characters.
pub open spec fn valid_bounded_text(s: Seq<char>, maximum: nat) -> bool {
    s.len() > 0 && utf8_len(s) <= maximum && !has_control(s)
}

pub fn bounded_text_is_valid(s: &str, maximum: usize) -> (r: bool)
    ensures
        r == valid_bounded_text(s@, maximum as nat),
{
    !s.is_empty() && text_len(s) <= maximum && !str_has_control(s)
}

} // verus!
