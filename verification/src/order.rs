//! A total order on the plain values that resource records are made of, and
//! the functions that compute it.

use core::cmp::Ordering;
use vstd::prelude::*;
use vstd::utf8::{encode_utf8, encode_utf8_decode_utf8};

verus! {

/// How one value stands to another in a total order.
#[derive(Clone, Copy, Debug, PartialEq, Eq, Structural)]
pub enum Comparison {
    Less,
    Equal,
    Greater,
}

impl Comparison {
    /// The same relation read from the other side.
    pub open spec fn reversed(self) -> Comparison {
        match self {
            Comparison::Less => Comparison::Greater,
            Comparison::Equal => Comparison::Equal,
            Comparison::Greater => Comparison::Less,
        }
    }

    /// This relation where it decides, else `next`: one step of a comparison
    /// that goes field by field.
    pub open spec fn then_with(self, next: Comparison) -> Comparison {
        match self {
            Comparison::Equal => next,
            _ => self,
        }
    }

    /// This relation in the standard library's terms.
    pub fn to_ordering(self) -> (r: Ordering)
        ensures
            r is Less <==> self is Less,
            r is Equal <==> self is Equal,
            r is Greater <==> self is Greater,
    {
        match self {
            Comparison::Less => Ordering::Less,
            Comparison::Equal => Ordering::Equal,
            Comparison::Greater => Ordering::Greater,
        }
    }
}

/// The order of two integers.
pub open spec fn int_order(a: int, b: int) -> Comparison {
    if a < b {
        Comparison::Less
    } else if a > b {
        Comparison::Greater
    } else {
        Comparison::Equal
    }
}

/// The order of two truth values: `false` comes before `true`.
pub open spec fn bool_order(a: bool, b: bool) -> Comparison {
    if a == b {
        Comparison::Equal
    } else if b {
        Comparison::Less
    } else {
        Comparison::Greater
    }
}

/// The lexicographic order of two byte sequences: the first position at which
/// they differ decides, and a proper prefix comes first.
pub open spec fn bytes_order(a: Seq<u8>, b: Seq<u8>) -> Comparison
    decreases a.len(),
{
    if a.len() == 0 {
        if b.len() == 0 {
            Comparison::Equal
        } else {
            Comparison::Less
        }
    } else if b.len() == 0 {
        Comparison::Greater
    } else if a[0] < b[0] {
        Comparison::Less
    } else if a[0] > b[0] {
        Comparison::Greater
    } else {
        bytes_order(a.drop_first(), b.drop_first())
    }
}

/// The order of two texts: that of their UTF-8 encodings, which is the order
/// of their code points.
pub open spec fn text_order(a: Seq<char>, b: Seq<char>) -> Comparison {
    bytes_order(encode_utf8(a), encode_utf8(b))
}

/// What a text that may be absent holds.
pub open spec fn optional_text(text: Option<String>) -> Option<Seq<char>> {
    match text {
        Some(s) => Some(s@),
        None => None,
    }
}

/// The order of two optional texts: an absent one comes before any present
/// one.
pub open spec fn optional_text_order(a: Option<Seq<char>>, b: Option<Seq<char>>) -> Comparison {
    match (a, b) {
        (None, None) => Comparison::Equal,
        (None, Some(_)) => Comparison::Less,
        (Some(_), None) => Comparison::Greater,
        (Some(x), Some(y)) => text_order(x, y),
    }
}

/// Two byte sequences compare as equal exactly when they are the same.
pub proof fn lemma_bytes_order_equal(a: Seq<u8>, b: Seq<u8>)
    ensures
        bytes_order(a, b) == Comparison::Equal <==> a == b,
    decreases a.len(),
{
    if a.len() == 0 || b.len() == 0 {
        if a.len() == 0 && b.len() == 0 {
            assert(a =~= b);
        }
    } else {
        lemma_bytes_order_equal(a.drop_first(), b.drop_first());
        if a[0] == b[0] && a.drop_first() == b.drop_first() {
            assert(a =~= seq![a[0]] + a.drop_first());
            assert(b =~= seq![b[0]] + b.drop_first());
        }
    }
}

/// Swapping two byte sequences reverses how they compare.
pub proof fn lemma_bytes_order_reversed(a: Seq<u8>, b: Seq<u8>)
    ensures
        bytes_order(b, a) == bytes_order(a, b).reversed(),
    decreases a.len(),
{
    if a.len() > 0 && b.len() > 0 {
        lemma_bytes_order_reversed(a.drop_first(), b.drop_first());
    }
}

/// The order of byte sequences is transitive.
pub proof fn lemma_bytes_order_transitive(a: Seq<u8>, b: Seq<u8>, c: Seq<u8>)
    requires
        bytes_order(a, b) == Comparison::Less,
        bytes_order(b, c) == Comparison::Less,
    ensures
        bytes_order(a, c) == Comparison::Less,
    decreases a.len(),
{
    if a.len() > 0 && b.len() > 0 && c.len() > 0 {
        if a[0] == b[0] && b[0] == c[0] {
            lemma_bytes_order_transitive(a.drop_first(), b.drop_first(), c.drop_first());
        }
    }
}

/// Two texts have the same UTF-8 encoding exactly when they are the same.
pub proof fn lemma_encoding_injective(a: Seq<char>, b: Seq<char>)
    ensures
        encode_utf8(a) == encode_utf8(b) <==> a == b,
{
    encode_utf8_decode_utf8(a);
    encode_utf8_decode_utf8(b);
}

/// Two texts compare as equal exactly when they are the same.
pub proof fn lemma_text_order_equal(a: Seq<char>, b: Seq<char>)
    ensures
        text_order(a, b) == Comparison::Equal <==> a == b,
{
    lemma_bytes_order_equal(encode_utf8(a), encode_utf8(b));
    lemma_encoding_injective(a, b);
}

/// Swapping two texts reverses how they compare.
pub proof fn lemma_text_order_reversed(a: Seq<char>, b: Seq<char>)
    ensures
        text_order(b, a) == text_order(a, b).reversed(),
{
    lemma_bytes_order_reversed(encode_utf8(a), encode_utf8(b));
}

/// The order of texts is transitive.
pub proof fn lemma_text_order_transitive(a: Seq<char>, b: Seq<char>, c: Seq<char>)
    requires
        text_order(a, b) == Comparison::Less,
        text_order(b, c) == Comparison::Less,
    ensures
        text_order(a, c) == Comparison::Less,
{
    lemma_bytes_order_transitive(encode_utf8(a), encode_utf8(b), encode_utf8(c));
}

/// Two optional texts compare as equal exactly when they are the same.
pub proof fn lemma_optional_text_order_equal(a: Option<Seq<char>>, b: Option<Seq<char>>)
    ensures
        optional_text_order(a, b) == Comparison::Equal <==> a == b,
{
    if let (Some(x), Some(y)) = (a, b) {
        lemma_text_order_equal(x, y);
    }
}

/// Swapping two optional texts reverses how they compare.
pub proof fn lemma_optional_text_order_reversed(a: Option<Seq<char>>, b: Option<Seq<char>>)
    ensures
        optional_text_order(b, a) == optional_text_order(a, b).reversed(),
{
    if let (Some(x), Some(y)) = (a, b) {
        lemma_text_order_reversed(x, y);
    }
}

/// The order of optional texts is transitive.
pub proof fn lemma_optional_text_order_transitive(
    a: Option<Seq<char>>,
    b: Option<Seq<char>>,
    c: Option<Seq<char>>,
)
    requires
        optional_text_order(a, b) == Comparison::Less,
        optional_text_order(b, c) == Comparison::Less,
    ensures
        optional_text_order(a, c) == Comparison::Less,
{
    if let (Some(x), Some(y), Some(z)) = (a, b, c) {
        lemma_text_order_transitive(x, y, z);
    }
}

/// What a field-by-field order needs of one byte field to be transitive:
/// of three values, those that compare as equal are the same, and the first
/// comes before the third where it comes before the second and the second
/// before the third.
pub proof fn lemma_bytes_order_chain(a: Seq<u8>, b: Seq<u8>, c: Seq<u8>)
    ensures
        bytes_order(a, b) == Comparison::Equal <==> a == b,
        bytes_order(b, c) == Comparison::Equal <==> b == c,
        bytes_order(a, b) == Comparison::Less && bytes_order(b, c) == Comparison::Less
            ==> bytes_order(a, c) == Comparison::Less,
{
    lemma_bytes_order_equal(a, b);
    lemma_bytes_order_equal(b, c);
    if bytes_order(a, b) == Comparison::Less && bytes_order(b, c) == Comparison::Less {
        lemma_bytes_order_transitive(a, b, c);
    }
}

/// What a field-by-field order needs of one text field to be transitive:
/// of three values, those that compare as equal are the same, and the first
/// comes before the third where it comes before the second and the second
/// before the third.
pub proof fn lemma_text_order_chain(a: Seq<char>, b: Seq<char>, c: Seq<char>)
    ensures
        text_order(a, b) == Comparison::Equal <==> a == b,
        text_order(b, c) == Comparison::Equal <==> b == c,
        text_order(a, b) == Comparison::Less && text_order(b, c) == Comparison::Less
            ==> text_order(a, c) == Comparison::Less,
{
    lemma_text_order_equal(a, b);
    lemma_text_order_equal(b, c);
    if text_order(a, b) == Comparison::Less && text_order(b, c) == Comparison::Less {
        lemma_text_order_transitive(a, b, c);
    }
}

/// What a field-by-field order needs of one optional text field to be transitive:
/// of three values, those that compare as equal are the same, and the first
/// comes before the third where it comes before the second and the second
/// before the third.
pub proof fn lemma_optional_text_order_chain(a: Option<Seq<char>>, b: Option<Seq<char>>, c: Option<Seq<char>>)
    ensures
        optional_text_order(a, b) == Comparison::Equal <==> a == b,
        optional_text_order(b, c) == Comparison::Equal <==> b == c,
        optional_text_order(a, b) == Comparison::Less && optional_text_order(b, c) == Comparison::Less
            ==> optional_text_order(a, c) == Comparison::Less,
{
    lemma_optional_text_order_equal(a, b);
    lemma_optional_text_order_equal(b, c);
    if optional_text_order(a, b) == Comparison::Less && optional_text_order(b, c) == Comparison::Less {
        lemma_optional_text_order_transitive(a, b, c);
    }
}

/// Compares two truth values.
pub fn compare_bool(a: bool, b: bool) -> (r: Comparison)
    ensures
        r == bool_order(a, b),
{
    if a == b {
        Comparison::Equal
    } else if b {
        Comparison::Less
    } else {
        Comparison::Greater
    }
}

/// Compares two integers.
pub fn compare_int(a: i64, b: i64) -> (r: Comparison)
    ensures
        r == int_order(a as int, b as int),
{
    if a < b {
        Comparison::Less
    } else if a > b {
        Comparison::Greater
    } else {
        Comparison::Equal
    }
}

/// Compares two byte strings lexicographically.
pub fn compare_bytes(a: &[u8], b: &[u8]) -> (r: Comparison)
    ensures
        r == bytes_order(a@, b@),
{
    let mut i: usize = 0;
    assert(a@.skip(0) =~= a@ && b@.skip(0) =~= b@);
    while i < a.len() && i < b.len()
        invariant
            i <= a@.len(),
            i <= b@.len(),
            bytes_order(a@, b@) == bytes_order(a@.skip(i as int), b@.skip(i as int)),
        decreases a@.len() - i,
    {
        let x: u8 = a[i];
        let y: u8 = b[i];
        proof {
            let rest_a = a@.skip(i as int);
            let rest_b = b@.skip(i as int);
            assert(rest_a[0] == x && rest_b[0] == y);
            assert(rest_a.drop_first() =~= a@.skip(i + 1));
            assert(rest_b.drop_first() =~= b@.skip(i + 1));
        }
        if x < y {
            return Comparison::Less;
        }
        if x > y {
            return Comparison::Greater;
        }
        i += 1;
    }
    if i < b.len() {
        Comparison::Less
    } else if i < a.len() {
        Comparison::Greater
    } else {
        Comparison::Equal
    }
}

/// Compares two texts by their code points.
pub fn compare_text(a: &str, b: &str) -> (r: Comparison)
    ensures
        r == text_order(a@, b@),
{
    compare_bytes(a.as_bytes(), b.as_bytes())
}

/// Compares two texts of which either may be absent.
pub fn compare_optional_text(a: &Option<String>, b: &Option<String>) -> (r: Comparison)
    ensures
        r == optional_text_order(optional_text(*a), optional_text(*b)),
{
    match (a, b) {
        (None, None) => Comparison::Equal,
        (None, Some(_)) => Comparison::Less,
        (Some(_), None) => Comparison::Greater,
        (Some(x), Some(y)) => compare_text(x.as_str(), y.as_str()),
    }
}

/// Whether two texts are the same.
pub fn text_eq(a: &str, b: &str) -> (r: bool)
    ensures
        r == (a@ == b@),
{
    proof {
        lemma_text_order_equal(a@, b@);
    }
    match compare_text(a, b) {
        Comparison::Equal => true,
        _ => false,
    }
}

} // verus!
