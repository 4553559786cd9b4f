//! Byte and text helpers shared by the frame parser: searching, comparing,
//! UTF-8 decoding and decimal numbers.
use vstd::prelude::*;
use vstd::utf8::*;

verus! {

broadcast use vstd::utf8::encode_utf8_decode_utf8;

/// The position of the first occurrence of `target` in `bytes` at or after `from`.
pub open spec fn first_index_from(bytes: Seq<u8>, from: int, target: u8) -> Option<int>
    decreases bytes.len() - from,
{
    if from < 0 || from >= bytes.len() {
        None
    } else if bytes[from] == target {
        Some(from)
    } else {
        first_index_from(bytes, from + 1, target)
    }
}

/// A found position lies in range, holds the target, and nothing before it does.
pub proof fn lemma_first_index_from(bytes: Seq<u8>, from: int, target: u8)
    ensures
        first_index_from(bytes, from, target) matches Some(p) ==> {
            &&& from <= p < bytes.len()
            &&& bytes[p] == target
            &&& forall|k: int| from <= k < p ==> bytes[k] != target
        },
        first_index_from(bytes, from, target) is None ==> forall|k: int|
            0 <= from <= k < bytes.len() ==> bytes[k] != target,
    decreases bytes.len() - from,
{
    if from < 0 || from >= bytes.len() {
    } else if bytes[from] == target {
    } else {
        lemma_first_index_from(bytes, from + 1, target);
    }
}

/// The first occurrence is where the target sits with no earlier occurrence since `from`.
pub proof fn lemma_first_index_at(bytes: Seq<u8>, from: int, p: int, target: u8)
    requires
        0 <= from <= p < bytes.len(),
        bytes[p] == target,
        forall|k: int| from <= k < p ==> bytes[k] != target,
    ensures
        first_index_from(bytes, from, target) == Some(p),
    decreases p - from,
{
    if from < p {
        lemma_first_index_at(bytes, from + 1, p, target);
    }
}

/// Finds the first occurrence of `target` at or after `from`.
pub fn find_byte(bytes: &[u8], from: usize, target: u8) -> (r: Option<usize>)
    ensures
        r matches Some(p) ==> first_index_from(bytes@, from as int, target) == Some(p as int)
            && p < usize::MAX,
        r is None ==> first_index_from(bytes@, from as int, target) is None,
{
    let mut i = from;
    while i < bytes.len()
        invariant
            from <= i,
            first_index_from(bytes@, from as int, target) == first_index_from(
                bytes@,
                i as int,
                target,
            ),
        decreases bytes.len() - i,
    {
        if bytes[i] == target {
            return Some(i);
        }
        i = i + 1;
    }
    None
}

/// Compares two byte slices for equality.
pub fn bytes_eq(a: &[u8], b: &[u8]) -> (r: bool)
    ensures
        r == (a@ == b@),
{
    if a.len() != b.len() {
        return false;
    }
    let mut i: usize = 0;
    while i < a.len()
        invariant
            a@.len() == b@.len(),
            i <= a@.len(),
            forall|k: int| 0 <= k < i ==> a@[k] == b@[k],
        decreases a.len() - i,
    {
        if a[i] != b[i] {
            return false;
        }
        i = i + 1;
    }
    assert(a@ =~= b@);
    true
}

/// Compares two strings for equality of their characters.
pub fn str_eq(a: &str, b: &str) -> (r: bool)
    ensures
        r == (a@ == b@),
{
    let r = bytes_eq(a.as_bytes(), b.as_bytes());
    proof {
        if r {
            assert(decode_utf8(encode_utf8(a@)) == decode_utf8(encode_utf8(b@)));
        }
    }
    r
}

/// Calls `std::str::from_utf8`: the bytes are accepted exactly when they are
/// valid UTF-8, and the text is then their decoding. On failure the
/// description of the `Utf8Error` is returned instead.
#[verifier::external_body]
pub(crate) fn decode_text(bytes: &[u8]) -> (r: Result<&str, String>)
    ensures
        r is Ok <==> valid_utf8(bytes@),
        r matches Ok(s) ==> s@ == decode_utf8(bytes@),
{
    std::str::from_utf8(bytes).map_err(|e| e.to_string())
}

/// Whether a byte is an ASCII decimal digit.
pub open spec fn is_digit(b: u8) -> bool {
    48 <= b <= 57
}

/// The number written in decimal by `s`, which holds digits only.
pub open spec fn decimal_value(s: Seq<u8>) -> nat
    decreases s.len(),
{
    if s.len() == 0 {
        0
    } else {
        decimal_value(s.drop_last()) * 10 + (s.last() - 48) as nat
    }
}

/// A decimal number: at least one digit, nothing but digits, and a value that fits in a `u32`.
pub open spec fn spec_parse_u32(s: Seq<u8>) -> Option<u32> {
    if s.len() > 0 && (forall|k: int| 0 <= k < s.len() ==> is_digit(#[trigger] s[k]))
        && decimal_value(s) <= u32::MAX {
        Some(decimal_value(s) as u32)
    } else {
        None
    }
}

proof fn lemma_decimal_value_monotone(s: Seq<u8>, i: int)
    requires
        0 <= i <= s.len(),
        forall|k: int| 0 <= k < s.len() ==> is_digit(#[trigger] s[k]),
    ensures
        decimal_value(s.subrange(0, i)) <= decimal_value(s),
    decreases s.len() - i,
{
    if i < s.len() {
        lemma_decimal_value_monotone(s, i + 1);
        assert(s.subrange(0, i + 1).drop_last() =~= s.subrange(0, i));
    } else {
        assert(s.subrange(0, i) =~= s);
    }
}

/// Parses a decimal `u32`.
pub fn parse_u32(s: &[u8]) -> (r: Option<u32>)
    ensures
        r == spec_parse_u32(s@),
{
    if s.len() == 0 {
        return None;
    }
    let mut value: u64 = 0;
    let mut i: usize = 0;
    while i < s.len()
        invariant
            i <= s@.len(),
            forall|k: int| 0 <= k < i ==> is_digit(#[trigger] s@[k]),
            value == decimal_value(s@.subrange(0, i as int)),
            value <= u32::MAX,
        decreases s.len() - i,
    {
        let b = s[i];
        if b < 48 || b > 57 {
            proof {
                assert(!is_digit(s@[i as int]));
            }
            return None;
        }
        assert(s@.subrange(0, i + 1).drop_last() =~= s@.subrange(0, i as int));
        let next = value * 10 + (b - 48) as u64;
        if next > 4294967295 {
            proof {
                if forall|k: int| 0 <= k < s@.len() ==> is_digit(#[trigger] s@[k]) {
                    lemma_decimal_value_monotone(s@, i + 1);
                }
            }
            return None;
        }
        value = next;
        i = i + 1;
    }
    assert(s@.subrange(0, s@.len() as int) =~= s@);
    Some(value as u32)
}

/// The decimal digits of a number in ASCII, most significant first, without
/// leading zeros (a single `0` for zero).
pub open spec fn decimal_bytes(n: nat) -> Seq<u8>
    decreases n,
{
    if n < 10 {
        seq![(n + 48) as u8]
    } else {
        decimal_bytes(n / 10).push(((n % 10) + 48) as u8)
    }
}

/// The decimal digits of a number are digits, at least one, and have its value.
pub proof fn lemma_decimal_bytes(n: nat)
    ensures
        decimal_bytes(n).len() > 0,
        forall|k: int| 0 <= k < decimal_bytes(n).len() ==> is_digit(#[trigger] decimal_bytes(n)[k]),
        decimal_value(decimal_bytes(n)) == n,
    decreases n,
{
    if n < 10 {
        let d = decimal_bytes(n);
        assert(d.last() == (n + 48) as u8);
        assert(((n + 48) as u8) as int == n + 48);
        assert(d.drop_last() =~= Seq::<u8>::empty());
        assert(decimal_value(d.drop_last()) == 0);
        assert(decimal_value(d) == decimal_value(d.drop_last()) * 10 + (d.last() - 48) as nat);
    } else {
        lemma_decimal_bytes(n / 10);
        let d = decimal_bytes(n);
        assert(d.drop_last() =~= decimal_bytes(n / 10));
        assert(0 <= n % 10 < 10);
        assert(d.last() == ((n % 10) + 48) as u8);
        assert((((n % 10) + 48) as u8) as int == (n % 10) + 48);
        assert(decimal_value(d.drop_last()) == n / 10);
        assert(decimal_value(d) == decimal_value(d.drop_last()) * 10 + (d.last() - 48) as nat);
        assert((n / 10) * 10 + n % 10 == n) by (nonlinear_arith);
        assert forall|k: int| 0 <= k < d.len() implies is_digit(#[trigger] d[k]) by {
            if k < d.len() - 1 {
                assert(d[k] == decimal_bytes(n / 10)[k]);
            }
        }
    }
}

/// Every `u32` written in decimal, `0` included, is read back as itself.
pub proof fn law_parse_u32_reads_decimal(n: u32)
    ensures
        spec_parse_u32(decimal_bytes(n as nat)) == Some(n),
{
    lemma_decimal_bytes(n as nat);
}

} // verus!
