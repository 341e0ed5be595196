//! Byte-level encodings of field elements.
//!
//! A scalar-field element travels as 32 little-endian bytes.  The canonical
//! form is range-checked: a byte string whose value reaches the field order
//! is rejected rather than silently reduced.  The value of a byte string and
//! the comparison against the field order are defined and proved here.

use vstd::prelude::*;

verus! {

/// The value of a little-endian byte string: the first byte is the least
/// significant.
pub open spec fn le_value(b: Seq<u8>) -> nat
    decreases b.len(),
{
    if b.len() == 0 {
        0
    } else {
        b[0] as nat + 256 * le_value(b.drop_first())
    }
}

/// 256 raised to the power `n`: the weight of the byte at position `n`.
pub open spec fn pow256(n: nat) -> nat
    decreases n,
{
    if n == 0 {
        1
    } else {
        256 * pow256((n - 1) as nat)
    }
}

pub proof fn lemma_pow256_pos(n: nat)
    ensures
        pow256(n) >= 1,
    decreases n,
{
    if n > 0 {
        lemma_pow256_pos((n - 1) as nat);
    }
}

/// A byte string's value is below the weight of the position one past its end.
pub proof fn lemma_le_value_bound(b: Seq<u8>)
    ensures
        le_value(b) < pow256(b.len()),
    decreases b.len(),
{
    if b.len() != 0 {
        lemma_le_value_bound(b.drop_first());
    }
}

/// Splitting a byte string at `k` splits its value: the low `k` bytes plus
/// the rest weighted by `pow256(k)`.
pub proof fn lemma_le_value_split(b: Seq<u8>, k: int)
    requires
        0 <= k <= b.len(),
    ensures
        le_value(b) == le_value(b.take(k)) + pow256(k as nat) * le_value(b.skip(k)),
    decreases k,
{
    if k == 0 {
        assert(b.take(0) =~= Seq::<u8>::empty());
        assert(b.skip(0) =~= b);
        assert(le_value(b.take(0)) == 0);
        assert(pow256(0) == 1);
        assert(le_value(b.skip(k)) == le_value(b));
        assert(pow256(k as nat) == 1);
        assert(le_value(b.take(k)) == 0);
        assert(le_value(b) == le_value(b.take(k)) + pow256(k as nat) * le_value(b.skip(k)));
    } else {
        let t = b.drop_first();
        lemma_le_value_split(t, k - 1);
        assert(t.take(k - 1) =~= b.take(k).drop_first());
        assert(t.skip(k - 1) =~= b.skip(k));
        assert(b.take(k)[0] == b[0]);
        let p = pow256((k - 1) as nat);
        let s = le_value(b.skip(k));
        let low = le_value(t.take(k - 1));
        assert(le_value(b) == b[0] as nat + 256 * le_value(t));
        assert(le_value(t) == low + p * s);
        assert(b.take(k).len() != 0);
        assert(le_value(b.take(k)) == b.take(k)[0] as nat + 256 * le_value(b.take(k).drop_first()));
        assert(le_value(b.take(k)) == b[0] as nat + 256 * low);
        assert(pow256(k as nat) == 256 * p);
        assert(256 * (low + p * s) == 256 * low + 256 * (p * s)) by (nonlinear_arith);
        assert(256 * (p * s) == (256 * p) * s) by (nonlinear_arith);
        assert(le_value(b) == (b[0] as nat + 256 * low) + (256 * p) * s);
        assert(pow256(k as nat) * le_value(b.skip(k)) == (256 * p) * s);
        assert(le_value(b.take(k)) + pow256(k as nat) * le_value(b.skip(k)) == (b[0] as nat + 256
            * low) + (256 * p) * s);
    }
}

/// If two equally long byte strings agree strictly above position `i` and the
/// first has the smaller byte at `i`, the first has the smaller value.
pub proof fn lemma_le_value_orders(a: Seq<u8>, m: Seq<u8>, i: int)
    requires
        a.len() == m.len(),
        0 <= i < a.len(),
        a.skip(i + 1) == m.skip(i + 1),
        a[i] < m[i],
    ensures
        le_value(a) < le_value(m),
{
    lemma_le_value_split(a, i);
    lemma_le_value_split(m, i);
    assert(a.skip(i).drop_first() =~= a.skip(i + 1));
    assert(m.skip(i).drop_first() =~= m.skip(i + 1));
    lemma_le_value_bound(a.take(i));
    lemma_pow256_pos(i as nat);
    let p = pow256(i as nat);
    let t = le_value(a.skip(i + 1));
    assert(a.skip(i)[0] == a[i]);
    assert(m.skip(i)[0] == m[i]);
    assert(le_value(a.skip(i)) == a[i] as nat + 256 * t);
    assert(le_value(m.skip(i)) == m[i] as nat + 256 * t);
    assert(le_value(a) < le_value(m)) by (nonlinear_arith)
        requires
            le_value(a) == le_value(a.take(i)) + p * le_value(a.skip(i)),
            le_value(m) == le_value(m.take(i)) + p * le_value(m.skip(i)),
            le_value(a.skip(i)) == a[i] as nat + 256 * t,
            le_value(m.skip(i)) == m[i] as nat + 256 * t,
            le_value(a.take(i)) < p,
            a[i] < m[i],
            p >= 1,
    ;
}

/// Compares two equally long little-endian byte strings by value.
pub fn le_bytes_lt(a: &[u8], m: &[u8]) -> (r: bool)
    requires
        a@.len() == m@.len(),
    ensures
        r == (le_value(a@) < le_value(m@)),
{
    let n = a.len();
    proof {
        assert(a@.skip(n as int) =~= m@.skip(n as int));
    }
    let mut i: usize = n;
    while i > 0
        invariant
            i <= n,
            n == a@.len(),
            a@.len() == m@.len(),
            a@.skip(i as int) == m@.skip(i as int),
        decreases i,
    {
        i = i - 1;
        if a[i] < m[i] {
            proof {
                lemma_le_value_orders(a@, m@, i as int);
            }
            return true;
        }
        if a[i] > m[i] {
            proof {
                lemma_le_value_orders(m@, a@, i as int);
            }
            return false;
        }
        proof {
            let ai = i as int;
            assert forall|j: int| 0 <= j < a@.skip(ai).len() implies a@.skip(ai)[j] == m@.skip(
                ai,
            )[j] by {
                if j > 0 {
                    assert(a@.skip(ai + 1)[j - 1] == m@.skip(ai + 1)[j - 1]);
                }
            }
            assert(a@.skip(ai) =~= m@.skip(ai));
        }
    }
    proof {
        assert(a@.skip(0) =~= a@);
        assert(m@.skip(0) =~= m@);
    }
    false
}

/// The order of the BLS12-381 scalar field, as its 32 little-endian bytes.
pub open spec fn fr_modulus_le() -> Seq<u8> {
    seq![
        0x01u8,
        0x00,
        0x00,
        0x00,
        0xff,
        0xff,
        0xff,
        0xff,
        0xfe,
        0x5b,
        0xfe,
        0xff,
        0x02,
        0xa4,
        0xbd,
        0x53,
        0x05,
        0xd8,
        0xa1,
        0x09,
        0x08,
        0xd8,
        0x39,
        0x33,
        0x48,
        0x7d,
        0x9d,
        0x29,
        0x53,
        0xa7,
        0xed,
        0x73,
    ]
}

/// A canonical encoding of a scalar-field element: exactly 32 little-endian
/// bytes whose value lies below the field order.
pub open spec fn fr_canonical(b: Seq<u8>) -> bool {
    b.len() == 32 && le_value(b) < le_value(fr_modulus_le())
}

/// The field order at runtime, proved equal to its specification bytes.
fn fr_modulus_le_bytes() -> (v: Vec<u8>)
    ensures
        v@ == fr_modulus_le(),
{
    let mut v: Vec<u8> = Vec::new();
    v.push(0x01);
    v.push(0x00);
    v.push(0x00);
    v.push(0x00);
    v.push(0xff);
    v.push(0xff);
    v.push(0xff);
    v.push(0xff);
    v.push(0xfe);
    v.push(0x5b);
    v.push(0xfe);
    v.push(0xff);
    v.push(0x02);
    v.push(0xa4);
    v.push(0xbd);
    v.push(0x53);
    v.push(0x05);
    v.push(0xd8);
    v.push(0xa1);
    v.push(0x09);
    v.push(0x08);
    v.push(0xd8);
    v.push(0x39);
    v.push(0x33);
    v.push(0x48);
    v.push(0x7d);
    v.push(0x9d);
    v.push(0x29);
    v.push(0x53);
    v.push(0xa7);
    v.push(0xed);
    v.push(0x73);
    proof {
        assert(v@ =~= fr_modulus_le());
    }
    v
}

/// Whether `b` is the canonical little-endian encoding of a scalar-field
/// element: the length and range check behind every canonical decode.
pub fn is_canonical_fr_bytes(b: &[u8]) -> (r: bool)
    ensures
        r == fr_canonical(b@),
{
    if b.len() != 32 {
        return false;
    }
    let m = fr_modulus_le_bytes();
    le_bytes_lt(b, m.as_slice())
}

/// Whether `c` is an ASCII hexadecimal digit; both letter cases count.
pub open spec fn is_hex_digit(c: char) -> bool {
    (48 <= c as u32 && c as u32 <= 57) || (97 <= c as u32 && c as u32 <= 102) || (65 <= c as u32
        && c as u32 <= 70)
}

/// The numeric value of a hexadecimal digit.
pub open spec fn hex_digit_value(c: char) -> u8 {
    if 48 <= c as u32 && c as u32 <= 57 {
        (c as u32 - 48) as u8
    } else if 97 <= c as u32 && c as u32 <= 102 {
        (c as u32 - 87) as u8
    } else {
        (c as u32 - 55) as u8
    }
}

/// A well-formed hexadecimal string: even length, hexadecimal digits only.
pub open spec fn is_hex_string(s: Seq<char>) -> bool {
    s.len() % 2 == 0 && (forall|i: int| 0 <= i < s.len() ==> is_hex_digit(s[i]))
}

/// The bytes a hexadecimal string denotes: each digit pair yields one byte,
/// high nibble first.
pub open spec fn hex_decoding(s: Seq<char>) -> Seq<u8> {
    Seq::new((s.len() / 2) as nat, |i: int| (hex_digit_value(s[2 * i]) * 16 + hex_digit_value(s[2 * i + 1])) as u8)
}

} // verus!
