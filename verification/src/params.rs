//! The hash-parameter block: the byte format in which a Poseidon
//! configuration travels, and its verified parser.
//!
//! The backend defines no byte layout for its hash configuration, so the
//! library fixes one: a 40-byte header of five little-endian 64-bit counts
//! (full rounds, partial rounds, the S-box exponent alpha, rate, capacity),
//! followed by the round-constant matrix and then the MDS matrix, row-major,
//! every entry a canonical scalar-field element.  Malformed blocks are
//! rejected with a decode error; the parser is verified against the layout
//! specification below.

use vstd::prelude::*;

use crate::backend::{
    fr_decoding, fr_deserialize_canonical, poseidon_config_new, poseidon_config_of, rows_view,
    FieldElement, HashParameters,
};
use crate::codec::{
    fr_canonical, is_canonical_fr_bytes, le_value, lemma_le_value_bound, pow256,
};
use crate::errors::{DecodeField, ProofError};

verus! {

/// The little-endian 64-bit count stored at byte offset `off`.
pub open spec fn u64_at(b: Seq<u8>, off: int) -> nat {
    le_value(b.subrange(off, off + 8))
}

/// The 32 bytes of the `k`-th field element of the block starting at `base`.
pub open spec fn element_bytes(b: Seq<u8>, base: int, k: int) -> Seq<u8> {
    b.subrange(base + 32 * k, base + 32 * k + 32)
}

/// All `count` elements of the block starting at `base` are canonical.
pub open spec fn all_canonical(b: Seq<u8>, base: int, count: int) -> bool {
    forall|k: int| 0 <= k < count ==> fr_canonical(element_bytes(b, base, k))
}

/// The `rows` by `cols` matrix of decoded elements of the block starting at
/// `base`, row-major.
pub open spec fn element_matrix(b: Seq<u8>, base: int, rows: nat, cols: nat) -> Seq<
    Seq<FieldElement>,
> {
    Seq::new(
        rows,
        |i: int| Seq::new(cols, |j: int| fr_decoding(element_bytes(b, base, i * cols as int + j))),
    )
}

/// Sanity bounds on the declared dimensions.  They keep every offset
/// computation small and reject blocks no Poseidon instance would use.
pub open spec fn poseidon_dims_ok(full: nat, partial: nat, rate: nat, cap: nat) -> bool {
    &&& 1 <= rate <= 63
    &&& 1 <= cap <= 63
    &&& rate + cap <= 64
    &&& full <= 512
    &&& partial <= 512
    &&& 1 <= full + partial
}

/// How many field elements a block with these dimensions carries: one
/// round-constant row per round, then the square MDS matrix, each row as
/// wide as the sponge state.
pub open spec fn poseidon_elem_count(full: nat, partial: nat, rate: nat, cap: nat) -> nat {
    (full + partial) * (rate + cap) + (rate + cap) * (rate + cap)
}

/// A well-formed hash-parameter block: plausible dimensions, exactly the
/// declared number of matrix entries, every entry canonical.
pub open spec fn poseidon_params_wf(b: Seq<u8>) -> bool {
    &&& b.len() >= 40
    &&& poseidon_dims_ok(u64_at(b, 0), u64_at(b, 8), u64_at(b, 24), u64_at(b, 32))
    &&& b.len() == 40 + 32 * poseidon_elem_count(
        u64_at(b, 0),
        u64_at(b, 8),
        u64_at(b, 24),
        u64_at(b, 32),
    )
    &&& all_canonical(
        b,
        40,
        poseidon_elem_count(u64_at(b, 0), u64_at(b, 8), u64_at(b, 24), u64_at(b, 32)) as int,
    )
}

/// The configuration a well-formed block denotes: its header counts and the
/// two decoded matrices, bundled by the backend's constructor.
pub open spec fn decoded_params(b: Seq<u8>) -> HashParameters {
    let full = u64_at(b, 0);
    let partial = u64_at(b, 8);
    let alpha = u64_at(b, 16);
    let rate = u64_at(b, 24);
    let cap = u64_at(b, 32);
    let t = rate + cap;
    poseidon_config_of(
        full,
        partial,
        alpha,
        element_matrix(b, (40 + 32 * ((full + partial) * t)) as int, t, t),
        element_matrix(b, 40, full + partial, t),
        rate,
        cap,
    )
}

proof fn lemma_pow256_values()
    ensures
        pow256(7) == 0x100000000000000,
        pow256(8) == 0x10000000000000000,
{
    reveal_with_fuel(pow256, 9);
}

/// Reads the little-endian 64-bit count at byte offset `off`.
pub fn read_u64_le(b: &[u8], off: usize) -> (r: u64)
    requires
        off + 8 <= b@.len(),
    ensures
        r as nat == u64_at(b@, off as int),
{
    let blen: usize = b.len();
    proof {
        assert(off + 8 <= blen);
        assert(b@.subrange(off as int + 8, off as int + 8) =~= Seq::<u8>::empty());
    }
    let mut acc: u64 = 0;
    let mut i: usize = 8;
    while i > 0
        invariant
            off + 8 <= blen,
            blen == b@.len(),
            i <= 8,
            acc as nat == le_value(b@.subrange(off as int + i, off as int + 8)),
        decreases i,
    {
        proof {
            lemma_le_value_bound(b@.subrange(off as int + i, off as int + 8));
            lemma_pow256_values();
            if 8 - i < 7 {
                lemma_pow256_mono((8 - i) as nat, 7);
            }
        }
        i = i - 1;
        acc = acc * 256 + (b[off + i] as u64);
        proof {
            let s = b@.subrange(off as int + i, off as int + 8);
            assert(s.drop_first() =~= b@.subrange(off as int + i + 1, off as int + 8));
            assert(s[0] == b@[off as int + i]);
        }
    }
    acc
}

proof fn lemma_pow256_mono(m: nat, n: nat)
    requires
        m <= n,
    ensures
        pow256(m) <= pow256(n),
    decreases n,
{
    if m < n {
        lemma_pow256_mono(m, (n - 1) as nat);
        crate::codec::lemma_pow256_pos((n - 1) as nat);
    }
}

/// Parses `rows * cols` canonical field elements row-major from the block
/// starting at `base`, or reports the block malformed.
fn decode_fr_matrix(bytes: &[u8], base: usize, rows: usize, cols: usize) -> (r: Option<
    Vec<Vec<FieldElement>>,
>)
    requires
        base + 32 * (rows * cols) <= bytes@.len(),
    ensures
        r is Some <==> all_canonical(bytes@, base as int, (rows * cols) as int),
        r matches Some(m) ==> m@.len() == rows && (forall|i: int|
            0 <= i < rows ==> m@[i]@.len() == cols) && rows_view(m@) == element_matrix(
            bytes@,
            base as int,
            rows as nat,
            cols as nat,
        ),
{
    let blen: usize = bytes.len();
    let mut out: Vec<Vec<FieldElement>> = Vec::new();
    let mut i: usize = 0;
    while i < rows
        invariant
            blen == bytes@.len(),
            base + 32 * (rows * cols) <= blen,
            i <= rows,
            out@.len() == i,
            forall|i2: int| 0 <= i2 < i ==> out@[i2]@.len() == cols,
            forall|i2: int, j2: int|
                0 <= i2 < i && 0 <= j2 < cols ==> out@[i2]@[j2] == fr_decoding(
                    element_bytes(bytes@, base as int, i2 * cols + j2),
                ),
            all_canonical(bytes@, base as int, (i * cols) as int),
        decreases rows - i,
    {
        proof {
            assert(i * cols <= rows * cols) by (nonlinear_arith)
                requires
                    0 <= cols,
                    0 <= i <= rows,
            ;
        }
        let mut row: Vec<FieldElement> = Vec::new();
        let mut j: usize = 0;
        while j < cols
            invariant
                blen == bytes@.len(),
                base + 32 * (rows * cols) <= blen,
                i < rows,
                j <= cols,
                row@.len() == j,
                forall|j2: int|
                    0 <= j2 < j ==> row@[j2] == fr_decoding(
                        element_bytes(bytes@, base as int, i * cols + j2),
                    ),
                all_canonical(bytes@, base as int, (i * cols) as int),
                forall|k: int|
                    i * cols <= k < i * cols + j ==> fr_canonical(
                        element_bytes(bytes@, base as int, k),
                    ),
            decreases cols - j,
        {
            proof {
                assert(i * cols + j < rows * cols) by (nonlinear_arith)
                    requires
                        0 <= j < cols,
                        0 <= i < rows,
                ;
            }
            let k: usize = i * cols + j;
            let off: usize = base + 32 * k;
            let chunk: &[u8] = &bytes[off..off + 32];
            proof {
                assert(chunk@ =~= element_bytes(bytes@, base as int, k as int));
            }
            if !is_canonical_fr_bytes(chunk) {
                proof {
                    assert(!fr_canonical(element_bytes(bytes@, base as int, k as int)));
                }
                return None;
            }
            row.push(fr_deserialize_canonical(chunk));
            j = j + 1;
        }
        out.push(row);
        i = i + 1;
        proof {
            assert((i - 1) * cols + cols == i * cols) by (nonlinear_arith);
            assert forall|k: int| 0 <= k < i * cols implies fr_canonical(
                element_bytes(bytes@, base as int, k),
            ) by {
                assert((i - 1) * cols <= k < (i - 1) * cols + cols || 0 <= k < (i - 1) * cols);
            }
        }
    }
    proof {
        assert(i * cols == rows * cols);
        assert forall|i2: int| 0 <= i2 < rows implies rows_view(out@)[i2] == element_matrix(
            bytes@,
            base as int,
            rows as nat,
            cols as nat,
        )[i2] by {
            assert(rows_view(out@)[i2] == out@[i2]@);
            assert(out@[i2]@ =~= Seq::new(
                cols as nat,
                |j: int| fr_decoding(element_bytes(bytes@, base as int, i2 * cols as int + j)),
            ));
        }
        assert(rows_view(out@) =~= element_matrix(bytes@, base as int, rows as nat, cols as nat));
    }
    Some(out)
}

/// Parses a hash-parameter block into the backend's Poseidon configuration.
///
/// Succeeds exactly on well-formed blocks; every malformed block — short
/// header, implausible dimensions, wrong length, or a non-canonical matrix
/// entry — is rejected with a decode error naming the hash parameters.
pub fn decode_hash_parameters(bytes: &[u8]) -> (r: Result<HashParameters, ProofError>)
    ensures
        r is Ok <==> poseidon_params_wf(bytes@),
        r matches Ok(h) ==> h == decoded_params(bytes@),
        r is Err ==> r->Err_0 == ProofError::Decode(DecodeField::HashParameters),
{
    if bytes.len() < 40 {
        return Err(ProofError::Decode(DecodeField::HashParameters));
    }
    let full = read_u64_le(bytes, 0);
    let partial = read_u64_le(bytes, 8);
    let alpha = read_u64_le(bytes, 16);
    let rate = read_u64_le(bytes, 24);
    let cap = read_u64_le(bytes, 32);
    let dims_ok = 1 <= rate && rate <= 63 && 1 <= cap && cap <= 63 && rate + cap <= 64 && full
        <= 512 && partial <= 512 && 1 <= full + partial;
    if !dims_ok {
        return Err(ProofError::Decode(DecodeField::HashParameters));
    }
    let t: usize = (rate + cap) as usize;
    let rounds: usize = (full + partial) as usize;
    proof {
        assert(rounds * t <= 1024 * 64) by (nonlinear_arith)
            requires
                0 <= rounds <= 1024,
                0 <= t <= 64,
        ;
        assert(t * t <= 64 * 64) by (nonlinear_arith)
            requires
                0 <= t <= 64,
        ;
    }
    let n_ark: usize = rounds * t;
    let n_mds: usize = t * t;
    let n: usize = n_ark + n_mds;
    let expected: usize = 40 + 32 * n;
    proof {
        assert(n as nat == poseidon_elem_count(
            u64_at(bytes@, 0),
            u64_at(bytes@, 8),
            u64_at(bytes@, 24),
            u64_at(bytes@, 32),
        ));
    }
    if bytes.len() != expected {
        return Err(ProofError::Decode(DecodeField::HashParameters));
    }
    let ark_rows = match decode_fr_matrix(bytes, 40, rounds, t) {
        Some(m) => m,
        None => {
            return Err(ProofError::Decode(DecodeField::HashParameters));
        },
    };
    let mds_base: usize = 40 + 32 * n_ark;
    let mds_rows = match decode_fr_matrix(bytes, mds_base, t, t) {
        Some(m) => m,
        None => {
            proof {
                lemma_all_canonical_shift(bytes@, 40, n_ark as int, n_mds as int);
            }
            return Err(ProofError::Decode(DecodeField::HashParameters));
        },
    };
    proof {
        lemma_all_canonical_shift(bytes@, 40, n_ark as int, n_mds as int);
        lemma_all_canonical_merge(bytes@, 40, n_ark as int, n_mds as int);
    }
    let cfg = poseidon_config_new(full as usize, partial as usize, alpha, mds_rows, ark_rows, rate
        as usize, cap as usize);
    proof {
        let b = bytes@;
        assert((full as usize) as nat == u64_at(b, 0));
        assert((partial as usize) as nat == u64_at(b, 8));
        assert(alpha as nat == u64_at(b, 16));
        assert((rate as usize) as nat == u64_at(b, 24));
        assert((cap as usize) as nat == u64_at(b, 32));
        assert(rounds as nat == u64_at(b, 0) + u64_at(b, 8));
        assert(t as nat == u64_at(b, 24) + u64_at(b, 32));
        assert(n_ark as nat == (u64_at(b, 0) + u64_at(b, 8)) * (u64_at(b, 24) + u64_at(b, 32)));
        assert(mds_base as int == (40 + 32 * ((u64_at(b, 0) + u64_at(b, 8)) * (u64_at(b, 24)
            + u64_at(b, 32)))) as int);
        assert(cfg == decoded_params(b));
    }
    Ok(cfg)
}

/// The elements of the block at `base + 32 * mid` are the elements of the
/// block at `base`, shifted by `mid`.
proof fn lemma_all_canonical_shift(b: Seq<u8>, base: int, mid: int, count: int)
    requires
        0 <= mid,
        0 <= count,
    ensures
        all_canonical(b, base + 32 * mid, count) <==> (forall|k: int|
            mid <= k < mid + count ==> fr_canonical(element_bytes(b, base, k))),
{
    assert forall|k: int| 0 <= k < count implies #[trigger] element_bytes(b, base + 32 * mid, k)
        == element_bytes(b, base, mid + k) by {
        assert((base + 32 * mid) + 32 * k == base + 32 * (mid + k));
    }
    if all_canonical(b, base + 32 * mid, count) {
        assert forall|k: int| mid <= k < mid + count implies fr_canonical(
            element_bytes(b, base, k),
        ) by {
            assert(fr_canonical(element_bytes(b, base + 32 * mid, k - mid)));
        }
    } else {
        let k0 = choose|k: int|
            0 <= k < count && !fr_canonical(#[trigger] element_bytes(b, base + 32 * mid, k));
        assert(!fr_canonical(element_bytes(b, base, mid + k0)));
    }
}

/// Two adjacent all-canonical blocks make one.
proof fn lemma_all_canonical_merge(b: Seq<u8>, base: int, mid: int, count: int)
    requires
        0 <= mid,
        0 <= count,
        all_canonical(b, base, mid),
        forall|k: int| mid <= k < mid + count ==> fr_canonical(element_bytes(b, base, k)),
    ensures
        all_canonical(b, base, mid + count),
{
}

} // verus!
