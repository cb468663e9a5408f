//! Variable-length integers: 62-bit values, their saturating arithmetic and
//! their encoding on the wire.

use vstd::prelude::*;

verus! {

/// The largest value a variable-length integer can hold, 2^62 - 1.
pub const MAX_VARINT_VALUE: u64 = 4_611_686_018_427_387_903;

/// The sum of two values, held at the largest value where it would pass it.
pub open spec fn saturating_sum(a: u64, b: u64) -> u64 {
    if a + b > MAX_VARINT_VALUE {
        MAX_VARINT_VALUE
    } else {
        (a + b) as u64
    }
}

/// `s2n_quic_core::varint::VarInt::saturating_add` on two values in range:
/// the contract claims that it returns their sum, or the largest value where
/// the sum would exceed it.
#[verifier::external_body]
pub(crate) fn varint_saturating_add(a: u64, b: u64) -> (sum: u64)
    requires
        a <= MAX_VARINT_VALUE,
        b <= MAX_VARINT_VALUE,
    ensures
        sum == saturating_sum(a, b),
{
    let max = s2n_quic_core::varint::VarInt::MAX;
    let a = s2n_quic_core::varint::VarInt::new(a).unwrap_or(max);
    let b = s2n_quic_core::varint::VarInt::new(b).unwrap_or(max);
    a.saturating_add(b).as_u64()
}

/// Adds two values in range, saturating at the largest value.
pub fn saturating_add(a: u64, b: u64) -> (sum: u64)
    requires
        a <= MAX_VARINT_VALUE,
        b <= MAX_VARINT_VALUE,
    ensures
        sum == saturating_sum(a, b),
        sum <= MAX_VARINT_VALUE,
        sum >= a,
        sum >= b,
{
    varint_saturating_add(a, b)
}

/// Number of bytes in the encoding of `v`.
pub open spec fn encoded_len(v: u64) -> nat {
    if v < 0x40 {
        1
    } else if v < 0x4000 {
        2
    } else if v < 0x4000_0000 {
        4
    } else {
        8
    }
}

/// The encoding of `v`: the two high bits of the first byte give the length,
/// the remaining bits hold the value in network byte order.
pub open spec fn encoding(v: u64) -> Seq<u8> {
    if v < 0x40 {
        seq![v as u8]
    } else if v < 0x4000 {
        seq![(0x40 + v / 0x100) as u8, (v % 0x100) as u8]
    } else if v < 0x4000_0000 {
        seq![
            (0x80 + v / 0x100_0000) as u8,
            (v / 0x1_0000 % 0x100) as u8,
            (v / 0x100 % 0x100) as u8,
            (v % 0x100) as u8,
        ]
    } else {
        seq![
            (0xc0 + v / 0x100_0000_0000_0000) as u8,
            (v / 0x1_0000_0000_0000 % 0x100) as u8,
            (v / 0x100_0000_0000 % 0x100) as u8,
            (v / 0x1_0000_0000 % 0x100) as u8,
            (v / 0x100_0000 % 0x100) as u8,
            (v / 0x1_0000 % 0x100) as u8,
            (v / 0x100 % 0x100) as u8,
            (v % 0x100) as u8,
        ]
    }
}

/// Length announced by the first byte of an encoding.
pub open spec fn announced_len(first: u8) -> nat {
    if first < 0x40 {
        1
    } else if first < 0x80 {
        2
    } else if first < 0xc0 {
        4
    } else {
        8
    }
}

/// The value held by an encoding of eight bytes at most whose first byte is
/// `first` with its two length bits cleared.
pub open spec fn decoded_value(bytes: Seq<u8>, n: nat) -> nat
    recommends
        bytes.len() >= n,
{
    let b0 = (bytes[0] % 0x40) as nat;
    if n == 1 {
        b0
    } else if n == 2 {
        b0 * 0x100 + bytes[1] as nat
    } else if n == 4 {
        b0 * 0x100_0000 + bytes[1] as nat * 0x1_0000 + bytes[2] as nat * 0x100 + bytes[3] as nat
    } else {
        b0 * 0x100_0000_0000_0000 + bytes[1] as nat * 0x1_0000_0000_0000 + bytes[2] as nat
            * 0x100_0000_0000 + bytes[3] as nat * 0x1_0000_0000 + bytes[4] as nat * 0x100_0000
            + bytes[5] as nat * 0x1_0000 + bytes[6] as nat * 0x100 + bytes[7] as nat
    }
}

/// What the front of `bytes` decodes to: the value and the number of bytes
/// it took, or `None` where `bytes` ends before the announced length.
pub open spec fn decoding(bytes: Seq<u8>) -> Option<(u64, nat)> {
    if bytes.len() == 0 || bytes.len() < announced_len(bytes[0]) {
        None
    } else {
        let n = announced_len(bytes[0]);
        Some((decoded_value(bytes, n) as u64, n))
    }
}

/// Number of bytes that `encode` writes for `v`.
pub fn encoding_size(v: u64) -> (n: usize)
    ensures
        n == encoded_len(v),
{
    if v < 0x40 {
        1
    } else if v < 0x4000 {
        2
    } else if v < 0x4000_0000 {
        4
    } else {
        8
    }
}

/// Appends the encoding of `v` to `out`.
pub fn encode(v: u64, out: &mut Vec<u8>)
    requires
        v <= MAX_VARINT_VALUE,
    ensures
        final(out)@ == old(out)@ + encoding(v),
{
    let ghost before = out@;
    if v < 0x40 {
        out.push(v as u8);
    } else if v < 0x4000 {
        out.push((0x40 + v / 0x100) as u8);
        out.push((v % 0x100) as u8);
    } else if v < 0x4000_0000 {
        out.push((0x80 + v / 0x100_0000) as u8);
        out.push((v / 0x1_0000 % 0x100) as u8);
        out.push((v / 0x100 % 0x100) as u8);
        out.push((v % 0x100) as u8);
    } else {
        out.push((0xc0 + v / 0x100_0000_0000_0000) as u8);
        out.push((v / 0x1_0000_0000_0000 % 0x100) as u8);
        out.push((v / 0x100_0000_0000 % 0x100) as u8);
        out.push((v / 0x1_0000_0000 % 0x100) as u8);
        out.push((v / 0x100_0000 % 0x100) as u8);
        out.push((v / 0x1_0000 % 0x100) as u8);
        out.push((v / 0x100 % 0x100) as u8);
        out.push((v % 0x100) as u8);
    }
    assert(out@ =~= before + encoding(v));
}

/// Reads one value from the front of `bytes`, with the number of bytes read.
pub fn decode(bytes: &[u8]) -> (r: Option<(u64, usize)>)
    ensures
        match r {
            Some((value, len)) => decoding(bytes@) == Some((value, len as nat)) && value
                <= MAX_VARINT_VALUE && 1 <= len <= bytes@.len(),
            None => decoding(bytes@) is None,
        },
{
    if bytes.len() == 0 {
        return None;
    }
    let first: u8 = bytes[0];
    let b0: u64 = (first % 0x40) as u64;
    if first < 0x40 {
        Some((b0, 1))
    } else if first < 0x80 {
        if bytes.len() < 2 {
            return None;
        }
        Some((b0 * 0x100 + bytes[1] as u64, 2))
    } else if first < 0xc0 {
        if bytes.len() < 4 {
            return None;
        }
        Some(
            (
                b0 * 0x100_0000 + bytes[1] as u64 * 0x1_0000 + bytes[2] as u64 * 0x100
                    + bytes[3] as u64,
                4,
            ),
        )
    } else {
        if bytes.len() < 8 {
            return None;
        }
        Some(
            (
                b0 * 0x100_0000_0000_0000 + bytes[1] as u64 * 0x1_0000_0000_0000 + bytes[2] as u64
                    * 0x100_0000_0000 + bytes[3] as u64 * 0x1_0000_0000 + bytes[4] as u64
                    * 0x100_0000 + bytes[5] as u64 * 0x1_0000 + bytes[6] as u64 * 0x100
                    + bytes[7] as u64,
                8,
            ),
        )
    }
}

proof fn lemma_nested_division(v: u64)
    ensures
        v / 0x1_0000 == v / 0x100 / 0x100,
        v / 0x100_0000 == v / 0x1_0000 / 0x100,
        v / 0x1_0000_0000 == v / 0x100_0000 / 0x100,
        v / 0x100_0000_0000 == v / 0x1_0000_0000 / 0x100,
        v / 0x1_0000_0000_0000 == v / 0x100_0000_0000 / 0x100,
        v / 0x100_0000_0000_0000 == v / 0x1_0000_0000_0000 / 0x100,
{
}

proof fn lemma_value_of_encoding(v: u64)
    requires
        v <= MAX_VARINT_VALUE,
    ensures
        encoding(v).len() == encoded_len(v),
        announced_len(encoding(v)[0]) == encoded_len(v),
        decoded_value(encoding(v), encoded_len(v)) == v,
{
    lemma_nested_division(v);
    let e = encoding(v);
    if v < 0x40 {
    } else if v < 0x4000 {
        assert(e[0] == 0x40 + v / 0x100);
    } else if v < 0x4000_0000 {
        assert(e[0] == 0x80 + v / 0x100_0000);
        assert(e[0] % 0x40 == v / 0x100_0000);
    } else {
        let q = v / 0x100_0000_0000_0000;
        assert(q < 0x40);
        assert(e[0] == 0xc0 + q);
        assert(e[0] % 0x40 == q);
        assert(e[1] == v / 0x1_0000_0000_0000 % 0x100);
        assert(e[2] == v / 0x100_0000_0000 % 0x100);
        assert(e[3] == v / 0x1_0000_0000 % 0x100);
        assert(e[4] == v / 0x100_0000 % 0x100);
        assert(e[5] == v / 0x1_0000 % 0x100);
        assert(e[6] == v / 0x100 % 0x100);
        assert(e[7] == v % 0x100);
    }
}

/// Decoding what `encode` wrote gives the value back and consumes exactly
/// its encoding, whatever follows it.
pub proof fn lemma_decode_encode(v: u64, rest: Seq<u8>)
    requires
        v <= MAX_VARINT_VALUE,
    ensures
        encoding(v).len() == encoded_len(v),
        decoding(encoding(v) + rest) == Some((v, encoded_len(v))),
{
    lemma_value_of_encoding(v);
    let bytes = encoding(v) + rest;
    let e = encoding(v);
    assert(forall|i: int| 0 <= i < e.len() ==> bytes[i] == e[i]);
    assert(bytes[0] == e[0]);
    assert(decoded_value(bytes, encoded_len(v)) == decoded_value(e, encoded_len(v))) by {
        if e.len() >= 2 {
            assert(bytes[1] == e[1]);
        }
        if e.len() >= 4 {
            assert(bytes[2] == e[2] && bytes[3] == e[3]);
        }
        if e.len() >= 8 {
            assert(bytes[4] == e[4] && bytes[5] == e[5] && bytes[6] == e[6] && bytes[7] == e[7]);
        }
    }
}

} // verus!
