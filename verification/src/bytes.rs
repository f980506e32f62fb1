//! Little-endian integers and fixed-width fields in byte strings.

use vstd::prelude::*;

verus! {

/// Two to the power 64.
pub open spec fn two_pow_64() -> int {
    0x1_0000_0000_0000_0000
}

/// 256 to the power `n`: the number of values that `n` bytes can hold.
pub open spec fn pow256(n: nat) -> nat
    decreases n,
{
    if n == 0 {
        1
    } else {
        256 * pow256((n - 1) as nat)
    }
}

/// The number that a byte string holds, least significant byte first.
pub open spec fn le_value(s: Seq<u8>) -> nat
    decreases s.len(),
{
    if s.len() == 0 {
        0
    } else {
        s[0] as nat + 256 * le_value(s.drop_first())
    }
}

/// The `n` bytes that hold `v`, least significant byte first. Where `v` does
/// not fit, its higher part is left out.
pub open spec fn le_bytes(v: nat, n: nat) -> Seq<u8>
    decreases n,
{
    if n == 0 {
        Seq::empty()
    } else {
        seq![(v % 256) as u8] + le_bytes(v / 256, (n - 1) as nat)
    }
}

/// The signed number that eight bytes hold in two's complement, least
/// significant byte first.
pub open spec fn i64_from_le(s: Seq<u8>) -> int
    recommends
        s.len() == 8,
{
    let v = le_value(s);
    if v < 0x8000_0000_0000_0000 {
        v as int
    } else {
        v - two_pow_64()
    }
}

/// The eight bytes that hold a signed 64-bit number in two's complement,
/// least significant byte first.
pub open spec fn i64_to_le(v: int) -> Seq<u8>
    recommends
        -0x8000_0000_0000_0000 <= v < 0x8000_0000_0000_0000,
{
    le_bytes(
        (if v < 0 {
            v + two_pow_64()
        } else {
            v
        }) as nat,
        8,
    )
}

/// Eight bytes have two to the 64 values.
pub proof fn lemma_pow256_8()
    ensures
        pow256(8) == two_pow_64(),
{
    reveal_with_fuel(pow256, 9);
}

/// A byte string of length `n` holds a number below 256 to the `n`.
pub proof fn lemma_le_value_bound(s: Seq<u8>)
    ensures
        le_value(s) < pow256(s.len()),
    decreases s.len(),
{
    if s.len() > 0 {
        lemma_le_value_bound(s.drop_first());
    }
}

/// Encoding gives `n` bytes, whatever the number.
pub proof fn lemma_le_bytes_len(v: nat, n: nat)
    ensures
        le_bytes(v, n).len() == n,
    decreases n,
{
    if n > 0 {
        lemma_le_bytes_len(v / 256, (n - 1) as nat);
    }
}

/// Decoding what was encoded gives the number back, where it fits.
pub proof fn lemma_le_roundtrip(v: nat, n: nat)
    requires
        v < pow256(n),
    ensures
        le_bytes(v, n).len() == n,
        le_value(le_bytes(v, n)) == v,
    decreases n,
{
    lemma_le_bytes_len(v, n);
    if n > 0 {
        let rest = le_bytes(v / 256, (n - 1) as nat);
        lemma_le_roundtrip(v / 256, (n - 1) as nat);
        assert(le_bytes(v, n).drop_first() =~= rest);
    }
}

/// Encoding what was decoded gives the byte string back.
pub proof fn lemma_le_unique(s: Seq<u8>)
    ensures
        le_bytes(le_value(s), s.len()) == s,
    decreases s.len(),
{
    if s.len() == 0 {
        assert(le_bytes(le_value(s), s.len()) =~= s);
    } else {
        let v = le_value(s);
        lemma_le_unique(s.drop_first());
        assert(v % 256 == s[0]);
        assert(v / 256 == le_value(s.drop_first()));
        assert(le_bytes(v, s.len()) =~= s);
    }
}

/// Eight bytes always hold a number that fits a signed 64-bit integer.
pub proof fn lemma_i64_from_le_bound(s: Seq<u8>)
    requires
        s.len() == 8,
    ensures
        -0x8000_0000_0000_0000 <= i64_from_le(s) < 0x8000_0000_0000_0000,
{
    lemma_le_value_bound(s);
    lemma_pow256_8();
}

/// Decoding what was encoded gives the signed number back.
pub proof fn lemma_i64_le_roundtrip(v: int)
    requires
        -0x8000_0000_0000_0000 <= v < 0x8000_0000_0000_0000,
    ensures
        i64_to_le(v).len() == 8,
        i64_from_le(i64_to_le(v)) == v,
{
    let u: nat = (if v < 0 {
        v + two_pow_64()
    } else {
        v
    }) as nat;
    lemma_pow256_8();
    lemma_le_roundtrip(u, 8);
}

/// Encoding what was decoded gives the eight bytes back, for signed numbers.
pub proof fn lemma_i64_le_unique(s: Seq<u8>)
    requires
        s.len() == 8,
    ensures
        i64_to_le(i64_from_le(s)) == s,
{
    lemma_le_value_bound(s);
    lemma_pow256_8();
    lemma_le_unique(s);
}

/// The number that eight bytes hold, written out byte by byte.
pub proof fn lemma_le_value_8(s: Seq<u8>)
    requires
        s.len() == 8,
    ensures
        le_value(s) == s[0] + 256 * (s[1] + 256 * (s[2] + 256 * (s[3] + 256 * (s[4] + 256 * (s[5]
            + 256 * (s[6] + 256 * s[7])))))),
{
    reveal_with_fuel(le_value, 9);
}

/// The eight bytes that hold a number, written out byte by byte.
pub proof fn lemma_le_bytes_8(v: nat)
    ensures
        le_bytes(v, 8) == seq![
            (v % 256) as u8,
            (v / 256 % 256) as u8,
            (v / 256 / 256 % 256) as u8,
            (v / 256 / 256 / 256 % 256) as u8,
            (v / 256 / 256 / 256 / 256 % 256) as u8,
            (v / 256 / 256 / 256 / 256 / 256 % 256) as u8,
            (v / 256 / 256 / 256 / 256 / 256 / 256 % 256) as u8,
            (v / 256 / 256 / 256 / 256 / 256 / 256 / 256 % 256) as u8,
        ],
{
    reveal_with_fuel(le_bytes, 9);
    assert(le_bytes(v, 8) =~= seq![
        (v % 256) as u8,
        (v / 256 % 256) as u8,
        (v / 256 / 256 % 256) as u8,
        (v / 256 / 256 / 256 % 256) as u8,
        (v / 256 / 256 / 256 / 256 % 256) as u8,
        (v / 256 / 256 / 256 / 256 / 256 % 256) as u8,
        (v / 256 / 256 / 256 / 256 / 256 / 256 % 256) as u8,
        (v / 256 / 256 / 256 / 256 / 256 / 256 / 256 % 256) as u8,
    ]);
}

/// Reads the unsigned 64-bit number that stands at `offset`.
pub fn read_u64(data: &[u8], offset: usize) -> (r: u64)
    requires
        offset + 8 <= data@.len(),
    ensures
        r == le_value(data@.subrange(offset as int, offset + 8)),
{
    let b0: u64 = data[offset] as u64;
    let b1: u64 = data[offset + 1] as u64;
    let b2: u64 = data[offset + 2] as u64;
    let b3: u64 = data[offset + 3] as u64;
    let b4: u64 = data[offset + 4] as u64;
    let b5: u64 = data[offset + 5] as u64;
    let b6: u64 = data[offset + 6] as u64;
    let b7: u64 = data[offset + 7] as u64;
    proof {
        lemma_le_value_8(data@.subrange(offset as int, offset + 8));
    }
    b0 + 256 * (b1 + 256 * (b2 + 256 * (b3 + 256 * (b4 + 256 * (b5 + 256 * (b6 + 256 * b7))))))
}

/// Reads the signed 64-bit number that stands at `offset`.
pub fn read_i64(data: &[u8], offset: usize) -> (r: i64)
    requires
        offset + 8 <= data@.len(),
    ensures
        r == i64_from_le(data@.subrange(offset as int, offset + 8)),
{
    let v: u64 = read_u64(data, offset);
    if v < 0x8000_0000_0000_0000 {
        v as i64
    } else {
        ((v - 0x8000_0000_0000_0000) as i64) + i64::MIN
    }
}

/// Reads the 32 bytes that stand at `offset`.
pub fn read_key(data: &[u8], offset: usize) -> (r: [u8; 32])
    requires
        offset + 32 <= data@.len(),
    ensures
        r@ == data@.subrange(offset as int, offset + 32),
{
    let len: usize = data.len();
    let mut key: [u8; 32] = [0u8; 32];
    let mut i: usize = 0;
    while i < 32
        invariant
            i <= 32,
            offset + 32 <= data@.len() == len,
            forall|j: int| 0 <= j < i ==> key@[j] == data@[offset + j],
        decreases 32 - i,
    {
        key[i] = data[offset + i];
        i = i + 1;
    }
    assert(key@ =~= data@.subrange(offset as int, offset + 32));
    key
}

/// Appends the eight bytes of an unsigned 64-bit number.
pub fn write_u64(out: &mut Vec<u8>, v: u64)
    ensures
        final(out)@ == old(out)@ + le_bytes(v as nat, 8),
{
    let v1: u64 = v / 256;
    let v2: u64 = v1 / 256;
    let v3: u64 = v2 / 256;
    let v4: u64 = v3 / 256;
    let v5: u64 = v4 / 256;
    let v6: u64 = v5 / 256;
    let v7: u64 = v6 / 256;
    out.push((v % 256) as u8);
    out.push((v1 % 256) as u8);
    out.push((v2 % 256) as u8);
    out.push((v3 % 256) as u8);
    out.push((v4 % 256) as u8);
    out.push((v5 % 256) as u8);
    out.push((v6 % 256) as u8);
    out.push((v7 % 256) as u8);
    proof {
        lemma_le_bytes_8(v as nat);
        assert(out@ =~= old(out)@ + le_bytes(v as nat, 8));
    }
}

/// Appends the eight bytes of a signed 64-bit number.
pub fn write_i64(out: &mut Vec<u8>, v: i64)
    ensures
        final(out)@ == old(out)@ + i64_to_le(v as int),
{
    let u: u64 = if v >= 0 {
        v as u64
    } else {
        ((v - i64::MIN) as u64) + 0x8000_0000_0000_0000
    };
    write_u64(out, u);
}

/// Appends a byte string.
pub fn write_bytes(out: &mut Vec<u8>, src: &[u8])
    ensures
        final(out)@ == old(out)@ + src@,
{
    let mut i: usize = 0;
    while i < src.len()
        invariant
            i <= src@.len(),
            out@ == old(out)@ + src@.subrange(0, i as int),
        decreases src@.len() - i,
    {
        out.push(src[i]);
        i = i + 1;
        assert(out@ =~= old(out)@ + src@.subrange(0, i as int));
    }
    assert(src@.subrange(0, i as int) =~= src@);
}

} // verus!
