//! Wire encodings of the Java protocol's primitive fields: `VarInt`,
//! big-endian `i16` and `i64`, and `bool`.

use vstd::prelude::*;

verus! {

/// Why a field could not be read.
#[derive(Clone, Copy, PartialEq, Eq, Debug, Structural)]
pub enum ReadingError {
    /// The input ended inside the field.
    Incomplete,
    /// A `VarInt` ran past its five bytes.
    TooLarge,
}

/// A variable-length encoded `i32`.
#[derive(Clone, Copy, PartialEq, Eq, Debug, Structural)]
pub struct VarInt(pub i32);

/// Largest number of bytes of a `VarInt`.
pub const VAR_INT_MAX_SIZE: usize = 5;

/// 2^32.
pub open spec fn two_32() -> int {
    0x1_0000_0000
}

/// The unsigned number with the bits of `v`.
pub open spec fn unsigned_of(v: i32) -> nat {
    if v >= 0 {
        v as nat
    } else {
        (v + two_32()) as nat
    }
}

/// The `i32` with the low 32 bits of `u`.
pub open spec fn signed_of(u: nat) -> i32 {
    let low = u % (two_32() as nat);
    if low < 0x8000_0000 {
        low as i32
    } else {
        (low - two_32()) as i32
    }
}

/// Seven bits per byte, least significant group first; every byte but the
/// last has its high bit set.
pub open spec fn varint_bytes(u: nat) -> Seq<u8>
    decreases u,
{
    if u < 128 {
        seq![u as u8]
    } else {
        seq![(u % 128 + 128) as u8] + varint_bytes(u / 128)
    }
}

/// Reads a `VarInt` from the front of `bytes`, allowing at most `budget`
/// bytes: the unsigned value read and the number of bytes used.
pub open spec fn varint_read(bytes: Seq<u8>, budget: nat) -> Result<(nat, nat), ReadingError>
    decreases budget,
{
    if budget == 0 {
        Err(ReadingError::TooLarge)
    } else if bytes.len() == 0 {
        Err(ReadingError::Incomplete)
    } else if bytes[0] < 128 {
        Ok((bytes[0] as nat, 1))
    } else {
        match varint_read(bytes.skip(1), (budget - 1) as nat) {
            Ok(r) => Ok((((bytes[0] - 128) + 128 * r.0) as nat, r.1 + 1)),
            Err(e) => Err(e),
        }
    }
}

/// What reading a `VarInt` from the front of `bytes` gives: the value (its
/// low 32 bits) and the number of bytes used.
pub open spec fn varint_decode(bytes: Seq<u8>) -> Result<(i32, nat), ReadingError> {
    match varint_read(bytes, VAR_INT_MAX_SIZE as nat) {
        Ok(r) => Ok((signed_of(r.0), r.1)),
        Err(e) => Err(e),
    }
}

proof fn lemma_varint_len(u: nat, k: nat, bound: nat)
    requires
        u < bound,
        bound == pow128(k),
    ensures
        varint_bytes(u).len() <= k || k == 0,
        k > 0 ==> varint_bytes(u).len() <= k,
        varint_bytes(u).len() >= 1,
    decreases u,
{
    if u >= 128 {
        if k > 0 {
            assert(pow128(k) == 128 * pow128((k - 1) as nat));
            lemma_pow128_positive((k - 1) as nat);
            assert(u / 128 < pow128((k - 1) as nat)) by (nonlinear_arith)
                requires
                    u < 128 * pow128((k - 1) as nat),
                    u >= 0,
            ;
            lemma_varint_len(u / 128, (k - 1) as nat, pow128((k - 1) as nat));
            if k == 1 {
                assert(pow128(0) == 1);
            }
        } else {
            lemma_varint_len(u / 128, 0, pow128(0));
        }
    } else {
        if k == 0 {
            assert(pow128(0) == 1);
        }
    }
}

/// 128^k.
pub open spec fn pow128(k: nat) -> nat
    decreases k,
{
    if k == 0 {
        1
    } else {
        128 * pow128((k - 1) as nat)
    }
}

proof fn lemma_pow128_positive(k: nat)
    ensures
        pow128(k) >= 1,
    decreases k,
{
    if k > 0 {
        lemma_pow128_positive((k - 1) as nat);
    }
}

/// Reading back the bytes of an encoded `VarInt`, whatever follows them,
/// gives the encoded number and the encoding's length.
pub proof fn lemma_varint_read_encoded(u: nat, rest: Seq<u8>, budget: nat)
    requires
        varint_bytes(u).len() <= budget,
    ensures
        varint_read(varint_bytes(u) + rest, budget) == Ok::<(nat, nat), ReadingError>(
            (u, varint_bytes(u).len()),
        ),
    decreases u,
{
    let bytes = varint_bytes(u) + rest;
    if u < 128 {
        assert(bytes[0] == u as u8);
    } else {
        let tail = varint_bytes(u / 128);
        assert(bytes[0] == (u % 128 + 128) as u8);
        assert(bytes.skip(1) =~= tail + rest);
        lemma_varint_read_encoded(u / 128, rest, (budget - 1) as nat);
        assert(u % 128 + 128 * (u / 128) == u) by (nonlinear_arith)
            requires
                u >= 0,
        ;
    }
}

/// A `VarInt` read back from its encoding is the value written, and uses
/// exactly the encoding's bytes.
pub proof fn lemma_varint_round_trip(v: i32, rest: Seq<u8>)
    ensures
        varint_decode(varint_bytes(unsigned_of(v)) + rest) == Ok::<(i32, nat), ReadingError>(
            (v, varint_bytes(unsigned_of(v)).len()),
        ),
        varint_bytes(unsigned_of(v)).len() <= VAR_INT_MAX_SIZE,
{
    let u = unsigned_of(v);
    reveal_with_fuel(pow128, 6);
    lemma_varint_len(u, 5, pow128(5));
    lemma_varint_read_encoded(u, rest, 5);
    vstd::arithmetic::div_mod::lemma_small_mod(u, two_32() as nat);
}

/// Appends the encoding of `v`.
pub fn write_var_int(out: &mut Vec<u8>, v: VarInt)
    ensures
        final(out)@ == old(out)@ + varint_bytes(unsigned_of(v.0)),
{
    let mut val: u32 = if v.0 >= 0 {
        v.0 as u32
    } else {
        (v.0 as i64 + 0x1_0000_0000i64) as u32
    };
    let ghost start = old(out)@;
    loop
        invariant_except_break
            out@ + varint_bytes(val as nat) == start + varint_bytes(unsigned_of(v.0)),
        ensures
            out@ == start + varint_bytes(unsigned_of(v.0)),
        decreases val,
    {
        let ghost before = out@;
        let byte = (val % 128) as u8;
        let next = val / 128;
        if next == 0 {
            out.push(byte);
            assert(out@ =~= before + varint_bytes(val as nat));
            break;
        }
        out.push(byte + 128);
        assert(out@ + varint_bytes(next as nat) =~= before + varint_bytes(val as nat));
        val = next;
    }
}

/// Reads a `VarInt` from the front of `buf`: its value and the bytes used.
pub fn read_var_int(buf: &[u8]) -> (r: Result<(VarInt, usize), ReadingError>)
    ensures
        match (r, varint_decode(buf@)) {
            (Ok(a), Ok(b)) => a.0.0 == b.0 && a.1 == b.1,
            (Err(e), Err(f)) => e == f,
            _ => false,
        },
{
    let mut acc: u64 = 0;
    let mut scale: u64 = 1;
    let mut i: usize = 0;
    let ghost bytes = buf@;
    assert(bytes.skip(0) =~= bytes);
    // Reading the rest from position `i` on, with `5 - i` bytes left, gives
    // the whole read once the groups already seen are added in front.
    while i < VAR_INT_MAX_SIZE
        invariant
            bytes == buf@,
            i <= 5,
            scale == pow128(i as nat),
            acc < scale,
            match (varint_read(bytes, 5), varint_read(bytes.skip(i as int), (5 - i) as nat)) {
                (Ok(whole), Ok(part)) => whole.0 == acc + scale * part.0 && whole.1 == part.1 + i,
                (Err(e), Err(f)) => e == f,
                _ => false,
            },
            i <= bytes.len() || i == 0,
        decreases 5 - i,
    {
        if i >= buf.len() {
            assert(bytes.skip(i as int).len() == 0);
            return Err(ReadingError::Incomplete);
        }
        let b = buf[i];
        let ghost part = bytes.skip(i as int);
        assert(part[0] == b);
        proof {
            reveal_with_fuel(pow128, 6);
            assert(pow128(4) == 268435456);
            if i < 4 {
                assert(pow128(i as nat) <= pow128(4));
            }
        }
        assert(scale <= 268435456);
        assert((b as u64) * scale <= 255 * 268435456) by (nonlinear_arith)
            requires
                scale <= 268435456,
                b <= 255,
        ;
        if b < 128 {
            assert(part.len() > 0);
            assert(varint_read(part, (5 - i) as nat) == Ok::<(nat, nat), ReadingError>((b as nat, 1nat)));
            let ghost old_acc = acc;
            acc = acc + (b as u64) * scale;
            assert(acc == old_acc + scale * (b as nat)) by (nonlinear_arith)
                requires
                    acc == old_acc + (b as u64) * scale,
            ;
            let value = acc % 0x1_0000_0000u64;
            let signed: i32 = if value < 0x8000_0000u64 {
                value as i32
            } else {
                (value as i64 - 0x1_0000_0000i64) as i32
            };
            assert(varint_read(bytes, 5) == Ok::<(nat, nat), ReadingError>((acc as nat, (i + 1) as nat)));
            assert(signed == signed_of(acc as nat));
            return Ok((VarInt(signed), i + 1));
        }
        proof {
            assert(part.skip(1) =~= bytes.skip(i + 1));
            assert(acc + (b - 128) * scale < scale * 128) by (nonlinear_arith)
                requires
                    acc < scale,
                    b - 128 < 128,
                    b >= 128,
            ;
            assert(scale * (b - 128 + 128 * 1) == (b - 128) * scale + scale * 128) by (nonlinear_arith);
            match varint_read(bytes.skip(i + 1), (5 - i - 1) as nat) {
                Ok(p) => {
                    assert(acc + scale * ((b - 128) + 128 * p.0) == (acc + (b - 128) * scale) + (scale
                        * 128) * p.0) by (nonlinear_arith);
                },
                Err(_) => {},
            }
        }
        acc = acc + ((b - 128) as u64) * scale;
        scale = scale * 128;
        i = i + 1;
    }
    Err(ReadingError::TooLarge)
}

/// 256^n.
pub open spec fn pow256(n: nat) -> nat
    decreases n,
{
    if n == 0 {
        1
    } else {
        256 * pow256((n - 1) as nat)
    }
}

/// The low `n` bytes of `u`, most significant first.
pub open spec fn be_bytes(u: nat, n: nat) -> Seq<u8>
    decreases n,
{
    if n == 0 {
        Seq::empty()
    } else {
        be_bytes(u / 256, (n - 1) as nat).push((u % 256) as u8)
    }
}

/// The number that big-endian bytes denote.
pub open spec fn be_value(s: Seq<u8>) -> nat
    decreases s.len(),
{
    if s.len() == 0 {
        0
    } else {
        (256 * be_value(s.drop_last()) + s.last()) as nat
    }
}

proof fn lemma_be_round_trip(u: nat, n: nat)
    ensures
        be_bytes(u, n).len() == n,
        be_value(be_bytes(u, n)) == u % pow256(n),
        pow256(n) >= 1,
    decreases n,
{
    if n > 0 {
        lemma_be_round_trip(u / 256, (n - 1) as nat);
        let s = be_bytes(u, n);
        assert(s.drop_last() =~= be_bytes(u / 256, (n - 1) as nat));
        vstd::arithmetic::div_mod::lemma_mod_breakdown(u as int, 256, pow256((n - 1) as nat) as int);
    }
}

/// The unsigned number with the bits of a 64-bit `v`.
pub open spec fn unsigned_of_i64(v: i64) -> nat {
    if v >= 0 {
        v as nat
    } else {
        (v + 0x1_0000_0000_0000_0000int) as nat
    }
}

/// The unsigned number with the bits of a 16-bit `v`.
pub open spec fn unsigned_of_i16(v: i16) -> nat {
    if v >= 0 {
        v as nat
    } else {
        (v + 0x1_0000int) as nat
    }
}

/// What reading a big-endian `i64` from the front of `bytes` gives.
pub open spec fn i64_decode(bytes: Seq<u8>) -> Result<i64, ReadingError> {
    if bytes.len() < 8 {
        Err(ReadingError::Incomplete)
    } else {
        let u = be_value(bytes.take(8));
        Ok(if u < 0x8000_0000_0000_0000 {
            u as i64
        } else {
            (u - 0x1_0000_0000_0000_0000int) as i64
        })
    }
}

/// What reading a big-endian `i16` from the front of `bytes` gives.
pub open spec fn i16_decode(bytes: Seq<u8>) -> Result<i16, ReadingError> {
    if bytes.len() < 2 {
        Err(ReadingError::Incomplete)
    } else {
        let u = be_value(bytes.take(2));
        Ok(if u < 0x8000 {
            u as i16
        } else {
            (u - 0x1_0000int) as i16
        })
    }
}

/// Appends the `n` low bytes of `u`, most significant first.
fn write_be(out: &mut Vec<u8>, u: u64, n: usize)
    requires
        n <= 8,
    ensures
        final(out)@ == old(out)@ + be_bytes(u as nat, n as nat),
{
    let mut digits: Vec<u8> = Vec::new();
    let mut q: u64 = u;
    let mut j: usize = 0;
    let ghost start = old(out)@;
    proof {
        assert(be_bytes(u as nat, n as nat) =~= be_bytes(q as nat, n as nat) + Seq::<u8>::empty());
    }
    while j < n
        invariant
            j <= n,
            digits@.len() == j,
            be_bytes(u as nat, n as nat) == be_bytes(q as nat, (n - j) as nat) + digits@.reverse(),
            out@ == start,
        decreases n - j,
    {
        let ghost before = digits@;
        let d = (q % 256) as u8;
        proof {
            let rest = be_bytes((q / 256) as nat, (n - j - 1) as nat);
            assert(be_bytes(q as nat, (n - j) as nat) == rest.push(d));
            assert(before.push(d).reverse() =~= seq![d] + before.reverse());
            assert(rest.push(d) + before.reverse() =~= rest + (seq![d] + before.reverse()));
        }
        digits.push(d);
        q = q / 256;
        j = j + 1;
    }
    assert(be_bytes(q as nat, 0) =~= Seq::<u8>::empty());
    let mut k: usize = n;
    while k > 0
        invariant
            k <= n,
            digits@.len() == n,
            out@ == start + digits@.reverse().take((n - k) as int),
        decreases k,
    {
        let ghost before = out@;
        out.push(digits[k - 1]);
        proof {
            assert(digits@.reverse()[(n - k) as int] == digits@[k - 1]);
            assert(digits@.reverse().take((n - k + 1) as int) =~= digits@.reverse().take((n - k) as int).push(digits@[k - 1]));
        }
        k = k - 1;
    }
    assert(digits@.reverse().take(n as int) =~= digits@.reverse());
}

/// Reads `n` big-endian bytes from the front of `buf`.
fn read_be(buf: &[u8], n: usize) -> (v: u64)
    requires
        n <= 8,
        n <= buf@.len(),
    ensures
        v == be_value(buf@.take(n as int)),
{
    let mut v: u64 = 0;
    let mut i: usize = 0;
    while i < n
        invariant
            i <= n,
            n <= 8,
            n <= buf@.len(),
            v == be_value(buf@.take(i as int)),
            v < pow256(i as nat),
        decreases n - i,
    {
        proof {
            assert(buf@.take(i + 1).drop_last() =~= buf@.take(i as int));
            reveal_with_fuel(pow256, 9);
            assert(pow256(i as nat) <= pow256(7));
            assert(256 * v + buf@[i as int] < 256 * pow256(i as nat)) by (nonlinear_arith)
                requires
                    v < pow256(i as nat),
                    buf@[i as int] < 256,
            ;
        }
        v = 256 * v + buf[i] as u64;
        i = i + 1;
    }
    v
}

/// Appends `v` as eight big-endian bytes.
pub fn write_i64_be(out: &mut Vec<u8>, v: i64)
    ensures
        final(out)@ == old(out)@ + be_bytes(unsigned_of_i64(v), 8),
{
    let u: u64 = if v >= 0 {
        v as u64
    } else {
        (v as i128 + 0x1_0000_0000_0000_0000i128) as u64
    };
    write_be(out, u, 8);
}

/// Reads a big-endian `i64` from the front of `buf`.
pub fn read_i64_be(buf: &[u8]) -> (r: Result<i64, ReadingError>)
    ensures
        r == i64_decode(buf@),
{
    if buf.len() < 8 {
        return Err(ReadingError::Incomplete);
    }
    let u = read_be(buf, 8);
    if u < 0x8000_0000_0000_0000u64 {
        Ok(u as i64)
    } else {
        Ok((u - 0x8000_0000_0000_0000u64) as i64 + i64::MIN)
    }
}

/// Appends `v` as two big-endian bytes.
pub fn write_i16_be(out: &mut Vec<u8>, v: i16)
    ensures
        final(out)@ == old(out)@ + be_bytes(unsigned_of_i16(v), 2),
{
    let u: u64 = if v >= 0 {
        v as u64
    } else {
        (v as i64 + 0x1_0000i64) as u64
    };
    write_be(out, u, 2);
}

/// Reads a big-endian `i16` from the front of `buf`.
pub fn read_i16_be(buf: &[u8]) -> (r: Result<i16, ReadingError>)
    ensures
        r == i16_decode(buf@),
{
    if buf.len() < 2 {
        return Err(ReadingError::Incomplete);
    }
    let u = read_be(buf, 2);
    proof {
        reveal_with_fuel(pow256, 3);
        lemma_be_bound(buf@.take(2));
    }
    if u < 0x8000u64 {
        Ok(u as i16)
    } else {
        Ok((u as i64 - 0x1_0000i64) as i16)
    }
}

proof fn lemma_be_bound(s: Seq<u8>)
    ensures
        be_value(s) < pow256(s.len()),
    decreases s.len(),
{
    if s.len() > 0 {
        lemma_be_bound(s.drop_last());
        assert(256 * be_value(s.drop_last()) + s.last() < 256 * pow256((s.len() - 1) as nat)) by (nonlinear_arith)
            requires
                be_value(s.drop_last()) < pow256((s.len() - 1) as nat),
                s.last() < 256,
        ;
    }
}

/// A big-endian `i64` read back from its bytes is the value written.
pub proof fn lemma_i64_round_trip(v: i64, rest: Seq<u8>)
    ensures
        i64_decode(be_bytes(unsigned_of_i64(v), 8) + rest) == Ok::<i64, ReadingError>(v),
        be_bytes(unsigned_of_i64(v), 8).len() == 8,
{
    let u = unsigned_of_i64(v);
    lemma_be_round_trip(u, 8);
    let bytes = be_bytes(u, 8) + rest;
    assert(bytes.take(8) =~= be_bytes(u, 8));
    reveal_with_fuel(pow256, 9);
    assert(u < pow256(8));
    vstd::arithmetic::div_mod::lemma_small_mod(u, pow256(8));
}

/// A big-endian `i16` read back from its bytes is the value written.
pub proof fn lemma_i16_round_trip(v: i16, rest: Seq<u8>)
    ensures
        i16_decode(be_bytes(unsigned_of_i16(v), 2) + rest) == Ok::<i16, ReadingError>(v),
        be_bytes(unsigned_of_i16(v), 2).len() == 2,
{
    let u = unsigned_of_i16(v);
    lemma_be_round_trip(u, 2);
    let bytes = be_bytes(u, 2) + rest;
    assert(bytes.take(2) =~= be_bytes(u, 2));
    reveal_with_fuel(pow256, 3);
    assert(u < pow256(2));
    vstd::arithmetic::div_mod::lemma_small_mod(u, pow256(2));
}

/// The byte of a `bool`.
pub open spec fn bool_byte(b: bool) -> u8 {
    if b {
        1
    } else {
        0
    }
}

/// What reading a `bool` from the front of `bytes` gives: any non-zero byte
/// is `true`.
pub open spec fn bool_decode(bytes: Seq<u8>) -> Result<bool, ReadingError> {
    if bytes.len() == 0 {
        Err(ReadingError::Incomplete)
    } else {
        Ok(bytes[0] != 0)
    }
}

pub fn write_bool(out: &mut Vec<u8>, b: bool)
    ensures
        final(out)@ == old(out)@.push(bool_byte(b)),
{
    out.push(if b { 1 } else { 0 });
}

pub fn read_bool(buf: &[u8]) -> (r: Result<bool, ReadingError>)
    ensures
        r == bool_decode(buf@),
{
    if buf.len() == 0 {
        Err(ReadingError::Incomplete)
    } else {
        Ok(buf[0] != 0)
    }
}

/// A `bool` read back from its byte is the value written.
pub proof fn lemma_bool_round_trip(b: bool, rest: Seq<u8>)
    ensures
        bool_decode(seq![bool_byte(b)] + rest) == Ok::<bool, ReadingError>(b),
{
    assert((seq![bool_byte(b)] + rest)[0] == bool_byte(b));
}

} // verus!
