//! Little-endian integer encoding shared by every wire format of the stack,
//! and the error type that all parsers return.
use vstd::prelude::*;

verus! {

/// Why a byte string could not be read.
#[derive(Clone, Copy, Debug, PartialEq, Eq, Structural)]
pub enum ParseError {
    /// The input ended before the value did.
    Incomplete,
    /// An offset pointed past the end of the input.
    BadOffset(usize),
    /// The input holds a value that the format does not allow.
    BadInput,
}

/// `256^n`.
pub open spec fn pow256(n: nat) -> nat
    decreases n,
{
    if n == 0 {
        1
    } else {
        256 * pow256((n - 1) as nat)
    }
}

/// The unsigned number that the bytes `s` encode, least significant byte first.
pub open spec fn le_value(s: Seq<u8>) -> nat
    decreases s.len(),
{
    if s.len() == 0 {
        0
    } else {
        s[0] as nat + 256 * le_value(s.drop_first())
    }
}

/// The `n` least significant bytes of `x`, least significant first.
pub open spec fn le_bytes(x: nat, n: nat) -> Seq<u8>
    decreases n,
{
    if n == 0 {
        Seq::empty()
    } else {
        seq![(x % 256) as u8] + le_bytes(x / 256, (n - 1) as nat)
    }
}

pub proof fn lemma_pow256_positive(n: nat)
    ensures
        pow256(n) >= 1,
    decreases n,
{
    if n > 0 {
        lemma_pow256_positive((n - 1) as nat);
    }
}

pub proof fn lemma_pow256_values()
    ensures
        pow256(0) == 1,
        pow256(1) == 0x100,
        pow256(2) == 0x1_0000,
        pow256(3) == 0x100_0000,
        pow256(4) == 0x1_0000_0000,
        pow256(5) == 0x100_0000_0000,
        pow256(6) == 0x1_0000_0000_0000,
        pow256(7) == 0x100_0000_0000_0000,
        pow256(8) == 0x1_0000_0000_0000_0000,
{
    reveal_with_fuel(pow256, 9);
}

pub proof fn lemma_le_value_bound(s: Seq<u8>)
    ensures
        le_value(s) < pow256(s.len()),
    decreases s.len(),
{
    if s.len() > 0 {
        lemma_le_value_bound(s.drop_first());
        assert(le_value(s) == s[0] as nat + 256 * le_value(s.drop_first()));
        assert(pow256(s.len()) == 256 * pow256(s.drop_first().len()));
        assert(le_value(s.drop_first()) + 1 <= pow256(s.drop_first().len()));
        assert(256 * (le_value(s.drop_first()) + 1) <= 256 * pow256(s.drop_first().len()))
            by (nonlinear_arith)
            requires
                le_value(s.drop_first()) + 1 <= pow256(s.drop_first().len()),
        ;
    }
}

pub proof fn lemma_le_bytes_len(x: nat, n: nat)
    ensures
        le_bytes(x, n).len() == n,
    decreases n,
{
    if n > 0 {
        lemma_le_bytes_len(x / 256, (n - 1) as nat);
    }
}

/// Reading back `n` written bytes gives the value modulo `256^n`.
pub proof fn lemma_le_roundtrip(x: nat, n: nat)
    ensures
        le_bytes(x, n).len() == n,
        le_value(le_bytes(x, n)) == x % pow256(n),
    decreases n,
{
    lemma_le_bytes_len(x, n);
    if n == 0 {
    } else {
        let rest = le_bytes(x / 256, (n - 1) as nat);
        lemma_le_roundtrip(x / 256, (n - 1) as nat);
        let s = le_bytes(x, n);
        assert(s.drop_first() =~= rest);
        lemma_pow256_positive((n - 1) as nat);
        let p = pow256((n - 1) as nat);
        assert(pow256(n) == 256 * p);
        assert(x % (256 * p) == 256 * ((x / 256) % p) + x % 256) by {
            vstd::arithmetic::div_mod::lemma_breakdown(x as int, 256, p as int);
        }
    }
}

/// Writing the value of `n` bytes gives back the same bytes.
pub proof fn lemma_le_bytes_of_value(s: Seq<u8>)
    ensures
        le_bytes(le_value(s), s.len()) == s,
    decreases s.len(),
{
    if s.len() > 0 {
        let v = le_value(s);
        let t = s.drop_first();
        lemma_le_bytes_of_value(t);
        assert(v == s[0] as nat + 256 * le_value(t));
        assert(v % 256 == s[0] as nat) by {
            vstd::arithmetic::div_mod::lemma_fundamental_div_mod_converse_mod(
                v as int,
                256,
                le_value(t) as int,
                s[0] as int,
            );
        }
        assert(v / 256 == le_value(t)) by {
            vstd::arithmetic::div_mod::lemma_fundamental_div_mod_converse_div(
                v as int,
                256,
                le_value(t) as int,
                s[0] as int,
            );
        }
        assert(le_bytes(v, s.len()) =~= s);
    }
}

/// Reads the `n`-byte little-endian number at `bytes[off..off + n]`.
pub fn read_le(bytes: &[u8], off: usize, n: usize) -> (r: u64)
    requires
        n <= 8,
        off + n <= bytes@.len(),
    ensures
        r as nat == le_value(bytes@.subrange(off as int, off + n)),
{
    let ghost s = bytes@.subrange(off as int, off + n);
    let blen = bytes.len();
    let mut v: u64 = 0;
    let mut i: usize = n;
    proof {
        lemma_pow256_values();
        assert(bytes@.subrange(off + n, off + n).len() == 0);
        reveal_with_fuel(pow256, 9);
    }
    while i > 0
        invariant
            i <= n <= 8,
            off + n <= bytes@.len(),
            s == bytes@.subrange(off as int, off + n),
            v as nat == le_value(bytes@.subrange(off + i, off + n)),
            pow256(8) == 0x1_0000_0000_0000_0000,
            blen == bytes@.len(),
        decreases i,
    {
        i = i - 1;
        let ghost tail = bytes@.subrange(off + i + 1, off + n);
        let ghost cur = bytes@.subrange(off + i, off + n);
        proof {
            assert(cur.drop_first() =~= tail);
            assert(cur[0] == bytes@[off + i]);
            lemma_le_value_bound(tail);
            lemma_pow256_monotone(tail.len(), 7);
            assert(v < 0x100_0000_0000_0000);
        }
        v = v * 256 + bytes[off + i] as u64;
    }
    v
}

pub proof fn lemma_pow256_monotone(a: nat, b: nat)
    requires
        a <= b,
    ensures
        pow256(a) <= pow256(b),
    decreases b,
{
    if a < b {
        lemma_pow256_monotone(a, (b - 1) as nat);
        lemma_pow256_positive((b - 1) as nat);
    }
}

/// Appends the `n` least significant bytes of `x`, least significant first.
pub fn write_le(out: &mut Vec<u8>, x: u64, n: usize)
    requires
        n <= 8,
    ensures
        final(out)@ == old(out)@ + le_bytes(x as nat, n as nat),
{
    let mut v = x;
    let mut i: usize = 0;
    let ghost start = out@;
    proof {
        assert(start + le_bytes(x as nat, 0) =~= start);
    }
    while i < n
        invariant
            i <= n <= 8,
            out@ + le_bytes(v as nat, (n - i) as nat) == start + le_bytes(x as nat, n as nat),
        decreases n - i,
    {
        let ghost before = out@;
        out.push((v % 256) as u8);
        proof {
            let rest = le_bytes((v / 256) as nat, (n - i - 1) as nat);
            assert(le_bytes(v as nat, (n - i) as nat) == seq![(v % 256) as u8] + rest);
            assert(out@ + rest =~= before + (seq![(v % 256) as u8] + rest));
        }
        v = v / 256;
        i = i + 1;
    }
    proof {
        assert(out@ + le_bytes(v as nat, 0) =~= out@);
    }
}

/// The first `len` bytes are there (`byte::check_len`).
pub fn check_len(bytes: &[u8], len: usize) -> (r: Result<usize, ParseError>)
    ensures
        r == (if bytes@.len() < len {
            Err::<usize, ParseError>(ParseError::Incomplete)
        } else {
            Ok(len)
        }),
{
    if bytes.len() < len {
        Err(ParseError::Incomplete)
    } else {
        Ok(len)
    }
}

/// Appends every byte of `data`.
pub fn write_slice(out: &mut Vec<u8>, data: &[u8])
    ensures
        final(out)@ == old(out)@ + data@,
{
    let ghost start = out@;
    let mut i: usize = 0;
    while i < data.len()
        invariant
            i <= data@.len(),
            out@ == start + data@.subrange(0, i as int),
        decreases data@.len() - i,
    {
        out.push(data[i]);
        i = i + 1;
        proof {
            assert(out@ =~= start + data@.subrange(0, i as int));
        }
    }
    proof {
        assert(data@.subrange(0, data@.len() as int) =~= data@);
    }
}

/// Copies `bytes[start..end]` into a new vector.
pub fn copy_range(bytes: &[u8], start: usize, end: usize) -> (r: Vec<u8>)
    requires
        start <= end <= bytes@.len(),
    ensures
        r@ == bytes@.subrange(start as int, end as int),
{
    let mut out: Vec<u8> = Vec::new();
    let mut i = start;
    while i < end
        invariant
            start <= i <= end <= bytes@.len(),
            out@ == bytes@.subrange(start as int, i as int),
        decreases end - i,
    {
        out.push(bytes[i]);
        i = i + 1;
        proof {
            assert(out@ =~= bytes@.subrange(start as int, i as int));
        }
    }
    out
}

/// The byte at `off`.
pub open spec fn spec_u8_at(s: Seq<u8>, off: int) -> Result<u8, ParseError> {
    if 0 <= off && off + 1 <= s.len() {
        Ok(s[off])
    } else {
        Err(ParseError::Incomplete)
    }
}

/// The little-endian number of `n` bytes at `off`.
pub open spec fn spec_le_at(s: Seq<u8>, off: int, n: nat) -> Result<nat, ParseError> {
    if 0 <= off && off + n <= s.len() {
        Ok(le_value(s.subrange(off, off + n)))
    } else {
        Err(ParseError::Incomplete)
    }
}

pub open spec fn spec_u16_at(s: Seq<u8>, off: int) -> Result<u16, ParseError> {
    match spec_le_at(s, off, 2) {
        Ok(v) => Ok(v as u16),
        Err(e) => Err(e),
    }
}

pub open spec fn spec_u32_at(s: Seq<u8>, off: int) -> Result<u32, ParseError> {
    match spec_le_at(s, off, 4) {
        Ok(v) => Ok(v as u32),
        Err(e) => Err(e),
    }
}

pub open spec fn spec_u64_at(s: Seq<u8>, off: int) -> Result<u64, ParseError> {
    match spec_le_at(s, off, 8) {
        Ok(v) => Ok(v as u64),
        Err(e) => Err(e),
    }
}

/// The two bytes of `v`, least significant first.
pub open spec fn u16_le(v: u16) -> Seq<u8> {
    le_bytes(v as nat, 2)
}

pub open spec fn u32_le(v: u32) -> Seq<u8> {
    le_bytes(v as nat, 4)
}

pub open spec fn u64_le(v: u64) -> Seq<u8> {
    le_bytes(v as nat, 8)
}

pub fn u8_at(bytes: &[u8], off: usize) -> (r: Result<u8, ParseError>)
    ensures
        bytes@.len() <= usize::MAX,
        r == spec_u8_at(bytes@, off as int),
{
    let len = bytes.len();
    if off < len {
        Ok(bytes[off])
    } else {
        Err(ParseError::Incomplete)
    }
}

pub fn le_at(bytes: &[u8], off: usize, n: usize) -> (r: Result<u64, ParseError>)
    requires
        n <= 8,
    ensures
        bytes@.len() <= usize::MAX,
        match r {
            Ok(v) => spec_le_at(bytes@, off as int, n as nat) == Ok::<nat, ParseError>(v as nat),
            Err(e) => spec_le_at(bytes@, off as int, n as nat) == Err::<nat, ParseError>(e),
        },
{
    let len = bytes.len();
    if off <= len && len - off >= n {
        Ok(read_le(bytes, off, n))
    } else {
        Err(ParseError::Incomplete)
    }
}

pub fn u16_at(bytes: &[u8], off: usize) -> (r: Result<u16, ParseError>)
    ensures
        bytes@.len() <= usize::MAX,
        r == spec_u16_at(bytes@, off as int),
{
    match le_at(bytes, off, 2) {
        Ok(v) => {
            proof {
                lemma_le_value_bound(bytes@.subrange(off as int, off + 2));
                lemma_pow256_values();
            }
            Ok(v as u16)
        },
        Err(e) => Err(e),
    }
}

pub fn u32_at(bytes: &[u8], off: usize) -> (r: Result<u32, ParseError>)
    ensures
        bytes@.len() <= usize::MAX,
        r == spec_u32_at(bytes@, off as int),
{
    match le_at(bytes, off, 4) {
        Ok(v) => {
            proof {
                lemma_le_value_bound(bytes@.subrange(off as int, off + 4));
                lemma_pow256_values();
            }
            Ok(v as u32)
        },
        Err(e) => Err(e),
    }
}

pub fn u64_at(bytes: &[u8], off: usize) -> (r: Result<u64, ParseError>)
    ensures
        bytes@.len() <= usize::MAX,
        r == spec_u64_at(bytes@, off as int),
{
    match le_at(bytes, off, 8) {
        Ok(v) => {
            proof {
                lemma_le_value_bound(bytes@.subrange(off as int, off + 8));
                lemma_pow256_values();
            }
            Ok(v)
        },
        Err(e) => Err(e),
    }
}

pub fn write_u8(out: &mut Vec<u8>, v: u8)
    ensures
        final(out)@ == old(out)@.push(v),
{
    out.push(v);
}

pub fn write_u16(out: &mut Vec<u8>, v: u16)
    ensures
        final(out)@ == old(out)@ + u16_le(v),
{
    write_le(out, v as u64, 2);
}

pub fn write_u32(out: &mut Vec<u8>, v: u32)
    ensures
        final(out)@ == old(out)@ + u32_le(v),
{
    write_le(out, v as u64, 4);
}

pub fn write_u64(out: &mut Vec<u8>, v: u64)
    ensures
        final(out)@ == old(out)@ + u64_le(v),
{
    write_le(out, v, 8);
}

/// The two bytes of a 16-bit value: the low byte, then the high byte.
pub proof fn lemma_u16_le_bytes(v: u16)
    ensures
        u16_le(v) == seq![(v % 256) as u8, (v / 256) as u8],
{
    reveal_with_fuel(le_bytes, 3);
    assert(u16_le(v) =~= seq![(v % 256) as u8, (v / 256) as u8]);
}

/// Two bytes read as a number: the first is the low byte.
pub proof fn lemma_u16_at_value(s: Seq<u8>, off: int)
    requires
        0 <= off,
        off + 2 <= s.len(),
    ensures
        spec_u16_at(s, off) == Ok::<u16, ParseError>((s[off] as int + 256 * s[off + 1] as int) as u16),
{
    let t = s.subrange(off, off + 2);
    assert(t.drop_first().drop_first() =~= Seq::<u8>::empty());
    assert(le_value(t.drop_first()) == t[1] as nat + 256 * le_value(t.drop_first().drop_first()));
}

/// Where the bytes of `v` stand, `v` is read back.
pub proof fn lemma_u16_read_back(s: Seq<u8>, off: int, v: u16)
    requires
        0 <= off,
        off + 2 <= s.len(),
        s.subrange(off, off + 2) == u16_le(v),
    ensures
        spec_u16_at(s, off) == Ok::<u16, ParseError>(v),
{
    lemma_le_roundtrip(v as nat, 2);
    lemma_pow256_values();
}

pub proof fn lemma_u64_read_back(s: Seq<u8>, off: int, v: u64)
    requires
        0 <= off,
        off + 8 <= s.len(),
        s.subrange(off, off + 8) == u64_le(v),
    ensures
        spec_u64_at(s, off) == Ok::<u64, ParseError>(v),
{
    lemma_le_roundtrip(v as nat, 8);
    lemma_pow256_values();
}

pub proof fn lemma_le_len(v: nat, n: nat)
    ensures
        le_bytes(v, n).len() == n,
{
    lemma_le_bytes_len(v, n);
}

} // verus!
