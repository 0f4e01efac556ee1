//! Little-endian numbers and fixed-size fields inside byte strings.
use vstd::prelude::*;

verus! {

/// The number that `s` holds, least significant byte first.
pub open spec fn le_value(s: Seq<u8>) -> nat
    decreases s.len(),
{
    if s.len() == 0 {
        0
    } else {
        s[0] as nat + 256 * le_value(s.skip(1))
    }
}

/// The lowest `n` bytes of `v`, least significant byte first.
pub open spec fn le_bytes(v: nat, n: nat) -> Seq<u8>
    decreases n,
{
    if n == 0 {
        Seq::empty()
    } else {
        seq![(v % 256) as u8] + le_bytes(v / 256, (n - 1) as nat)
    }
}

/// 256 to the power of `n`.
pub open spec fn byte_range(n: nat) -> nat
    decreases n,
{
    if n == 0 {
        1
    } else {
        256 * byte_range((n - 1) as nat)
    }
}

/// `n` bytes are written for an `n`-byte number.
pub proof fn le_bytes_len(v: nat, n: nat)
    ensures
        le_bytes(v, n).len() == n,
    decreases n,
{
    if n > 0 {
        le_bytes_len(v / 256, (n - 1) as nat);
    }
}

/// Reading what was written gives the number back, if it fits.
pub proof fn le_read_write(v: nat, n: nat)
    requires
        v < byte_range(n),
    ensures
        le_value(le_bytes(v, n)) == v,
    decreases n,
{
    if n > 0 {
        let tail = le_bytes(v / 256, (n - 1) as nat);
        assert(v / 256 < byte_range((n - 1) as nat));
        le_read_write(v / 256, (n - 1) as nat);
        assert(le_bytes(v, n).skip(1) =~= tail);
    }
}

/// Writing what was read gives the bytes back.
pub proof fn le_write_read(s: Seq<u8>)
    ensures
        le_bytes(le_value(s), s.len()) == s,
    decreases s.len(),
{
    if s.len() > 0 {
        le_write_read(s.skip(1));
        assert(le_value(s) / 256 == le_value(s.skip(1)));
        assert(le_bytes(le_value(s), s.len()) =~= seq![s[0]] + s.skip(1));
        assert(seq![s[0]] + s.skip(1) =~= s);
    }
}

/// A number read from `s` fits in as many bytes.
pub proof fn le_value_bound(s: Seq<u8>)
    ensures
        le_value(s) < byte_range(s.len()),
    decreases s.len(),
{
    if s.len() > 0 {
        le_value_bound(s.skip(1));
    }
}

/// The signed number whose two's complement is the unsigned 64-bit number `v`.
pub open spec fn to_signed64(v: nat) -> int {
    if v < 0x8000_0000_0000_0000 {
        v as int
    } else {
        v - 0x1_0000_0000_0000_0000
    }
}

/// The two's complement of `x` in 64 bits.
pub open spec fn to_unsigned64(x: int) -> nat {
    if x >= 0 {
        x as nat
    } else {
        (x + 0x1_0000_0000_0000_0000) as nat
    }
}

/// The numbers of bytes in use, as powers of 256.
pub proof fn byte_range_values()
    ensures
        byte_range(1) == 0x100,
        byte_range(2) == 0x1_0000,
        byte_range(4) == 0x1_0000_0000,
        byte_range(8) == 0x1_0000_0000_0000_0000,
{
    reveal_with_fuel(byte_range, 9);
}

/// Reads the `n`-byte number at `at`.
fn read_uint(bytes: &[u8], at: usize, n: usize) -> (r: u64)
    requires
        n <= 8,
        at + n <= bytes@.len(),
    ensures
        r == le_value(bytes@.subrange(at as int, at + n)),
{
    let mut v: u64 = 0;
    let mut i: usize = n;
    assert(bytes@.subrange(at + n, at + n).len() == 0);
    while i > 0
        invariant
            i <= n <= 8,
            at + n <= bytes.len(),
            v == le_value(bytes@.subrange(at + i, at + n)),
        decreases i,
    {
        let ghost tail = bytes@.subrange(at + i, at + n);
        let ghost longer = bytes@.subrange(at + i - 1, at + n);
        proof {
            assert(longer.skip(1) =~= tail);
            le_value_bound(longer);
            byte_range_monotonic(longer.len(), 8);
            byte_range_values();
            assert(le_value(longer) == bytes@[at + i - 1] as nat + 256 * le_value(tail));
        }
        i = i - 1;
        v = v * 256 + bytes[at + i] as u64;
    }
    v
}

proof fn byte_range_monotonic(m: nat, n: nat)
    requires
        m <= n,
    ensures
        1 <= byte_range(m) <= byte_range(n),
    decreases n,
{
    if m < n {
        byte_range_monotonic(m, (n - 1) as nat);
    } else if n > 0 {
        byte_range_monotonic((m - 1) as nat, (n - 1) as nat);
    }
}

/// Appends the lowest `n` bytes of `v`.
fn push_uint(out: &mut Vec<u8>, v: u64, n: usize)
    ensures
        final(out)@ == old(out)@ + le_bytes(v as nat, n as nat),
{
    let mut rest: u64 = v;
    let mut i: usize = 0;
    assert(out@ + le_bytes(rest as nat, n as nat) =~= old(out)@ + le_bytes(v as nat, n as nat));
    while i < n
        invariant
            i <= n,
            out@ + le_bytes(rest as nat, (n - i) as nat) == old(out)@ + le_bytes(v as nat, n as nat),
        decreases n - i,
    {
        let ghost before = out@;
        let ghost left = (n - i) as nat;
        let low: u8 = (rest % 256) as u8;
        out.push(low);
        proof {
            assert(le_bytes(rest as nat, left) == seq![low] + le_bytes(
                (rest / 256) as nat,
                (left - 1) as nat,
            ));
            assert(out@ + le_bytes((rest / 256) as nat, (left - 1) as nat) =~= before + le_bytes(
                rest as nat,
                left,
            ));
        }
        rest = rest / 256;
        i = i + 1;
    }
    assert(out@ + le_bytes(rest as nat, 0) =~= out@);
}

/// Reads the little-endian `u16` at `at`.
pub fn read_u16(bytes: &[u8], at: usize) -> (r: u16)
    requires
        at + 2 <= bytes@.len(),
    ensures
        r == le_value(bytes@.subrange(at as int, at + 2)),
{
    proof {
        le_value_bound(bytes@.subrange(at as int, at + 2));
        byte_range_values();
    }
    read_uint(bytes, at, 2) as u16
}

/// Reads the little-endian `u32` at `at`.
pub fn read_u32(bytes: &[u8], at: usize) -> (r: u32)
    requires
        at + 4 <= bytes@.len(),
    ensures
        r == le_value(bytes@.subrange(at as int, at + 4)),
{
    proof {
        le_value_bound(bytes@.subrange(at as int, at + 4));
        byte_range_values();
    }
    read_uint(bytes, at, 4) as u32
}

/// Reads the little-endian two's complement `i64` at `at`.
pub fn read_i64(bytes: &[u8], at: usize) -> (r: i64)
    requires
        at + 8 <= bytes@.len(),
    ensures
        r == to_signed64(le_value(bytes@.subrange(at as int, at + 8))),
{
    let v: u64 = read_uint(bytes, at, 8);
    if v < 0x8000_0000_0000_0000 {
        v as i64
    } else {
        (v - 0x8000_0000_0000_0000) as i64 + i64::MIN
    }
}

/// Appends `v` as two little-endian bytes.
pub fn push_u16(out: &mut Vec<u8>, v: u16)
    ensures
        final(out)@ == old(out)@ + le_bytes(v as nat, 2),
{
    push_uint(out, v as u64, 2)
}

/// Appends `v` as four little-endian bytes.
pub fn push_u32(out: &mut Vec<u8>, v: u32)
    ensures
        final(out)@ == old(out)@ + le_bytes(v as nat, 4),
{
    push_uint(out, v as u64, 4)
}

/// Appends `v` as eight little-endian bytes of its two's complement.
pub fn push_i64(out: &mut Vec<u8>, v: i64)
    ensures
        final(out)@ == old(out)@ + le_bytes(to_unsigned64(v as int), 8),
{
    let bits: u64 = if v >= 0 {
        v as u64
    } else {
        (v - i64::MIN) as u64 + 0x8000_0000_0000_0000
    };
    push_uint(out, bits, 8)
}

/// Appends `bytes`.
pub fn push_bytes(out: &mut Vec<u8>, bytes: &[u8])
    ensures
        final(out)@ == old(out)@ + bytes@,
{
    out.extend_from_slice(bytes);
    assert(out@ =~= old(out)@ + bytes@);
}

/// The `N` bytes at `at`.
pub fn read_array<const N: usize>(bytes: &[u8], at: usize) -> (r: [u8; N])
    requires
        at + N <= bytes@.len(),
    ensures
        r@ == bytes@.subrange(at as int, at + N),
{
    let mut out: [u8; N] = [0u8; N];
    let mut i: usize = 0;
    while i < N
        invariant
            i <= N,
            at + N <= bytes.len(),
            forall|j: int| 0 <= j < i ==> out@[j] == bytes@[at + j],
        decreases N - i,
    {
        out[i] = bytes[at + i];
        i = i + 1;
    }
    assert(out@ =~= bytes@.subrange(at as int, at + N));
    out
}

/// Whether two byte strings are equal.
pub fn bytes_equal(x: &[u8], y: &[u8]) -> (r: bool)
    ensures
        r == (x@ == y@),
{
    if x.len() != y.len() {
        return false;
    }
    let mut i: usize = 0;
    while i < x.len()
        invariant
            i <= x@.len() == y@.len(),
            forall|j: int| 0 <= j < i ==> x@[j] == y@[j],
        decreases x@.len() - i,
    {
        if x[i] != y[i] {
            return false;
        }
        i = i + 1;
    }
    assert(x@ =~= y@);
    true
}

/// Numbers are written and read with the least significant byte first, and negative ones as their
/// difference to two to the power of 64.
pub proof fn least_significant_byte_comes_first(s: Seq<u8>, v: nat, n: nat, x: int)
    requires
        n > 0,
    ensures
        s.len() == 1 ==> le_value(s) == s[0],
        s.len() == 2 ==> le_value(s) == s[0] + 256 * s[1],
        s.len() == 4 ==> le_value(s) == s[0] + 256 * s[1] + 65_536 * s[2] + 16_777_216 * s[3],
        le_bytes(v, n).len() == n,
        le_bytes(v, n)[0] == v % 256,
        n > 1 ==> le_bytes(v, n)[1] == (v / 256) % 256,
        0 <= x < 0x8000_0000_0000_0000 ==> to_unsigned64(x) == x,
        -0x8000_0000_0000_0000 <= x < 0 ==> to_unsigned64(x) - x == 0x1_0000_0000_0000_0000,
        -0x8000_0000_0000_0000 <= x < 0x8000_0000_0000_0000 ==> to_signed64(to_unsigned64(x)) == x,
{
    reveal_with_fuel(le_value, 5);
    reveal_with_fuel(le_bytes, 3);
    le_bytes_len(v, n);
    if n > 1 {
        le_bytes_len(v / 256, (n - 1) as nat);
    }
    if s.len() == 4 {
        let t = s.skip(1);
        let u = t.skip(1);
        let w = u.skip(1);
        assert(w.skip(1).len() == 0);
        assert(t[0] == s[1] && u[0] == s[2] && w[0] == s[3]);
    }
    if s.len() == 2 {
        assert(s.skip(1).skip(1).len() == 0);
    }
    if s.len() == 1 {
        assert(s.skip(1).len() == 0);
    }
}

} // verus!
