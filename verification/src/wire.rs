//! Fixed-width integers as bytes, in the byte order of a host.

use vstd::prelude::*;
#[allow(unused_imports)]
use vstd::arithmetic::div_mod::lemma_div_denominator;
#[allow(unused_imports)]
use vstd::arithmetic::power::{lemma_pow_positive, pow};

verus! {

/// The order in which a host lays out the bytes of an integer.
#[derive(Debug, Clone, Copy, PartialEq, Eq, Structural)]
pub enum ByteOrder {
    /// The least significant byte comes first.
    Little,
    /// The most significant byte comes first.
    Big,
}

/// The number of values that `n` bytes can hold.
pub open spec fn capacity(n: nat) -> nat
    decreases n,
{
    if n == 0 {
        1
    } else {
        256 * capacity((n - 1) as nat)
    }
}

/// The `n` low base-256 digits of `v`, least significant first.
pub open spec fn digits(v: nat, n: nat) -> Seq<u8>
    decreases n,
{
    if n == 0 {
        Seq::empty()
    } else {
        seq![(v % 256) as u8] + digits(v / 256, (n - 1) as nat)
    }
}

/// The number whose base-256 digits are `s`, least significant first.
pub open spec fn number(s: Seq<u8>) -> nat
    decreases s.len(),
{
    if s.len() == 0 {
        0
    } else {
        s[0] as nat + 256 * number(s.drop_first())
    }
}

impl ByteOrder {
    /// `s` with the least significant byte first, if `s` is in this order (and back).
    pub open spec fn arrange(self, s: Seq<u8>) -> Seq<u8> {
        match self {
            ByteOrder::Little => s,
            ByteOrder::Big => s.reverse(),
        }
    }

    /// The `n` bytes of the unsigned integer `v` in this order.
    pub open spec fn bytes(self, v: nat, n: nat) -> Seq<u8> {
        self.arrange(digits(v, n))
    }

    /// The unsigned integer whose bytes are `s` in this order.
    pub open spec fn value(self, s: Seq<u8>) -> nat {
        number(self.arrange(s))
    }
}

/// The `u32` with the bits of `v` in two's complement.
pub open spec fn bits32(v: i32) -> nat {
    if v >= 0 {
        v as nat
    } else {
        (v + 0x1_0000_0000) as nat
    }
}

/// The `u64` with the bits of `v` in two's complement.
pub open spec fn bits64(v: i64) -> nat {
    if v >= 0 {
        v as nat
    } else {
        (v + 0x1_0000_0000_0000_0000) as nat
    }
}

/// The `i32` whose two's complement bits are the number `u`.
pub open spec fn signed32(u: nat) -> i32 {
    if u < 0x8000_0000 {
        u as i32
    } else {
        (u - 0x1_0000_0000) as i32
    }
}

/// The `i64` whose two's complement bits are the number `u`.
pub open spec fn signed64(u: nat) -> i64 {
    if u < 0x8000_0000_0000_0000 {
        u as i64
    } else {
        (u - 0x1_0000_0000_0000_0000) as i64
    }
}

/// The capacities of the widths that the protocol uses.
pub proof fn lemma_capacities()
    ensures
        capacity(1) == 0x100,
        capacity(2) == 0x1_0000,
        capacity(4) == 0x1_0000_0000,
        capacity(8) == 0x1_0000_0000_0000_0000,
{
    reveal_with_fuel(capacity, 9);
}

proof fn lemma_digits_len(v: nat, n: nat)
    ensures
        digits(v, n).len() == n,
    decreases n,
{
    if n > 0 {
        lemma_digits_len(v / 256, (n - 1) as nat);
    }
}

/// An encoded integer has the width that was asked for.
pub broadcast proof fn lemma_bytes_len(order: ByteOrder, v: nat, n: nat)
    ensures
        #[trigger] order.bytes(v, n).len() == n,
{
    lemma_digits_len(v, n);
}

proof fn lemma_number_of_digits(v: nat, n: nat)
    requires
        v < capacity(n),
    ensures
        number(digits(v, n)) == v,
    decreases n,
{
    if n > 0 {
        lemma_number_of_digits(v / 256, (n - 1) as nat);
        lemma_digits_len(v, n);
        assert(digits(v, n).drop_first() =~= digits(v / 256, (n - 1) as nat));
    }
}

proof fn lemma_digits_of_number(s: Seq<u8>)
    ensures
        number(s) < capacity(s.len()),
        digits(number(s), s.len()) == s,
    decreases s.len(),
{
    if s.len() > 0 {
        lemma_digits_of_number(s.drop_first());
        let rest = number(s.drop_first());
        assert(number(s) % 256 == s[0] as nat);
        assert(number(s) / 256 == rest);
        assert(digits(number(s), s.len()) =~= s);
    }
}

/// Reading back an encoded integer gives the integer.
pub broadcast proof fn law_value_of_bytes(order: ByteOrder, v: nat, n: nat)
    requires
        v < capacity(n),
    ensures
        #[trigger] order.value(order.bytes(v, n)) == v,
{
    lemma_number_of_digits(v, n);
    assert(digits(v, n).reverse().reverse() =~= digits(v, n));
}

/// Encoding an integer that was read gives the bytes it was read from.
pub proof fn law_bytes_of_value(order: ByteOrder, s: Seq<u8>)
    ensures
        order.value(s) < capacity(s.len()),
        order.bytes(order.value(s), s.len()) == s,
{
    lemma_digits_of_number(order.arrange(s));
    assert(s.reverse().reverse() =~= s);
}

/// A two's complement bit pattern is read back as the integer it came from.
pub proof fn law_signed32(v: i32)
    ensures
        bits32(v) < capacity(4),
        signed32(bits32(v)) == v,
{
    lemma_capacities();
}

/// A two's complement bit pattern is read back as the integer it came from.
pub proof fn law_signed64(v: i64)
    ensures
        bits64(v) < capacity(8),
        signed64(bits64(v)) == v,
{
    lemma_capacities();
}

/// The number of values of `n` bytes is the `n`-th power of 256.
pub proof fn law_capacity(n: nat)
    ensures
        capacity(n) == pow(256, n),
    decreases n,
{
    reveal(pow);
    if n > 0 {
        law_capacity((n - 1) as nat);
    }
}

proof fn lemma_digit(v: nat, n: nat, i: nat)
    requires
        i < n,
    ensures
        digits(v, n).len() == n,
        digits(v, n)[i as int] == (v as int / pow(256, i)) % 256,
    decreases n,
{
    reveal(pow);
    lemma_digits_len(v, n);
    if i > 0 {
        let j = (i - 1) as nat;
        lemma_digit(v / 256, (n - 1) as nat, j);
        lemma_pow_positive(256, j);
        lemma_div_denominator(v as int, 256, pow(256, j));
    }
}

/// Byte `i` of an encoded integer, counted from its least significant end, is the digit of the
/// integer at the `i`-th power of 256. The least significant end is the first byte in the little
/// endian order, and the last in the big endian order.
pub proof fn law_bytes_digits(v: nat, n: nat, i: nat)
    requires
        i < n,
    ensures
        ByteOrder::Little.bytes(v, n).len() == n,
        ByteOrder::Big.bytes(v, n).len() == n,
        ByteOrder::Little.bytes(v, n)[i as int] == (v as int / pow(256, i)) % 256,
        ByteOrder::Big.bytes(v, n)[n - 1 - i] == (v as int / pow(256, i)) % 256,
{
    lemma_digit(v, n, i);
}

/// What bytes stand for: no bytes for zero; otherwise the least significant byte counts once and
/// all others 256 times as much as they count without it.
pub proof fn law_value_of_prefix(s: Seq<u8>)
    ensures
        ByteOrder::Little.value(Seq::empty()) == 0,
        ByteOrder::Big.value(Seq::empty()) == 0,
        s.len() > 0 ==> ByteOrder::Little.value(s) == s[0] + 256 * ByteOrder::Little.value(
            s.subrange(1, s.len() as int),
        ),
        s.len() > 0 ==> ByteOrder::Big.value(s) == s[s.len() - 1] + 256 * ByteOrder::Big.value(
            s.subrange(0, s.len() - 1),
        ),
{
    assert(Seq::<u8>::empty().reverse() =~= Seq::<u8>::empty());
    if s.len() > 0 {
        assert(s.drop_first() =~= s.subrange(1, s.len() as int));
        assert(s.reverse().drop_first() =~= s.subrange(0, s.len() - 1).reverse());
    }
}

/// Four bytes as a number in either order, byte by byte.
pub proof fn law_value_of_four(s: Seq<u8>)
    requires
        s.len() == 4,
    ensures
        ByteOrder::Little.value(s) == s[0] + 0x100 * s[1] + 0x1_0000 * s[2] + 0x100_0000 * s[3],
        ByteOrder::Big.value(s) == s[3] + 0x100 * s[2] + 0x1_0000 * s[1] + 0x100_0000 * s[0],
{
    reveal_with_fuel(number, 5);
    let r = s.reverse();
    assert(s.drop_first().drop_first().drop_first().drop_first() =~= Seq::<u8>::empty());
    assert(r.drop_first().drop_first().drop_first().drop_first() =~= Seq::<u8>::empty());
}

/// The bytes of a negative integer are those of the number that is larger by 2^32.
pub proof fn law_bits32(v: i32)
    ensures
        bits32(v) == v as int % 0x1_0000_0000,
{
}

/// The bytes of a negative integer are those of the number that is larger by 2^64.
pub proof fn law_bits64(v: i64)
    ensures
        bits64(v) == v as int % 0x1_0000_0000_0000_0000,
{
}

/// A signed integer is congruent to the number whose bytes it is read from.
pub proof fn law_signed_of_number(u: nat)
    ensures
        u < 0x1_0000_0000 ==> signed32(u) as int % 0x1_0000_0000 == u,
        u < 0x1_0000_0000_0000_0000 ==> signed64(u) as int % 0x1_0000_0000_0000_0000 == u,
{
}

/// What is read from bytes fits in an integer of their width.
pub proof fn lemma_value_fits(order: ByteOrder, s: Seq<u8>)
    ensures
        s.len() == 2 ==> order.value(s) < 0x1_0000,
        s.len() == 4 ==> order.value(s) < 0x1_0000_0000,
        s.len() == 8 ==> order.value(s) < 0x1_0000_0000_0000_0000,
{
    lemma_capacities();
    law_bytes_of_value(order, s);
}

/// Appends the `n` bytes of `v` to `dst`.
pub fn put_uint(dst: &mut Vec<u8>, order: ByteOrder, v: u64, n: usize)
    ensures
        final(dst)@ == old(dst)@ + order.bytes(v as nat, n as nat),
{
    let mut low: Vec<u8> = Vec::new();
    let mut rest: u64 = v;
    let mut k: usize = 0;
    assert(low@ + digits(rest as nat, n as nat) =~= digits(v as nat, n as nat));
    while k < n
        invariant
            k <= n,
            low@.len() == k,
            low@ + digits(rest as nat, (n - k) as nat) == digits(v as nat, n as nat),
        decreases n - k,
    {
        let ghost before = low@;
        low.push((rest % 256) as u8);
        assert(low@ + digits(rest as nat / 256, (n - k - 1) as nat) =~= before + digits(
            rest as nat,
            (n - k) as nat,
        ));
        rest = rest / 256;
        k = k + 1;
    }
    assert(low@ =~= digits(v as nat, n as nat));
    let ghost start = dst@;
    let mut i: usize = 0;
    while i < n
        invariant
            i <= n,
            low@.len() == n,
            dst@ == start + order.arrange(low@).subrange(0, i as int),
        decreases n - i,
    {
        let at: usize = match order {
            ByteOrder::Little => i,
            ByteOrder::Big => n - 1 - i,
        };
        dst.push(low[at]);
        assert(dst@ =~= start + order.arrange(low@).subrange(0, i + 1));
        i = i + 1;
    }
    assert(order.arrange(low@).subrange(0, n as int) =~= order.arrange(low@));
}

/// Reads the `n` bytes of `src` from the index `at` on as an unsigned integer.
pub fn get_uint(src: &[u8], order: ByteOrder, at: usize, n: usize) -> (v: u64)
    requires
        n <= 8,
        at + n <= src@.len(),
    ensures
        v == order.value(src@.subrange(at as int, at + n)),
        v < capacity(n as nat),
{
    let ghost low = order.arrange(src@.subrange(at as int, at + n));
    let mut v: u64 = 0;
    let mut k: usize = n;
    proof {
        lemma_capacities();
        assert(low.subrange(n as int, n as int) =~= Seq::<u8>::empty());
    }
    while k > 0
        invariant
            k <= n <= 8,
            at + n <= src@.len() == src.len(),
            low == order.arrange(src@.subrange(at as int, at + n)),
            low.len() == n,
            v == number(low.subrange(k as int, n as int)),
            v < capacity((n - k) as nat),
            capacity(8) == 0x1_0000_0000_0000_0000,
        decreases k,
    {
        k = k - 1;
        let i: usize = match order {
            ByteOrder::Little => at + k,
            ByteOrder::Big => at + (n - 1 - k),
        };
        proof {
            assert(src@[i as int] == low[k as int]);
            assert(low.subrange(k as int, n as int).drop_first() =~= low.subrange(
                k + 1,
                n as int,
            ));
            lemma_digits_of_number(low.subrange(k as int, n as int));
            lemma_capacity_monotonic((n - k) as nat, 8);
        }
        v = v * 256 + src[i] as u64;
    }
    assert(low.subrange(0, n as int) =~= low);
    v
}

proof fn lemma_capacity_monotonic(a: nat, b: nat)
    requires
        a <= b,
    ensures
        capacity(a) <= capacity(b),
    decreases b - a,
{
    if a < b {
        lemma_capacity_monotonic(a, (b - 1) as nat);
    }
}

/// The `u32` with the two's complement bits of `v`.
pub fn to_bits32(v: i32) -> (u: u32)
    ensures
        u == bits32(v),
        u == v as int % 0x1_0000_0000,
{
    if v >= 0 {
        v as u32
    } else {
        (v as i64 + 0x1_0000_0000) as u32
    }
}

/// The `u64` with the two's complement bits of `v`.
pub fn to_bits64(v: i64) -> (u: u64)
    ensures
        u == bits64(v),
        u == v as int % 0x1_0000_0000_0000_0000,
{
    if v >= 0 {
        v as u64
    } else {
        (v as i128 + 0x1_0000_0000_0000_0000) as u64
    }
}

} // verus!
