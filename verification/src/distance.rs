//! The XOR metric between 256-bit node identifiers and its logarithm.

use vstd::prelude::*;

verus! {

/// `2^k`.
pub open spec fn two_pow(k: nat) -> nat
    decreases k,
{
    if k == 0 {
        1
    } else {
        2 * two_pow((k - 1) as nat)
    }
}

/// The number a sequence of bytes denotes, most significant byte first.
pub open spec fn big_endian_value(bytes: Seq<u8>) -> nat
    decreases bytes.len(),
{
    if bytes.len() == 0 {
        0
    } else {
        big_endian_value(bytes.drop_last()) * 256 + bytes.last() as nat
    }
}

/// The number of binary digits of `n` (0 for 0), i.e. `256 - leading_zeros`
/// for a 256-bit number.
pub open spec fn bit_length(n: nat) -> nat
    decreases n,
{
    if n == 0 {
        0
    } else {
        1 + bit_length(n / 2)
    }
}

/// Byte-wise XOR of two byte sequences of the same length.
pub open spec fn xor_bytes(x: Seq<u8>, y: Seq<u8>) -> Seq<u8> {
    Seq::new(x.len(), |i: int| x[i] ^ y[i])
}

/// The XOR distance of two identifiers, as a number.
pub open spec fn xor_distance(x: Seq<u8>, y: Seq<u8>) -> nat {
    big_endian_value(xor_bytes(x, y))
}

/// The logarithmic distance of two identifiers.
pub open spec fn log_distance(x: Seq<u8>, y: Seq<u8>) -> nat {
    bit_length(xor_distance(x, y))
}

proof fn lemma_two_pow_positive(k: nat)
    ensures
        two_pow(k) >= 1,
    decreases k,
{
    if k > 0 {
        lemma_two_pow_positive((k - 1) as nat);
    }
}

proof fn lemma_two_pow_8()
    ensures
        two_pow(8) == 256,
{
    reveal_with_fuel(two_pow, 9);
}

/// Shifting a positive number left by `k` bits and filling the gap with a
/// number below `2^k` adds `k` to its bit length.
proof fn lemma_bit_length_shift(x: nat, k: nat, r: nat)
    requires
        x >= 1,
        r < two_pow(k),
    ensures
        bit_length(x * two_pow(k) + r) == bit_length(x) + k,
    decreases k,
{
    if k > 0 {
        let p = two_pow((k - 1) as nat);
        lemma_two_pow_positive((k - 1) as nat);
        let h = x * p;
        assert(x * two_pow(k) == 2 * h) by (nonlinear_arith)
            requires
                two_pow(k) == 2 * p,
                h == x * p,
        ;
        assert(h >= 1) by (nonlinear_arith)
            requires
                x >= 1,
                p >= 1,
                h == x * p,
        ;
        let n = x * two_pow(k) + r;
        assert(n / 2 == h + r / 2);
        lemma_bit_length_shift(x, (k - 1) as nat, r / 2);
    } else {
        assert(two_pow(0) == 1);
        assert(x * 1 == x);
    }
}

/// A number below `2^k` has at most `k` binary digits.
proof fn lemma_bit_length_bound(n: nat, k: nat)
    requires
        n < two_pow(k),
    ensures
        bit_length(n) <= k,
    decreases k,
{
    if k > 0 && n > 0 {
        lemma_bit_length_bound(n / 2, (k - 1) as nat);
    }
}

/// A positive number with `b` binary digits lies in `[2^(b-1), 2^b)`.
pub proof fn lemma_bit_length_range(n: nat)
    requires
        n > 0,
    ensures
        bit_length(n) >= 1,
        two_pow((bit_length(n) - 1) as nat) <= n < two_pow(bit_length(n)),
    decreases n,
{
    if n == 1 {
        assert(bit_length(0) == 0);
        assert(bit_length(1) == 1);
        reveal_with_fuel(two_pow, 2);
    } else {
        lemma_bit_length_range(n / 2);
    }
}

/// The bit length of a number is zero exactly when the number is zero.
pub proof fn lemma_bit_length_zero(n: nat)
    ensures
        (bit_length(n) == 0) <==> (n == 0),
{
}

/// Number of binary digits of a byte.
fn byte_bit_length(b: u8) -> (n: u16)
    ensures
        n == bit_length(b as nat),
        n <= 8,
{
    proof {
        lemma_two_pow_8();
        lemma_bit_length_bound(b as nat, 8);
    }
    let mut v: u8 = b;
    let mut n: u16 = 0;
    while v > 0
        invariant
            bit_length(b as nat) == n + bit_length(v as nat),
            bit_length(b as nat) <= 8,
        decreases v,
    {
        v = v / 2;
        n = n + 1;
    }
    n
}

/// Byte-wise XOR of two 256-bit identifiers: the XOR distance, most significant
/// byte first.
pub fn distance_xor(x: &[u8; 32], y: &[u8; 32]) -> (z: [u8; 32])
    ensures
        z@ == xor_bytes(x@, y@),
{
    let mut z: [u8; 32] = [0u8; 32];
    let mut i: usize = 0;
    while i < 32
        invariant
            i <= 32,
            z@.len() == 32,
            x@.len() == 32,
            y@.len() == 32,
            forall|j: int| 0 <= j < i ==> z@[j] == x@[j] ^ y@[j],
        decreases 32 - i,
    {
        z[i] = x[i] ^ y[i];
        i = i + 1;
    }
    assert(z@ =~= xor_bytes(x@, y@));
    z
}

/// The logarithmic distance: the number of binary digits of the distance, that
/// is `256 - leading_zeros`, and 0 for the zero distance.
pub fn distance_log2(distance: &[u8; 32]) -> (log: u16)
    ensures
        log == bit_length(big_endian_value(distance@)),
        log <= 256,
{
    let mut log: u16 = 0;
    let mut i: usize = 0;
    proof {
        lemma_two_pow_8();
        assert(distance@.take(0) =~= Seq::<u8>::empty());
    }
    while i < 32
        invariant
            i <= 32,
            distance@.len() == 32,
            log == bit_length(big_endian_value(distance@.take(i as int))),
            log <= 8 * i,
            two_pow(8) == 256,
        decreases 32 - i,
    {
        let ghost prefix = distance@.take(i as int);
        let ghost v = big_endian_value(prefix);
        assert(distance@.take(i + 1).drop_last() =~= prefix);
        assert(big_endian_value(distance@.take(i + 1)) == v * 256 + distance@[i as int]);
        let b = distance[i];
        if log == 0 {
            proof {
                lemma_bit_length_zero(v);
            }
            log = byte_bit_length(b);
        } else {
            proof {
                lemma_bit_length_zero(v);
                lemma_bit_length_shift(v, 8, b as nat);
            }
            log = log + 8;
        }
        i = i + 1;
    }
    assert(distance@.take(32) =~= distance@);
    log
}

/// The XOR distance is symmetric.
pub proof fn lemma_distance_symmetric(x: Seq<u8>, y: Seq<u8>)
    requires
        x.len() == y.len(),
    ensures
        xor_bytes(x, y) == xor_bytes(y, x),
        xor_distance(x, y) == xor_distance(y, x),
        log_distance(x, y) == log_distance(y, x),
{
    assert forall|i: int| 0 <= i < x.len() implies #[trigger] xor_bytes(x, y)[i] == xor_bytes(
        y,
        x,
    )[i] by {
        let a = x[i];
        let b = y[i];
        assert(a ^ b == b ^ a) by (bit_vector);
    }
    assert(xor_bytes(x, y) =~= xor_bytes(y, x));
}

proof fn lemma_value_zero_iff_all_zero(s: Seq<u8>)
    ensures
        (big_endian_value(s) == 0) <==> (forall|i: int| 0 <= i < s.len() ==> s[i] == 0),
    decreases s.len(),
{
    if s.len() > 0 {
        lemma_value_zero_iff_all_zero(s.drop_last());
        if big_endian_value(s) == 0 {
            assert forall|i: int| 0 <= i < s.len() implies s[i] == 0 by {
                if i < s.len() - 1 {
                    assert(s.drop_last()[i] == s[i]);
                }
            }
        }
        if forall|i: int| 0 <= i < s.len() ==> s[i] == 0 {
            assert forall|i: int| 0 <= i < s.drop_last().len() implies s.drop_last()[i] == 0 by {
                assert(s.drop_last()[i] == s[i]);
            }
        }
    }
}

/// The XOR distance of two identifiers is zero exactly when they are equal, and
/// so is their logarithmic distance.
pub proof fn lemma_distance_zero_iff_equal(x: Seq<u8>, y: Seq<u8>)
    requires
        x.len() == y.len(),
    ensures
        (xor_distance(x, y) == 0) <==> (x == y),
        (log_distance(x, y) == 0) <==> (x == y),
{
    let z = xor_bytes(x, y);
    lemma_value_zero_iff_all_zero(z);
    lemma_bit_length_zero(xor_distance(x, y));
    if xor_distance(x, y) == 0 {
        assert forall|i: int| 0 <= i < x.len() implies x[i] == y[i] by {
            let a = x[i];
            let b = y[i];
            assert(z[i] == 0);
            assert(a ^ b == 0 ==> a == b) by (bit_vector);
        }
        assert(x =~= y);
    }
    if x == y {
        assert forall|i: int| 0 <= i < z.len() implies z[i] == 0 by {
            let a = x[i];
            assert(a ^ a == 0) by (bit_vector);
        }
    }
}

/// XOR distances compose: the distance from `x` to `z` is the XOR of the
/// distances from `x` to `y` and from `y` to `z`.
pub proof fn lemma_distance_compose(x: Seq<u8>, y: Seq<u8>, z: Seq<u8>)
    requires
        x.len() == y.len(),
        y.len() == z.len(),
    ensures
        xor_bytes(xor_bytes(x, y), xor_bytes(y, z)) == xor_bytes(x, z),
{
    assert forall|i: int| 0 <= i < x.len() implies #[trigger] xor_bytes(
        xor_bytes(x, y),
        xor_bytes(y, z),
    )[i] == xor_bytes(x, z)[i] by {
        let a = x[i];
        let b = y[i];
        let c = z[i];
        assert((a ^ b) ^ (b ^ c) == a ^ c) by (bit_vector);
    }
    assert(xor_bytes(xor_bytes(x, y), xor_bytes(y, z)) =~= xor_bytes(x, z));
}

/// A distance of `n` bytes is below `2^(8n)`, so a 256-bit distance has at most
/// 256 binary digits.
pub proof fn lemma_value_bound(s: Seq<u8>)
    ensures
        big_endian_value(s) < two_pow(8 * s.len()),
        bit_length(big_endian_value(s)) <= 8 * s.len(),
    decreases s.len(),
{
    if s.len() == 0 {
        reveal_with_fuel(two_pow, 1);
    } else {
        let k = 8 * (s.len() - 1);
        lemma_value_bound(s.drop_last());
        lemma_two_pow_shift8(k as nat);
    }
    lemma_bit_length_bound(big_endian_value(s), 8 * s.len());
}

proof fn lemma_two_pow_shift8(k: nat)
    ensures
        two_pow(k + 8) == two_pow(k) * 256,
{
    reveal_with_fuel(two_pow, 9);
}

/// The distance to the all-zero identifier is the identifier itself.
pub proof fn lemma_distance_to_zero(x: Seq<u8>)
    ensures
        xor_bytes(x, Seq::new(x.len(), |i: int| 0u8)) == x,
        xor_distance(x, Seq::new(x.len(), |i: int| 0u8)) == big_endian_value(x),
{
    let zero = Seq::new(x.len(), |i: int| 0u8);
    assert forall|i: int| 0 <= i < x.len() implies #[trigger] xor_bytes(x, zero)[i] == x[i] by {
        let a = x[i];
        assert(a ^ 0u8 == a) by (bit_vector);
    }
    assert(xor_bytes(x, zero) =~= x);
}

/// The XOR of two numbers is at most their sum, digit by digit in base 256.
proof fn lemma_xor_value_le_sum(u: Seq<u8>, v: Seq<u8>)
    requires
        u.len() == v.len(),
    ensures
        big_endian_value(xor_bytes(u, v)) <= big_endian_value(u) + big_endian_value(v),
    decreases u.len(),
{
    if u.len() > 0 {
        let w = xor_bytes(u, v);
        lemma_xor_value_le_sum(u.drop_last(), v.drop_last());
        assert(w.drop_last() =~= xor_bytes(u.drop_last(), v.drop_last()));
        let a = u.last();
        let b = v.last();
        assert(w.last() == a ^ b);
        assert((a ^ b) as int <= a as int + b as int) by (bit_vector);
    }
}

/// The XOR distance satisfies the triangle inequality: going through `y` is
/// never shorter than going from `x` to `z` directly.
pub proof fn lemma_distance_triangle(x: Seq<u8>, y: Seq<u8>, z: Seq<u8>)
    requires
        x.len() == y.len(),
        y.len() == z.len(),
    ensures
        xor_distance(x, z) <= xor_distance(x, y) + xor_distance(y, z),
{
    lemma_distance_compose(x, y, z);
    lemma_xor_value_le_sum(xor_bytes(x, y), xor_bytes(y, z));
}

} // verus!
