//! Base58 text in the Bitcoin alphabet: what it says and how long it is.

use vstd::arithmetic::power::*;
use vstd::prelude::*;

verus! {

/// Digit `d` of the alphabet: `1` to `9`, then `A` to `Z` without `I` and `O`, then `a` to `z`
/// without `l`.
pub open spec fn base58_char(d: nat) -> char {
    if d < 9 {
        ('1' as nat + d) as char
    } else if d < 17 {
        ('A' as nat + (d - 9)) as char
    } else if d < 22 {
        ('J' as nat + (d - 17)) as char
    } else if d < 33 {
        ('P' as nat + (d - 22)) as char
    } else if d < 44 {
        ('a' as nat + (d - 33)) as char
    } else {
        ('m' as nat + (d - 44)) as char
    }
}

/// The number whose digits in base 256 are `bytes`, most significant first.
pub open spec fn big_endian(bytes: Seq<u8>) -> nat
    decreases bytes.len(),
{
    if bytes.len() == 0 {
        0
    } else {
        big_endian(bytes.drop_last()) * 256 + bytes.last() as nat
    }
}

/// `n` in base 58, most significant digit first; nothing at all for zero.
pub open spec fn base58_digits(n: nat) -> Seq<char>
    decreases n,
{
    if n == 0 {
        Seq::empty()
    } else {
        base58_digits(n / 58).push(base58_char(n % 58))
    }
}

/// How many bytes at the start of `bytes` are zero.
pub open spec fn leading_zeros(bytes: Seq<u8>) -> nat
    decreases bytes.len(),
{
    if bytes.len() > 0 && bytes[0] == 0 {
        1 + leading_zeros(bytes.skip(1))
    } else {
        0
    }
}

/// `bytes` in base58: one zero digit for each leading zero byte, then the digits of the number
/// that the bytes denote.
pub open spec fn base58(bytes: Seq<u8>) -> Seq<char> {
    Seq::new(leading_zeros(bytes), |i: int| base58_char(0)) + base58_digits(big_endian(bytes))
}

/// `bs58::encode(bytes).into_string()`: the bytes in base58, with the default alphabet and
/// without a checksum. Claimed is the text in full. Longer inputs are left out, since the size
/// of the buffer that the encoder asks for can overflow.
#[verifier::external_body]
pub(crate) fn encode(bytes: &[u8]) -> (r: String)
    requires
        bytes@.len() <= 1024,
    ensures
        r@ == base58(bytes@),
{
    bs58::encode(bytes).into_string()
}

/// A number below `58^k` has at most `k` digits.
proof fn lemma_digits_at_most(n: nat, k: nat)
    requires
        n < pow(58, k),
    ensures
        base58_digits(n).len() <= k,
    decreases n,
{
    if n > 0 {
        if k == 0 {
            lemma_pow0(58);
        } else {
            lemma_pow_adds(58, 1, (k - 1) as nat);
            lemma_pow1(58);
            assert(n / 58 < pow(58, (k - 1) as nat));
            lemma_digits_at_most(n / 58, (k - 1) as nat);
        }
    }
}

/// A number that is not below `58^k` has more than `k` digits.
proof fn lemma_digits_more_than(n: nat, k: nat)
    requires
        n >= pow(58, k),
    ensures
        base58_digits(n).len() > k,
    decreases k,
{
    lemma_pow_positive(58, k);
    if k > 0 {
        lemma_pow_adds(58, 1, (k - 1) as nat);
        lemma_pow1(58);
        assert(n / 58 >= pow(58, (k - 1) as nat));
        lemma_digits_more_than(n / 58, (k - 1) as nat);
    }
}

/// Bounds of a big-endian number by its length.
proof fn lemma_big_endian_bounds(bytes: Seq<u8>)
    ensures
        big_endian(bytes) < pow(256, bytes.len()),
        bytes.len() > 0 && bytes[0] != 0 ==> big_endian(bytes) >= pow(
            256,
            (bytes.len() - 1) as nat,
        ),
    decreases bytes.len(),
{
    lemma_pow1(256);
    lemma_pow0(256);
    if bytes.len() > 0 {
        let front = bytes.drop_last();
        lemma_big_endian_bounds(front);
        lemma_pow_adds(256, 1, front.len());
        if front.len() > 0 {
            lemma_pow_adds(256, 1, (front.len() - 1) as nat);
        }
    }
}

/// Leading zero bytes add nothing to a big-endian number.
proof fn lemma_skip_zero(bytes: Seq<u8>)
    requires
        bytes.len() > 0,
        bytes[0] == 0,
    ensures
        big_endian(bytes) == big_endian(bytes.skip(1)),
    decreases bytes.len(),
{
    if bytes.len() == 1 {
        assert(bytes.drop_last() =~= Seq::<u8>::empty());
        assert(bytes.skip(1) =~= Seq::<u8>::empty());
        assert(big_endian(bytes.drop_last()) == 0);
    } else {
        lemma_skip_zero(bytes.drop_last());
        assert(bytes.skip(1).drop_last() =~= bytes.drop_last().skip(1));
    }
}

/// What is left behind the leading zero bytes.
proof fn lemma_leading_zeros(bytes: Seq<u8>)
    ensures
        leading_zeros(bytes) <= bytes.len(),
        big_endian(bytes) == big_endian(bytes.skip(leading_zeros(bytes) as int)),
        leading_zeros(bytes) < bytes.len() ==> bytes[leading_zeros(bytes) as int] != 0,
    decreases bytes.len(),
{
    if bytes.len() > 0 && bytes[0] == 0 {
        lemma_skip_zero(bytes);
        lemma_leading_zeros(bytes.skip(1));
        let z = leading_zeros(bytes);
        assert(bytes.skip(1).skip(z - 1) =~= bytes.skip(z as int));
    } else {
        assert(bytes.skip(0) =~= bytes);
    }
}

/// `58^11` exceeds `256^8`.
proof fn lemma_eight_bytes()
    ensures
        pow(256, 8) <= pow(58, 11),
{
    lemma_pow1(256);
    lemma_pow_adds(256, 1, 1);
    lemma_pow_adds(256, 2, 2);
    lemma_pow_adds(256, 4, 4);
    lemma_pow1(58);
    lemma_pow_adds(58, 1, 1);
    lemma_pow_adds(58, 2, 2);
    lemma_pow_adds(58, 4, 4);
    lemma_pow_adds(58, 8, 2);
    lemma_pow_adds(58, 10, 1);
    assert(pow(256, 2) == 65536) by (nonlinear_arith)
        requires
            pow(256, 2) == pow(256, 1) * pow(256, 1),
            pow(256, 1) == 256,
    ;
    assert(pow(256, 4) == 4294967296) by (nonlinear_arith)
        requires
            pow(256, 4) == pow(256, 2) * pow(256, 2),
            pow(256, 2) == 65536,
    ;
    assert(pow(256, 8) == 18446744073709551616) by (nonlinear_arith)
        requires
            pow(256, 8) == pow(256, 4) * pow(256, 4),
            pow(256, 4) == 4294967296,
    ;
    assert(pow(58, 2) == 3364) by (nonlinear_arith)
        requires
            pow(58, 2) == pow(58, 1) * pow(58, 1),
            pow(58, 1) == 58,
    ;
    assert(pow(58, 4) == 11316496) by (nonlinear_arith)
        requires
            pow(58, 4) == pow(58, 2) * pow(58, 2),
            pow(58, 2) == 3364,
    ;
    assert(pow(58, 8) == 128063081718016) by (nonlinear_arith)
        requires
            pow(58, 8) == pow(58, 4) * pow(58, 4),
            pow(58, 4) == 11316496,
    ;
    assert(pow(58, 10) == 430804206899405824) by (nonlinear_arith)
        requires
            pow(58, 10) == pow(58, 8) * pow(58, 2),
            pow(58, 8) == 128063081718016,
            pow(58, 2) == 3364,
    ;
    assert(pow(58, 11) == 24986644000165537792) by (nonlinear_arith)
        requires
            pow(58, 11) == pow(58, 10) * pow(58, 1),
            pow(58, 10) == 430804206899405824,
            pow(58, 1) == 58,
    ;
}

/// `58^(11 k)` is no less than `256^(8 k)`.
proof fn lemma_blocks(k: nat)
    ensures
        pow(256, 8 * k) <= pow(58, 11 * k),
    decreases k,
{
    lemma_pow0(256);
    lemma_pow0(58);
    if k > 0 {
        let j = (k - 1) as nat;
        lemma_blocks(j);
        lemma_eight_bytes();
        lemma_pow_adds(256, 8, 8 * j);
        lemma_pow_adds(58, 11, 11 * j);
        lemma_pow_positive(256, 8 * j);
        lemma_pow_positive(256, 8);
        let (a, b, c, d) = (pow(256, 8), pow(58, 11), pow(256, 8 * j), pow(58, 11 * j));
        assert(a * c <= b * d) by (nonlinear_arith)
            requires
                0 < a <= b,
                0 < c <= d,
        ;
        assert(8 * k == 8 + 8 * j);
        assert(11 * k == 11 + 11 * j);
    }
}

/// Law: the base58 text of `8 k` bytes has at least `8 k` and at most `11 k` characters: 32 to
/// 44 for a public key, 64 to 88 for a signature.
pub proof fn base58_length(bytes: Seq<u8>, k: nat)
    requires
        bytes.len() == 8 * k,
    ensures
        8 * k <= base58(bytes).len() <= 11 * k,
{
    let z = leading_zeros(bytes);
    let rest = bytes.skip(z as int);
    lemma_leading_zeros(bytes);
    lemma_big_endian_bounds(rest);
    let m = rest.len();
    if m > 0 {
        lemma_pow_increases_base((m - 1) as nat);
        lemma_digits_more_than(big_endian(rest), (m - 1) as nat);
    }
    lemma_blocks(k);
    let p = (11 * k - z) as nat;
    lemma_pow_adds(58, p, z);
    lemma_pow_adds(256, m, z);
    lemma_pow_increases_base(z);
    lemma_pow_positive(58, z);
    lemma_pow_positive(256, m);
    let (a, b, c, d) = (pow(58, p), pow(58, z), pow(256, m), pow(256, z));
    assert(a >= c) by (nonlinear_arith)
        requires
            a * b >= c * d,
            d >= b,
            b > 0,
            c > 0,
    ;
    lemma_digits_at_most(big_endian(rest), p);
}

/// A larger base has no smaller powers.
proof fn lemma_pow_increases_base(k: nat)
    ensures
        pow(58, k) <= pow(256, k),
    decreases k,
{
    lemma_pow0(58);
    lemma_pow0(256);
    if k > 0 {
        let j = (k - 1) as nat;
        lemma_pow_increases_base(j);
        lemma_pow_adds(58, 1, j);
        lemma_pow_adds(256, 1, j);
        lemma_pow1(58);
        lemma_pow1(256);
        lemma_pow_positive(58, j);
    }
}

/// The value of one base58 character.
spec fn char_value(c: char) -> nat {
    if c <= '9' {
        (c as nat - '1' as nat) as nat
    } else if c <= 'H' {
        (c as nat - 'A' as nat + 9) as nat
    } else if c <= 'N' {
        (c as nat - 'J' as nat + 17) as nat
    } else if c <= 'Z' {
        (c as nat - 'P' as nat + 22) as nat
    } else if c <= 'k' {
        (c as nat - 'a' as nat + 33) as nat
    } else {
        (c as nat - 'm' as nat + 44) as nat
    }
}

/// The number that a base58 text denotes.
spec fn text_value(s: Seq<char>) -> nat
    decreases s.len(),
{
    if s.len() == 0 {
        0
    } else {
        text_value(s.drop_last()) * 58 + char_value(s.last())
    }
}

/// Zero digits in front leave the number as it is.
proof fn lemma_text_value(z: nat, n: nat)
    ensures
        text_value(Seq::new(z, |i: int| base58_char(0)) + base58_digits(n)) == n,
    decreases n, z,
{
    let zeros = Seq::new(z, |i: int| base58_char(0));
    let s = zeros + base58_digits(n);
    if n > 0 {
        lemma_text_value(z, n / 58);
        assert(s.drop_last() =~= zeros + base58_digits(n / 58));
        assert(char_value(base58_char(n % 58)) == n % 58);
    } else if z > 0 {
        let fewer = Seq::new((z - 1) as nat, |i: int| base58_char(0));
        lemma_text_value((z - 1) as nat, 0);
        assert(s.drop_last() =~= fewer + base58_digits(0));
        assert(char_value(base58_char(0)) == 0);
    } else {
        assert(s =~= Seq::<char>::empty());
    }
}

/// Bytes of one length that denote the same number are the same.
proof fn lemma_big_endian_injective(a: Seq<u8>, b: Seq<u8>)
    requires
        a.len() == b.len(),
        big_endian(a) == big_endian(b),
    ensures
        a == b,
    decreases a.len(),
{
    if a.len() > 0 {
        lemma_big_endian_injective(a.drop_last(), b.drop_last());
        assert(a =~= a.drop_last().push(a.last()));
        assert(b =~= b.drop_last().push(b.last()));
    } else {
        assert(a =~= b);
    }
}

/// Of two numbers written without leading zero bytes, the one with fewer bytes is smaller.
proof fn lemma_fewer_bytes(a: Seq<u8>, b: Seq<u8>)
    requires
        a.len() < b.len(),
        b[0] != 0,
    ensures
        big_endian(a) < big_endian(b),
{
    lemma_big_endian_bounds(a);
    lemma_big_endian_bounds(b);
    lemma_pow_increases(256, a.len(), (b.len() - 1) as nat);
}

/// Law: a base58 text names its bytes. Two public keys have one address, and two signatures one
/// text, only if they are the same.
pub proof fn base58_injective(a: Seq<u8>, b: Seq<u8>)
    requires
        base58(a) == base58(b),
    ensures
        a == b,
{
    let (y, z) = (leading_zeros(a), leading_zeros(b));
    lemma_text_value(y, big_endian(a));
    lemma_text_value(z, big_endian(b));
    assert(y == z);
    lemma_leading_zeros(a);
    lemma_leading_zeros(b);
    let (p, q) = (a.skip(y as int), b.skip(z as int));
    if p.len() < q.len() {
        lemma_fewer_bytes(p, q);
    }
    if q.len() < p.len() {
        lemma_fewer_bytes(q, p);
    }
    lemma_big_endian_injective(a, b);
}

} // verus!
