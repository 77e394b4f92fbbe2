//! Colors written as hex codes, and sizes written for people.

use vstd::prelude::*;
use vstd::string::StringSliceAdditionalSpecFns;
use crate::render::{decimal, decimal_of, digit_char};
use crate::text::{push_all, string_of};

verus! {

/// The bytes left once the leading `#` bytes are dropped.
pub open spec fn drop_hashes(b: Seq<u8>) -> Seq<u8>
    decreases b.len(),
{
    if b.len() > 0 && b[0] == 0x23 {
        drop_hashes(b.drop_first())
    } else {
        b
    }
}

/// `str::is_char_boundary`: the start, the end, or a byte that does not
/// continue a character.
pub open spec fn char_boundary(b: Seq<u8>, i: int) -> bool {
    i == 0 || i == b.len() || (0 <= i < b.len() && (b[i] < 0x80 || b[i] >= 0xc0))
}

/// The value of a hex digit byte, either case.
pub open spec fn hex_value(c: u8) -> Option<u8> {
    if 0x30 <= c <= 0x39 {
        Some((c - 0x30) as u8)
    } else if 0x61 <= c <= 0x66 {
        Some((c - 0x61 + 10) as u8)
    } else if 0x41 <= c <= 0x46 {
        Some((c - 0x41 + 10) as u8)
    } else {
        None
    }
}

/// `u8::from_str_radix(_, 16)` on two bytes, with 0 for an error: two hex
/// digits, or a `+` and one digit.
pub open spec fn pair_value(a: u8, b: u8) -> u8 {
    if a == 0x2b {
        match hex_value(b) {
            Some(d) => d,
            None => 0,
        }
    } else {
        match (hex_value(a), hex_value(b)) {
            (Some(x), Some(y)) => (16 * x + y) as u8,
            _ => 0,
        }
    }
}

/// The color a hex code names: leading `#`s are dropped; six bytes give the
/// red, green and blue pairs (a pair that is not a number gives 0); any other
/// length gives middle gray.
pub open spec fn spec_hex_to_rgb(b: Seq<u8>) -> (u8, u8, u8) {
    let t = drop_hashes(b);
    if t.len() != 6 {
        (128, 128, 128)
    } else {
        (pair_value(t[0], t[1]), pair_value(t[2], t[3]), pair_value(t[4], t[5]))
    }
}

fn hex_value_exec(c: u8) -> (r: Option<u8>)
    ensures
        r == hex_value(c),
{
    if 0x30 <= c && c <= 0x39 {
        Some(c - 0x30)
    } else if 0x61 <= c && c <= 0x66 {
        Some(c - 0x61 + 10)
    } else if 0x41 <= c && c <= 0x46 {
        Some(c - 0x41 + 10)
    } else {
        None
    }
}

fn pair_value_exec(a: u8, b: u8) -> (r: u8)
    ensures
        r == pair_value(a, b),
{
    if a == 0x2b {
        match hex_value_exec(b) {
            Some(d) => d,
            None => 0,
        }
    } else {
        match (hex_value_exec(a), hex_value_exec(b)) {
            (Some(x), Some(y)) => 16 * x + y,
            _ => 0,
        }
    }
}

/// The red, green and blue parts of a hex color code. A code of six bytes
/// after its `#`s must split into pairs between characters.
pub fn hex_to_rgb(hex: &str) -> (r: (u8, u8, u8))
    requires
        drop_hashes(hex.spec_bytes()).len() == 6 ==> char_boundary(drop_hashes(hex.spec_bytes()), 2)
            && char_boundary(drop_hashes(hex.spec_bytes()), 4),
    ensures
        r == spec_hex_to_rgb(hex.spec_bytes()),
{
    let b = hex.as_bytes();
    let mut i: usize = 0;
    assert(b@.skip(0) =~= b@);
    while i < b.len() && b[i] == 0x23
        invariant
            i <= b@.len(),
            drop_hashes(b@) == drop_hashes(b@.skip(i as int)),
        decreases b@.len() - i,
    {
        assert(b@.skip(i as int).drop_first() =~= b@.skip(i + 1));
        i = i + 1;
    }
    let ghost t = b@.skip(i as int);
    assert(drop_hashes(t) == t) by {
        if t.len() > 0 {
            assert(t[0] == b@[i as int]);
        }
    }
    if b.len() - i != 6 {
        return (128, 128, 128);
    }
    let red = pair_value_exec(b[i], b[i + 1]);
    let green = pair_value_exec(b[i + 2], b[i + 3]);
    let blue = pair_value_exec(b[i + 4], b[i + 5]);
    (red, green, blue)
}

/// The hex digit of `d` (below 16), as a byte, in upper or lower case.
pub open spec fn hex_digit_byte(d: u8, upper: bool) -> u8 {
    if d < 10 {
        (0x30 + d) as u8
    } else if upper {
        (0x41 + d - 10) as u8
    } else {
        (0x61 + d - 10) as u8
    }
}

/// `n` `#` bytes.
pub open spec fn hashes(n: nat) -> Seq<u8> {
    Seq::new(n, |i: int| 0x23u8)
}

/// A color written as `hashes` `#`s and then `rrggbb`, the `i`-th digit in
/// upper case where `upper[i]` holds.
pub open spec fn hex_code(n: nat, r: u8, g: u8, b: u8, upper: Seq<bool>) -> Seq<u8> {
    hashes(n) + seq![
        hex_digit_byte(r / 16, upper[0]),
        hex_digit_byte(r % 16, upper[1]),
        hex_digit_byte(g / 16, upper[2]),
        hex_digit_byte(g % 16, upper[3]),
        hex_digit_byte(b / 16, upper[4]),
        hex_digit_byte(b % 16, upper[5]),
    ]
}

proof fn lemma_pair_round_trip(x: u8, u1: bool, u2: bool)
    ensures
        pair_value(hex_digit_byte(x / 16, u1), hex_digit_byte(x % 16, u2)) == x,
{
    assert(hex_value(hex_digit_byte(x / 16, u1)) == Some((x / 16) as u8));
    assert(hex_value(hex_digit_byte(x % 16, u2)) == Some((x % 16) as u8));
    assert(16 * (x / 16) + x % 16 == x);
}

proof fn lemma_drop_hashes(n: nat, t: Seq<u8>)
    requires
        t.len() > 0,
        t[0] != 0x23,
    ensures
        drop_hashes(hashes(n) + t) == t,
    decreases n,
{
    if n == 0 {
        assert(hashes(n) + t =~= t);
    } else {
        assert((hashes(n) + t).drop_first() =~= hashes((n - 1) as nat) + t);
        assert((hashes(n) + t)[0] == 0x23);
        lemma_drop_hashes((n - 1) as nat, t);
    }
}

/// A color written in hex reads back as the same color: with any number of
/// leading `#`s (none too), and each digit in either case.
pub proof fn lemma_hex_round_trip(n: nat, r: u8, g: u8, b: u8, upper: Seq<bool>)
    ensures
        spec_hex_to_rgb(hex_code(n, r, g, b, upper)) == (r, g, b),
{
    let t = seq![
        hex_digit_byte(r / 16, upper[0]),
        hex_digit_byte(r % 16, upper[1]),
        hex_digit_byte(g / 16, upper[2]),
        hex_digit_byte(g % 16, upper[3]),
        hex_digit_byte(b / 16, upper[4]),
        hex_digit_byte(b % 16, upper[5]),
    ];
    lemma_drop_hashes(n, t);
    assert(drop_hashes(hex_code(n, r, g, b, upper)) == t);
    lemma_pair_round_trip(r, upper[0], upper[1]);
    lemma_pair_round_trip(g, upper[2], upper[3]);
    lemma_pair_round_trip(b, upper[4], upper[5]);
}

/// `2^n`.
pub open spec fn pow2(n: nat) -> nat
    decreases n,
{
    if n == 0 {
        1
    } else {
        2 * pow2((n - 1) as nat)
    }
}

/// The number of binary digits of `n`.
pub open spec fn bit_len(n: nat) -> nat
    decreases n,
{
    if n == 0 {
        0
    } else {
        1 + bit_len(n / 2)
    }
}

/// `n / d`, rounded to the nearest integer, a tie to the even one.
pub open spec fn div_round_even(n: nat, d: nat) -> nat
    recommends
        d > 0,
{
    let q = n / d;
    let r = n % d;
    if 2 * r > d {
        q + 1
    } else if 2 * r < d {
        q
    } else if q % 2 == 0 {
        q
    } else {
        q + 1
    }
}

/// The `f64` nearest to `n` (a tie to the even significand), as an integer:
/// numbers of more than 53 binary digits lose their low digits.
pub open spec fn nearest_f64(n: nat) -> nat {
    if bit_len(n) <= 53 {
        n
    } else {
        let p = pow2((bit_len(n) - 53) as nat);
        div_round_even(n, p) * p
    }
}

/// `q` tenths written with one decimal: `<q / 10>.<q % 10>`.
pub open spec fn tenths_text(q: nat) -> Seq<char> {
    decimal(q / 10) + seq!['.', digit_char(q % 10)]
}

/// `format_size`: bytes below 1024 as `<n> b`; below 1024² as kilobytes with
/// one decimal, `<x.y> kb`; larger as megabytes with one decimal, `<x.y> mb`.
/// The decimal is rounded as `{:.1}` rounds the `f64` quotient: to nearest,
/// a tie to even, after the byte count itself is rounded to an `f64`.
pub open spec fn spec_format_size(bytes: u64) -> Seq<char> {
    if bytes < 1024 {
        decimal(bytes as nat) + " b"@
    } else if bytes < 1048576 {
        tenths_text(div_round_even((bytes * 10) as nat, 1024)) + " kb"@
    } else {
        tenths_text(div_round_even(nearest_f64(bytes as nat) * 10, 1048576)) + " mb"@
    }
}

proof fn lemma_bit_len_bound(n: nat, k: nat)
    requires
        n < pow2(k),
    ensures
        bit_len(n) <= k,
    decreases k,
{
    if n > 0 && k > 0 {
        lemma_bit_len_bound(n / 2, (k - 1) as nat);
    }
}

proof fn lemma_pow2_64()
    ensures
        pow2(64) == 0x1_0000_0000_0000_0000,
        pow2(11) == 2048,
{
    reveal_with_fuel(pow2, 65);
}

fn round_even_exec(n: u128, d: u128) -> (r: u128)
    requires
        d > 0,
        d <= 0x1_0000_0000,
        n < 0x1_0000_0000_0000_0000_0000,
    ensures
        r == div_round_even(n as nat, d as nat),
{
    let q = n / d;
    let rem = n % d;
    if rem > d - rem {
        q + 1
    } else if rem < d - rem {
        q
    } else if q % 2 == 0 {
        q
    } else {
        q + 1
    }
}

fn bit_len_exec(n: u64) -> (r: u64)
    ensures
        r == bit_len(n as nat),
        r <= 64,
{
    proof {
        lemma_pow2_64();
        lemma_bit_len_bound(n as nat, 64);
    }
    let mut cur = n;
    let mut count: u64 = 0;
    while cur > 0
        invariant
            bit_len(n as nat) == count + bit_len(cur as nat),
            bit_len(n as nat) <= 64,
        decreases cur,
    {
        cur = cur / 2;
        count = count + 1;
    }
    count
}

fn pow2_exec(k: u64) -> (r: u128)
    requires
        k <= 11,
    ensures
        r == pow2(k as nat),
        0 < r <= 2048,
{
    let mut p: u128 = 1;
    let mut i: u64 = 0;
    while i < k
        invariant
            i <= k,
            k <= 11,
            p == pow2(i as nat),
            0 < p <= 2048,
        decreases k - i,
    {
        proof {
            reveal_with_fuel(pow2, 12);
            assert(pow2((i + 1) as nat) == 2 * pow2(i as nat));
            lemma_pow2_mono(i as nat, 10);
        }
        p = p * 2;
        i = i + 1;
    }
    p
}

proof fn lemma_pow2_pos(a: nat)
    ensures
        pow2(a) > 0,
    decreases a,
{
    if a > 0 {
        lemma_pow2_pos((a - 1) as nat);
    }
}

proof fn lemma_pow2_mono(a: nat, b: nat)
    requires
        a <= b,
    ensures
        pow2(a) <= pow2(b),
    decreases b,
{
    if a < b {
        lemma_pow2_mono(a, (b - 1) as nat);
    }
}

/// The nearest `f64` to `n`, as an integer.
fn nearest_f64_exec(n: u64) -> (r: u128)
    ensures
        r == nearest_f64(n as nat),
        r <= 0x1_0000_0000_0000_0000,
{
    let bl = bit_len_exec(n);
    if bl <= 53 {
        return n as u128;
    }
    let p = pow2_exec(bl - 53);
    let q = round_even_exec(n as u128, p);
    proof {
        lemma_pow2_64();
        lemma_nearest_bound(n as nat, p as nat, q as nat, (bl - 53) as nat);
    }
    q * p
}

/// The rounding never passes the next power of two above `n`.
proof fn lemma_nearest_bound(n: nat, p: nat, q: nat, s: nat)
    requires
        p == pow2(s),
        s + 53 == bit_len(n),
        n < 0x1_0000_0000_0000_0000,
        q == div_round_even(n, p),
    ensures
        q * p <= 0x1_0000_0000_0000_0000,
{
    lemma_pow2_64();
    lemma_pow2_pos(s);
    lemma_bit_len_bound(n, 64);
    lemma_bit_len_upper(n);
    assert(n < pow2(bit_len(n)));
    lemma_pow2_split(s, 53);
    assert(pow2(bit_len(n)) == pow2(s) * pow2(53));
    assert(n < p * pow2(53));
    assert(n / p < pow2(53)) by (nonlinear_arith)
        requires n < p * pow2(53), p > 0;
    assert(q <= pow2(53));
    assert(q * p <= pow2(53) * p) by (nonlinear_arith)
        requires q <= pow2(53), p > 0;
    lemma_pow2_mono(bit_len(n), 64);
    assert(pow2(53) * p == pow2(bit_len(n)));
}

proof fn lemma_bit_len_upper(n: nat)
    ensures
        n < pow2(bit_len(n)),
    decreases n,
{
    if n > 0 {
        lemma_bit_len_upper(n / 2);
    }
}

proof fn lemma_pow2_split(a: nat, b: nat)
    ensures
        pow2(a + b) == pow2(a) * pow2(b),
    decreases a,
{
    if a == 0 {
        assert(pow2(a) == 1);
        assert(a + b == b);
    } else {
        lemma_pow2_split((a - 1) as nat, b);
        assert(pow2(a + b) == 2 * pow2((a - 1 + b) as nat));
        assert(pow2(a) == 2 * pow2((a - 1) as nat));
        assert(2 * (pow2((a - 1) as nat) * pow2(b)) == (2 * pow2((a - 1) as nat)) * pow2(b)) by (nonlinear_arith);
    }
}

fn tenths_exec(q: u128) -> (r: Vec<char>)
    ensures
        r@ == tenths_text(q as nat),
{
    let mut out = decimal_of(q / 10);
    out.push('.');
    let d = decimal_of(q % 10);
    proof {
        assert(decimal((q % 10) as nat) == seq![digit_char((q % 10) as nat)]);
    }
    push_all(&mut out, &d);
    assert(out@ =~= tenths_text(q as nat));
    out
}

/// A byte count written for people: `b`, `kb` or `mb`.
pub fn format_size(bytes: u64) -> (r: String)
    ensures
        r@ == spec_format_size(bytes),
{
    let mut out: Vec<char>;
    if bytes < 1024 {
        out = decimal_of(bytes as u128);
        push_all(&mut out, &crate::text::chars_of(" b"));
    } else if bytes < 1048576 {
        let q = round_even_exec(bytes as u128 * 10, 1024);
        out = tenths_exec(q);
        push_all(&mut out, &crate::text::chars_of(" kb"));
    } else {
        let v = nearest_f64_exec(bytes);
        let q = round_even_exec(v * 10, 1048576);
        out = tenths_exec(q);
        push_all(&mut out, &crate::text::chars_of(" mb"));
    }
    string_of(&out)
}

} // verus!
