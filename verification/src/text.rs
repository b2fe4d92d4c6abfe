use vstd::prelude::*;
use vstd::string::StringSliceAdditionalSpecFns;

verus! {

/// `buf` with the bytes `bs` written from position `n` on.
pub open spec fn write_at(buf: Seq<u8>, n: int, bs: Seq<u8>) -> Seq<u8> {
    buf.take(n) + bs + buf.skip(n + bs.len())
}

/// Copies the bytes of `s` into `buf` from position `n` on.
pub fn strcpy(buf: &mut [u8], s: &str, n: usize)
    requires
        n + s.spec_bytes().len() <= old(buf)@.len(),
    ensures
        final(buf)@ == write_at(old(buf)@, n as int, s.spec_bytes()),
{
    let bytes = s.as_bytes();
    let blen = buf.len();
    let mut i: usize = 0;
    while i < bytes.len()
        invariant
            blen == buf@.len(),
            bytes@ == s.spec_bytes(),
            i <= bytes@.len(),
            n + bytes@.len() <= buf@.len(),
            buf@.len() == old(buf)@.len(),
            forall|j: int| 0 <= j < n ==> buf@[j] == old(buf)@[j],
            forall|j: int| 0 <= j < i ==> buf@[n + j] == bytes@[j],
            forall|j: int| n + i <= j < buf@.len() ==> buf@[j] == old(buf)@[j],
        decreases bytes@.len() - i,
    {
        buf[n + i] = bytes[i];
        i += 1;
    }
    assert(buf@ =~= write_at(old(buf)@, n as int, s.spec_bytes()));
}

/// The decimal digits of `x`, most significant first, as ASCII bytes.
pub open spec fn digits(x: nat) -> Seq<u8>
    decreases x,
{
    if x < 10 {
        seq![(48 + x) as u8]
    } else {
        digits(x / 10).push((48 + x % 10) as u8)
    }
}

/// The decimal form of `i` as ASCII bytes: a `-` for a negative number, then
/// its digits.
pub open spec fn decimal(i: int) -> Seq<u8> {
    if i < 0 {
        seq![45u8] + digits((-i) as nat)
    } else {
        digits(i as nat)
    }
}

/// `x` is a power of ten.
pub open spec fn is_pow10(x: nat) -> bool
    decreases x,
{
    x == 1 || (x >= 10 && x % 10 == 0 && is_pow10(x / 10))
}

/// The absolute value of `i`.
pub open spec fn abs(i: int) -> nat {
    if i < 0 {
        (-i) as nat
    } else {
        i as nat
    }
}

/// The numbers that [`intwrite`] accepts. It writes every other number with
/// its exact digit count; left out are only the numbers on which sizing by
/// the rounded-up decimal logarithm always falls one digit short (the powers
/// of ten, positive or negative) and `i32::MIN`, whose negation overflows.
pub open spec fn writable(i: i32) -> bool {
    i != i32::MIN && !is_pow10(abs(i as int))
}

proof fn lemma_digits_len(x: nat)
    ensures
        digits(x).len() >= 1,
        x >= 10 ==> digits(x).len() == digits(x / 10).len() + 1,
        x < 10 ==> digits(x).len() == 1,
    decreases x,
{
    if x >= 10 {
        lemma_digits_len(x / 10);
    }
}

proof fn lemma_digits_bytes(x: nat)
    ensures
        forall|j: int| 0 <= j < digits(x).len() ==> 48 <= #[trigger] digits(x)[j] <= 57,
    decreases x,
{
    if x >= 10 {
        lemma_digits_bytes(x / 10);
        let d = digits(x / 10);
        assert forall|j: int| 0 <= j < digits(x).len() implies 48 <= #[trigger] digits(x)[j] <= 57 by {
            if j < d.len() {
                assert(digits(x)[j] == d[j]);
            }
        }
    }
}

/// 10 to the power `k`.
pub open spec fn pow10_nat(k: nat) -> nat
    decreases k,
{
    if k == 0 {
        1
    } else {
        10 * pow10_nat((k - 1) as nat)
    }
}

proof fn lemma_pow10_step(k: nat)
    ensures
        pow10_nat(k + 1) == 10 * pow10_nat(k),
        pow10_nat(k) >= 1,
    decreases k,
{
    if k > 0 {
        lemma_pow10_step((k - 1) as nat);
    }
}

proof fn lemma_pow10_mono(a: nat, b: nat)
    requires
        a <= b,
    ensures
        pow10_nat(a) <= pow10_nat(b),
    decreases b,
{
    if a < b {
        lemma_pow10_mono(a, (b - 1) as nat);
        lemma_pow10_step((b - 1) as nat);
    }
}

/// A positive number lies between the powers of ten around its digit count.
proof fn lemma_digits_bounds(x: nat)
    requires
        x >= 1,
    ensures
        pow10_nat((digits(x).len() - 1) as nat) <= x < pow10_nat(digits(x).len()),
        is_pow10(x) <==> x == pow10_nat((digits(x).len() - 1) as nat),
    decreases x,
{
    lemma_digits_len(x);
    if x < 10 {
        assert(pow10_nat(0) == 1);
        assert(pow10_nat(1) == 10) by {
            reveal_with_fuel(pow10_nat, 2);
        }
    } else {
        let q = x / 10;
        lemma_digits_bounds(q);
        lemma_digits_len(q);
        let l = digits(q).len();
        lemma_pow10_step((l - 1) as nat);
        lemma_pow10_step(l);
        let a = pow10_nat((l - 1) as nat);
        let b = pow10_nat(l);
        assert(a <= q < b);
        assert(10 * a <= x < 10 * b) by (nonlinear_arith)
            requires
                a <= q,
                q < b,
                q == x / 10,
                x >= 10,
        ;
        if is_pow10(x) {
            assert(q == a);
            assert(x == 10 * a);
        }
        if x == 10 * a {
            assert(x % 10 == 0);
            assert(q == a);
        }
    }
}

/// ⌈log₁₀ x⌉, the count of decimal digits by which a number is sized before
/// it is written: the least `k` with `x <= 10^k`.
fn ceil_log10(x: u32) -> (k: usize)
    requires
        x >= 1,
    ensures
        x <= pow10_nat(k as nat),
        k >= 1 ==> pow10_nat((k - 1) as nat) < x,
        k <= 10,
{
    let mut p: u64 = 1;
    let mut k: usize = 0;
    assert(pow10_nat(0) == 1);
    while p < x as u64
        invariant
            p == pow10_nat(k as nat),
            k >= 1 ==> pow10_nat((k - 1) as nat) < x,
            p <= 10 * (x as u64),
            k <= 10,
            x >= 1,
        decreases 11 - k,
    {
        proof {
            lemma_pow10_step(k as nat);
            if k == 10 {
                assert(pow10_nat(10) == 10000000000) by {
                    reveal_with_fuel(pow10_nat, 11);
                }
            }
        }
        p = p * 10;
        k += 1;
    }
    k
}

/// For a number that is not a power of ten, ⌈log₁₀ x⌉ is its digit count.
proof fn lemma_ceil_log10_digits(x: nat, k: nat)
    requires
        x >= 1,
        !is_pow10(x),
        x <= pow10_nat(k),
        k >= 1 ==> pow10_nat((k - 1) as nat) < x,
    ensures
        k == digits(x).len(),
{
    lemma_digits_bounds(x);
    lemma_digits_len(x);
    let d = digits(x).len();
    if k < d {
        lemma_pow10_mono(k, (d - 1) as nat);
    } else if k > d {
        lemma_pow10_mono(d, (k - 1) as nat);
    }
}

proof fn lemma_digits_step(x: nat)
    requires
        x >= 10,
    ensures
        digits(x) == digits(x / 10).push((48 + x % 10) as u8),
{
}

/// Writes the decimal form of `i` into `buf` from position `n` on: a `-`
/// first when it is negative, then its digits.
pub fn intwrite(buf: &mut [u8], i: i32, n: usize)
    requires
        writable(i),
        n + decimal(i as int).len() <= old(buf)@.len(),
    ensures
        final(buf)@ == write_at(old(buf)@, n as int, decimal(i as int)),
{
    let ghost d = decimal(i as int);
    let ghost x = abs(i as int);
    let blen = buf.len();
    proof {
        lemma_digits_len(x);
        lemma_digits_bytes(x);
    }
    let mut tot: i32 = i;
    let mut len: usize = if i == 0 {
        7
    } else if i < 0 {
        ceil_log10((-i) as u32)
    } else {
        ceil_log10(i as u32)
    };
    proof {
        if i != 0 {
            lemma_ceil_log10_digits(x, len as nat);
        }
    }
    let ghost off: int = 0;
    if tot < 0 {
        buf[n] = 45u8;
        len += 1;
        tot = -tot;
        proof {
            off = 1;
        }
    }
    if tot == 0 {
        buf[n] = 48u8;
    }
    while tot > 0
        invariant
            blen == buf@.len(),
            buf@.len() == old(buf)@.len(),
            n + d.len() <= blen,
            x == abs(i as int),
            d == decimal(i as int),
            0 <= tot <= x,
            off == (if i < 0 { 1int } else { 0int }),
            d.len() == off + digits(x).len(),
            tot > 0 ==> len - off == digits(tot as nat).len(),
            tot > 0 ==> digits(x) == digits(tot as nat) + digits(x).skip(len - off),
            tot == 0 && i != 0 ==> len == off,
            i != 0 ==> tot > 0 || len == off,
            i != 0 ==> off <= len <= d.len(),
            forall|j: int| 0 <= j < buf@.len() && !(n <= j < n + d.len()) ==> buf@[j] == old(buf)@[j],
            off == 1 ==> buf@[n as int] == 45u8,
            i == 0 ==> buf@[n as int] == 48u8,
            forall|j: int| len <= j < d.len() ==> buf@[n + j] == d[j],
        decreases tot,
    {
        proof {
            lemma_digits_len(tot as nat);
            if tot >= 10 {
                lemma_digits_step(tot as nat);
            }
        }
        len -= 1;
        let digit: u8 = (tot % 10) as u8;
        buf[n + len] = 48u8 + digit;
        proof {
            let t = tot as nat;
            if t >= 10 {
                assert(digits(t) == digits(t / 10).push((48 + t % 10) as u8));
                assert(digits(x) =~= digits(t / 10) + digits(x).skip(len - off));
            } else {
                assert(digits(t) == seq![(48 + t) as u8]);
            }
            assert(digits(x)[len - off] == (48 + t % 10) as u8);
            assert(d[len as int] == digits(x)[len - off]);
        }
        tot = tot / 10;
    }
    assert(buf@ =~= write_at(old(buf)@, n as int, d));
}

/// The report line before the numbers are written into it.
pub const HIT_TEMPLATE: &'static str = "hit x:     y:     z:      - x:     y:     z:     =      \n";

/// Length of the report line.
pub const HIT_LINE_LEN: usize = 64;

/// The report line: [`HIT_TEMPLATE`] on a line of zero bytes, then the
/// decimal form of each number written, in order, after its label: the
/// reading's x, y and z at 6, 13 and 20, the candidate's x, y and z at 30,
/// 37 and 44, their distance at 50.
pub open spec fn spec_hit_report(v: Seq<i32>) -> Seq<u8> {
    let line = write_at(Seq::new(HIT_LINE_LEN as nat, |j: int| 0u8), 0, HIT_TEMPLATE.spec_bytes());
    let line = write_at(line, 6, decimal(v[0] as int));
    let line = write_at(line, 13, decimal(v[1] as int));
    let line = write_at(line, 20, decimal(v[2] as int));
    let line = write_at(line, 30, decimal(v[3] as int));
    let line = write_at(line, 37, decimal(v[4] as int));
    let line = write_at(line, 44, decimal(v[5] as int));
    write_at(line, 50, decimal(v[6] as int))
}

/// The decimal form of an `i32` takes at most 11 bytes.
proof fn lemma_decimal_len(i: i32)
    ensures
        1 <= decimal(i as int).len() <= 11,
{
    let x = abs(i as int);
    lemma_digits_len(x);
    if x >= 1 {
        lemma_digits_bounds(x);
        let d = digits(x).len();
        if d > 10 {
            lemma_pow10_mono(10, (d - 1) as nat);
            assert(pow10_nat(10) == 10000000000) by {
                reveal_with_fuel(pow10_nat, 11);
            }
        }
    }
}

/// Builds the report line, as [`spec_hit_report`] describes, from the
/// reading, the candidate and their distance.
pub fn hit_report(values: &[i32; 7]) -> (line: [u8; 64])
    requires
        forall|k: int| 0 <= k < 7 ==> writable(#[trigger] values@[k]),
    ensures
        line@ == spec_hit_report(values@),
{
    let mut xs: [u8; 64] = [0u8; 64];
    proof {
        reveal_strlit("hit x:     y:     z:      - x:     y:     z:     =      \n");
        vstd::string::is_ascii_spec_bytes(HIT_TEMPLATE);
        assert(xs@ =~= Seq::new(HIT_LINE_LEN as nat, |j: int| 0u8));
        assert(HIT_TEMPLATE.spec_bytes().len() == 57);
        lemma_decimal_len(values@[0]);
        lemma_decimal_len(values@[1]);
        lemma_decimal_len(values@[2]);
        lemma_decimal_len(values@[3]);
        lemma_decimal_len(values@[4]);
        lemma_decimal_len(values@[5]);
        lemma_decimal_len(values@[6]);
    }
    strcpy(&mut xs, HIT_TEMPLATE, 0);
    intwrite(&mut xs, values[0], 6);
    intwrite(&mut xs, values[1], 13);
    intwrite(&mut xs, values[2], 20);
    intwrite(&mut xs, values[3], 30);
    intwrite(&mut xs, values[4], 37);
    intwrite(&mut xs, values[5], 44);
    intwrite(&mut xs, values[6], 50);
    xs
}

/// The number that a string of ASCII digits denotes.
pub open spec fn digits_value(s: Seq<u8>) -> int
    decreases s.len(),
{
    if s.len() == 0 {
        0
    } else {
        digits_value(s.drop_last()) * 10 + (s.last() - 48)
    }
}

/// The number that a decimal form denotes: a leading `-` negates the digits
/// after it.
pub open spec fn decimal_value(s: Seq<u8>) -> int {
    if s.len() > 0 && s[0] == 45u8 {
        -digits_value(s.drop_first())
    } else {
        digits_value(s)
    }
}

proof fn lemma_digits_value(x: nat)
    ensures
        digits_value(digits(x)) == x,
    decreases x,
{
    if x >= 10 {
        lemma_digits_value(x / 10);
        assert(digits(x).drop_last() =~= digits(x / 10));
        let d = digits(x);
        assert(d.last() == (48 + x % 10) as u8);
        assert(d.last() - 48 == x % 10);
        assert(digits_value(d) == digits_value(d.drop_last()) * 10 + (d.last() - 48));
        assert((x / 10) * 10 + x % 10 == x) by (nonlinear_arith);
    } else {
        let d = digits(x);
        assert(d.drop_last() =~= Seq::<u8>::empty());
        assert(digits_value(d) == digits_value(d.drop_last()) * 10 + (d.last() - 48));
    }
}

/// What [`intwrite`] writes reads back as the number written.
pub proof fn lemma_decimal_round_trip(i: int)
    ensures
        decimal_value(decimal(i)) == i,
{
    if i < 0 {
        let x = (-i) as nat;
        lemma_digits_value(x);
        assert(decimal(i).drop_first() =~= digits(x));
    } else {
        lemma_digits_value(i as nat);
        lemma_digits_bytes(i as nat);
    }
}

/// Whether [`intwrite`] can write `i` (see [`writable`]).
pub fn writable_number(i: i32) -> (b: bool)
    ensures
        b == writable(i),
{
    if i == i32::MIN {
        return false;
    }
    let mut x: u32 = if i < 0 {
        (-i) as u32
    } else {
        i as u32
    };
    assert(x as nat == abs(i as int));
    while x >= 10 && x % 10 == 0
        invariant
            is_pow10(x as nat) == is_pow10(abs(i as int)),
        decreases x,
    {
        x = x / 10;
    }
    assert(is_pow10(x as nat) == (x == 1));
    x != 1
}

} // verus!
