//! The GPU load that one line of `nvidia-smi` output reports.
//!
//! The monitor keeps only the ASCII digits and points of a line, reads what
//! is left as an `f32`, clamps it to `0..=100` and truncates it to a whole
//! percentage. The reading is computed here in exact integer arithmetic,
//! including the rounding to the nearest `f32` that the float parse does.
use vstd::prelude::*;
use crate::text::{digits_value, is_digit, all_digits, chars_of, char_is_digit, digit_value};

verus! {

pub open spec fn pow10(n: nat) -> nat
    decreases n,
{
    if n == 0 {
        1
    } else {
        10 * pow10((n - 1) as nat)
    }
}

pub open spec fn pow2(n: nat) -> nat
    decreases n,
{
    if n == 0 {
        1
    } else {
        2 * pow2((n - 1) as nat)
    }
}

/// The number of points in `s`.
pub open spec fn dot_count(s: Seq<char>) -> nat
    decreases s.len(),
{
    if s.len() == 0 {
        0
    } else {
        dot_count(s.drop_last()) + if s.last() == '.' {
            1nat
        } else {
            0nat
        }
    }
}

/// The digits of `s` that stand before its first point.
pub open spec fn int_digits(s: Seq<char>) -> Seq<char>
    decreases s.len(),
{
    if s.len() == 0 {
        Seq::empty()
    } else if is_digit(s.last()) && dot_count(s.drop_last()) == 0 {
        int_digits(s.drop_last()).push(s.last())
    } else {
        int_digits(s.drop_last())
    }
}

/// The digits of `s` that stand after its first point.
pub open spec fn frac_digits(s: Seq<char>) -> Seq<char>
    decreases s.len(),
{
    if s.len() == 0 {
        Seq::empty()
    } else if is_digit(s.last()) && dot_count(s.drop_last()) > 0 {
        frac_digits(s.drop_last()).push(s.last())
    } else {
        frac_digits(s.drop_last())
    }
}

/// For a whole number `1 <= k <= 128`: the exponent `e` such that the `f32`
/// numbers just below `k` are `2^(1-e)` apart, so that a real number rounds
/// to `k` (ties go to `k`, whose last mantissa bit is even) exactly when it
/// lies no more than `2^-e` below `k`.
pub open spec fn round_up_exponent(k: nat) -> nat {
    if k <= 1 {
        25
    } else if k <= 2 {
        24
    } else if k <= 4 {
        23
    } else if k <= 8 {
        22
    } else if k <= 16 {
        21
    } else if k <= 32 {
        20
    } else if k <= 64 {
        19
    } else {
        18
    }
}

/// The whole percentage that `i + f / 10^d` (with `f < 10^d`) gives once it
/// is rounded to the nearest `f32`, clamped to `0..=100` and truncated: `i`,
/// or `i + 1` when the value lies within `2^-e` of it, or 100 at most.
pub open spec fn rounded_usage(i: nat, f: nat, d: nat) -> nat {
    let e = round_up_exponent(i + 1);
    if i >= 100 {
        100
    } else if f * pow2(e) >= (pow2(e) - 1) * pow10(d) {
        i + 1
    } else {
        i
    }
}

/// The GPU load, in percent, that a line of output reports: `None` when the
/// digits and points of the line do not form a number (more than one point,
/// or no digit at all), as for a blank line.
pub open spec fn gpu_reading(line: Seq<char>) -> Option<nat> {
    let a = int_digits(line);
    let b = frac_digits(line);
    if dot_count(line) > 1 || a.len() + b.len() == 0 {
        None
    } else {
        Some(rounded_usage(digits_value(a), digits_value(b), b.len()))
    }
}

// ---------------------------------------------------------------------------
// Lemmas
// ---------------------------------------------------------------------------

/// Every reading is a percentage between 0 and 100.
pub proof fn lemma_reading_bound(line: Seq<char>)
    ensures
        gpu_reading(line) matches Some(u) ==> u <= 100,
{
}

proof fn lemma_pow_positive(n: nat)
    ensures
        pow10(n) >= 1,
        pow2(n) >= 1,
    decreases n,
{
    if n > 0 {
        lemma_pow_positive((n - 1) as nat);
    }
}

proof fn lemma_pow10_add(a: nat, b: nat)
    ensures
        pow10(a + b) == pow10(a) * pow10(b),
    decreases a,
{
    if a == 0 {
        assert(pow10(0) == 1);
        assert(a + b == b);
    } else {
        lemma_pow10_add((a - 1) as nat, b);
        assert(pow10(a) == 10 * pow10((a - 1) as nat));
        assert((a + b - 1) as nat == (a - 1 + b) as nat);
        assert(pow10(a + b) == 10 * pow10((a - 1 + b) as nat));
        assert(10 * (pow10((a - 1) as nat) * pow10(b)) == (10 * pow10((a - 1) as nat)) * pow10(b))
            by (nonlinear_arith);
    }
}

pub open spec fn pow5(n: nat) -> nat
    decreases n,
{
    if n == 0 {
        1
    } else {
        5 * pow5((n - 1) as nat)
    }
}

proof fn lemma_pow10_split(n: nat)
    ensures
        pow10(n) == pow2(n) * pow5(n),
    decreases n,
{
    if n == 0 {
        assert(pow10(0) == 1 && pow2(0) == 1 && pow5(0) == 1);
    } else {
        lemma_pow10_split((n - 1) as nat);
        let a = pow2((n - 1) as nat);
        let b = pow5((n - 1) as nat);
        assert(pow10(n) == 10 * pow10((n - 1) as nat));
        assert(pow2(n) == 2 * a);
        assert(pow5(n) == 5 * b);
        assert(10 * (a * b) == (2 * a) * (5 * b)) by (nonlinear_arith);
    }
}

proof fn lemma_pow2_add(a: nat, b: nat)
    ensures
        pow2(a + b) == pow2(a) * pow2(b),
    decreases a,
{
    if a == 0 {
        assert(pow2(0) == 1);
        assert(a + b == b);
    } else {
        lemma_pow2_add((a - 1) as nat, b);
        assert(pow2(a) == 2 * pow2((a - 1) as nat));
        assert(pow2(a + b) == 2 * pow2((a - 1 + b) as nat));
        assert(2 * (pow2((a - 1) as nat) * pow2(b)) == (2 * pow2((a - 1) as nat)) * pow2(b))
            by (nonlinear_arith);
    }
}

/// `10^25` is `2^e` times a whole number `q` for `e <= 25`.
proof fn lemma_pow2_divides(e: nat) -> (q: nat)
    requires
        e <= 25,
    ensures
        pow10(25) == pow2(e) * q,
{
    lemma_pow10_split(25);
    lemma_pow2_add(e, (25 - e) as nat);
    let q = pow2((25 - e) as nat) * pow5(25);
    let a = pow2(e);
    let b = pow2((25 - e) as nat);
    let c = pow5(25);
    assert((a * b) * c == a * (b * c)) by (nonlinear_arith);
    q
}

proof fn lemma_scale_ge(a: int, b: int, c: int)
    requires
        c > 0,
    ensures
        (a >= b) == (a * c >= b * c),
{
    if a >= b {
        assert(a * c >= b * c) by (nonlinear_arith)
            requires
                a >= b,
                c > 0,
        ;
    } else {
        assert(a * c < b * c) by (nonlinear_arith)
            requires
                a < b,
                c > 0,
        ;
    }
}

/// With `0 <= r < m`: `x * m + r >= g * m` exactly when `x >= g`.
proof fn lemma_floor_ge(x: int, r: int, m: int, g: int)
    requires
        0 <= r < m,
    ensures
        (x * m + r >= g * m) == (x >= g),
{
    if x >= g {
        assert(x * m >= g * m) by (nonlinear_arith)
            requires
                x >= g,
                m > 0,
        ;
    } else {
        assert((x + 1) * m <= g * m) by (nonlinear_arith)
            requires
                x + 1 <= g,
                m > 0,
        ;
        assert(x * m + r < (x + 1) * m) by (nonlinear_arith)
            requires
                r < m,
        ;
    }
}

/// Where a digit string splits, its value splits.
pub proof fn lemma_digits_value_concat(a: Seq<char>, b: Seq<char>)
    ensures
        digits_value(a + b) == digits_value(a) * pow10(b.len()) + digits_value(b),
    decreases b.len(),
{
    if b.len() == 0 {
        assert(a + b =~= a);
        assert(pow10(0) == 1);
        assert(digits_value(b) == 0);
    } else {
        let b0 = b.drop_last();
        lemma_digits_value_concat(a, b0);
        assert((a + b).drop_last() =~= a + b0);
        assert((a + b).last() == b.last());
        let x = digits_value(a);
        let y = digits_value(b0);
        let p = pow10(b0.len());
        assert(pow10(b.len()) == 10 * p);
        assert((x * p + y) * 10 == x * (10 * p) + y * 10) by (nonlinear_arith);
    }
}

/// A digit string of length `n` denotes less than `10^n`.
pub proof fn lemma_digits_value_bound(s: Seq<char>)
    requires
        all_digits(s),
    ensures
        digits_value(s) < pow10(s.len()),
    decreases s.len(),
{
    if s.len() > 0 {
        let p = s.drop_last();
        assert(all_digits(p)) by {
            assert forall|i: int| 0 <= i < p.len() implies #[trigger] is_digit(p[i]) by {
                assert(p[i] == s[i]);
            }
        }
        lemma_digits_value_bound(p);
        assert(is_digit(s[s.len() - 1]));
        let v = digits_value(p);
        let q = pow10(p.len());
        assert(v * 10 + 9 < 10 * q) by (nonlinear_arith)
            requires
                v < q,
        ;
    }
}

/// The rounding test on all fraction digits agrees with the test on the
/// first 25 of them, padded to 25 digits.
proof fn lemma_round_test(b: Seq<char>, e: nat)
    requires
        all_digits(b),
        e <= 25,
    ensures
        ({
            let n = if b.len() <= 25 {
                b.len()
            } else {
                25
            };
            let head = digits_value(b.subrange(0, n as int));
            let padded = head * pow10((25 - n) as nat);
            (digits_value(b) * pow2(e) >= (pow2(e) - 1) * pow10(b.len())) == (padded * pow2(e)
                >= (pow2(e) - 1) * pow10(25))
        }),
{
    let h = pow2(e);
    lemma_pow_positive(e);
    let d = b.len();
    if d <= 25 {
        assert(b.subrange(0, d as int) =~= b);
        let c = pow10((25 - d) as nat);
        lemma_pow_positive((25 - d) as nat);
        lemma_pow10_add(d, (25 - d) as nat);
        let f = digits_value(b);
        lemma_scale_ge((f * h) as int, (h - 1) * pow10(d), c as int);
        assert(f * h * c == f * c * h) by (nonlinear_arith);
        assert((h - 1) * pow10(d) * c == (h - 1) * (pow10(d) * c)) by (nonlinear_arith);
        assert(d + (25 - d) as nat == 25);
        assert(pow10(25) == pow10(d) * c);
        assert((f * h >= (h - 1) * pow10(d)) == (f * c * h >= (h - 1) * pow10(25)));
    } else {
        let r = (d - 25) as nat;
        let head_s = b.subrange(0, 25);
        let tail_s = b.subrange(25, d as int);
        assert(head_s + tail_s =~= b);
        lemma_digits_value_concat(head_s, tail_s);
        assert(all_digits(tail_s)) by {
            assert forall|i: int| 0 <= i < tail_s.len() implies #[trigger] is_digit(tail_s[i]) by {
                assert(tail_s[i] == b[i + 25]);
            }
        }
        lemma_digits_value_bound(tail_s);
        let x = digits_value(head_s);
        let rr = digits_value(tail_s);
        let m = pow10(r);
        lemma_pow_positive(r);
        lemma_pow10_add(25, r);
        let q = lemma_pow2_divides(e);
        let g = (h - 1) * q;
        // digits_value(b) * h >= (h - 1) * 10^d  <==>  digits_value(b) >= g * m
        lemma_scale_ge((x * m + rr) as int, g * m, h as int);
        assert((h - 1) * pow10(d) == g * m * h) by (nonlinear_arith)
            requires
                pow10(d) == pow10(25) * m,
                pow10(25) == h * q,
                g == (h - 1) * q,
        ;
        lemma_floor_ge(x as int, rr as int, m as int, g);
        // padded * h >= (h - 1) * 10^25  <==>  x >= g
        assert(pow10(0) == 1);
        lemma_scale_ge(x as int, g, h as int);
        assert((h - 1) * pow10(25) == g * h) by (nonlinear_arith)
            requires
                pow10(25) == h * q,
                g == (h - 1) * q,
        ;
        assert(digits_value(b) == x * m + rr);
        assert(25 + r == d);
        assert((digits_value(b) * h >= (h - 1) * pow10(d)) == (x * m + rr >= g * m));
        assert((x * m + rr >= g * m) == (x >= g));
        assert((x >= g) == (x * h >= (h - 1) * pow10(25)));
        assert(x * pow10(0) == x);
    }
}

proof fn lemma_pow10_monotone(a: nat, b: nat)
    requires
        a <= b,
    ensures
        pow10(a) <= pow10(b),
{
    lemma_pow10_add(a, (b - a) as nat);
    lemma_pow_positive((b - a) as nat);
    lemma_pow_positive(a);
    let x = pow10(a);
    let y = pow10((b - a) as nat);
    assert(x <= x * y) by (nonlinear_arith)
        requires
            y >= 1,
            x >= 0,
    ;
}

proof fn lemma_pow_values()
    ensures
        pow10(25) == 10000000000000000000000000,
        pow2(18) == 262144,
        pow2(19) == 524288,
        pow2(20) == 1048576,
        pow2(21) == 2097152,
        pow2(22) == 4194304,
        pow2(23) == 8388608,
        pow2(24) == 16777216,
        pow2(25) == 33554432,
{
    reveal_with_fuel(pow10, 26);
    reveal_with_fuel(pow2, 26);
}

/// `2^e` for the exponent that `round_up_exponent(k)` gives.
fn round_up_scale(k: u64) -> (h: u128)
    requires
        1 <= k <= 100,
    ensures
        h == pow2(round_up_exponent(k as nat)),
        262144 <= h <= 33554432,
{
    proof {
        lemma_pow_values();
    }
    if k <= 1 {
        33554432
    } else if k <= 2 {
        16777216
    } else if k <= 4 {
        8388608
    } else if k <= 8 {
        4194304
    } else if k <= 16 {
        2097152
    } else if k <= 32 {
        1048576
    } else if k <= 64 {
        524288
    } else {
        262144
    }
}

/// The GPU load, in whole percent, that a line of the remote command's
/// output reports, or `None` when the line holds no number.
pub fn parse_gpu_usage(line: &str) -> (r: Option<u32>)
    ensures
        match gpu_reading(line@) {
            Some(u) => r == Some(u as u32),
            None => r is None,
        },
        r matches Some(u) ==> u <= 100,
{
    let v = chars_of(line);
    let len = v.len();
    let mut dots: usize = 0;
    let mut ival: u64 = 0;
    let mut any = false;
    let mut fcount: usize = 0;
    let mut f25: u128 = 0;
    let mut i: usize = 0;
    proof {
        lemma_pow_values();
        assert(v@.subrange(0, 0) =~= Seq::<char>::empty());
        assert(frac_digits(Seq::<char>::empty()).subrange(0, 0) =~= Seq::<char>::empty());
    }
    while i < len
        invariant
            i <= len == v@.len(),
            v@ == line@,
            pow10(25) == 10000000000000000000000000,
            dots as nat == dot_count(v@.subrange(0, i as int)),
            dots <= i,
            ival as nat == if digits_value(int_digits(v@.subrange(0, i as int))) < 100 {
                digits_value(int_digits(v@.subrange(0, i as int)))
            } else {
                100
            },
            any == (int_digits(v@.subrange(0, i as int)).len() + frac_digits(
                v@.subrange(0, i as int),
            ).len() > 0),
            fcount as nat == if frac_digits(v@.subrange(0, i as int)).len() < 25 {
                frac_digits(v@.subrange(0, i as int)).len()
            } else {
                25
            },
            f25 as nat == digits_value(
                frac_digits(v@.subrange(0, i as int)).subrange(0, fcount as int),
            ),
            f25 < pow10(fcount as nat),
            all_digits(int_digits(v@.subrange(0, i as int))),
            all_digits(frac_digits(v@.subrange(0, i as int))),
        decreases len - i,
    {
        let ghost p = v@.subrange(0, i as int);
        let ghost q = v@.subrange(0, i + 1);
        let c = v[i];
        proof {
            assert(q.drop_last() =~= p);
            assert(q.last() == c);
        }
        let ghost ip = int_digits(p);
        let ghost fp = frac_digits(p);
        if c == '.' {
            dots += 1;
        } else if char_is_digit(c) {
            any = true;
            let d = digit_value(c);
            proof {
                assert(ip.push(c).drop_last() =~= ip);
                assert(fp.push(c).drop_last() =~= fp);
                assert(all_digits(ip.push(c)));
                assert(all_digits(fp.push(c)));
            }
            if dots == 0 {
                let next = ival * 10 + d;
                ival = if next < 100 {
                    next
                } else {
                    100
                };
            } else if fcount < 25 {
                proof {
                    assert(fp.subrange(0, fcount as int) =~= fp);
                    assert(fp.push(c).subrange(0, fcount + 1) =~= fp.push(c));
                    lemma_pow10_monotone(fcount as nat + 1, 25);
                    assert(pow10(fcount as nat + 1) == 10 * pow10(fcount as nat));
                }
                f25 = f25 * 10 + d as u128;
                fcount += 1;
            } else {
                proof {
                    assert(fp.push(c).subrange(0, 25) =~= fp.subrange(0, 25));
                }
            }
        } else {
        }
        i += 1;
    }
    let ghost a = int_digits(line@);
    let ghost b = frac_digits(line@);
    proof {
        assert(v@.subrange(0, len as int) =~= v@);
    }
    if dots > 1 || !any {
        return None;
    }
    if ival >= 100 {
        return Some(100);
    }
    let k = ival + 1;
    let h = round_up_scale(k);
    let mut padded: u128 = f25;
    let mut j: usize = fcount;
    proof {
        assert(pow10(0) == 1);
        assert((j - fcount) as nat == 0);
        assert(f25 * pow10(0) == f25);
    }
    while j < 25
        invariant
            fcount <= j <= 25,
            pow10(25) == 10000000000000000000000000,
            padded as nat == f25 * pow10((j - fcount) as nat),
            padded < pow10(j as nat),
        decreases 25 - j,
    {
        proof {
            lemma_pow10_monotone(j as nat + 1, 25);
            assert(pow10(j as nat + 1) == 10 * pow10(j as nat));
            assert(pow10((j + 1 - fcount) as nat) == 10 * pow10((j - fcount) as nat));
            assert(f25 * (10 * pow10((j - fcount) as nat)) == 10 * (f25 * pow10(
                (j - fcount) as nat,
            ))) by (nonlinear_arith);
        }
        padded = padded * 10;
        j += 1;
    }
    proof {
        lemma_round_test(b, round_up_exponent(k as nat));
        assert(padded * h < 10000000000000000000000000 * 33554432) by (nonlinear_arith)
            requires
                padded < 10000000000000000000000000nat,
                h <= 33554432,
        ;
    }
    let up = padded * h >= (h - 1) * 10000000000000000000000000u128;
    if up {
        Some(k as u32)
    } else {
        Some(ival as u32)
    }
}

proof fn lemma_digits_only(s: Seq<char>)
    requires
        all_digits(s),
    ensures
        dot_count(s) == 0,
        int_digits(s) == s,
        frac_digits(s) == Seq::<char>::empty(),
    decreases s.len(),
{
    if s.len() > 0 {
        let p = s.drop_last();
        assert(all_digits(p)) by {
            assert forall|i: int| 0 <= i < p.len() implies #[trigger] is_digit(p[i]) by {
                assert(p[i] == s[i]);
            }
        }
        lemma_digits_only(p);
        assert(is_digit(s[s.len() - 1]));
        assert(s.last() != '.');
        assert(p.push(s.last()) =~= s);
    }
}

/// Law: a line that is a whole number reads as that number, or as 100 when
/// it is larger.
pub proof fn law_whole_number_reading(s: Seq<char>)
    requires
        s.len() > 0,
        all_digits(s),
    ensures
        gpu_reading(s) == Some(if digits_value(s) <= 100 {
            digits_value(s)
        } else {
            100nat
        }),
{
    lemma_digits_only(s);
    lemma_pow_values();
    let v = digits_value(s);
    assert(digits_value(Seq::<char>::empty()) == 0);
    assert(pow10(0) == 1);
    if v < 100 {
        let h = pow2(round_up_exponent(v + 1));
        assert(h >= 2);
        assert(!(0 * h >= (h - 1) * 1));
    }
}

/// Law: a reading is the whole part of the number on the line or one more
/// (rounding a fraction just below the next whole number up), never above
/// 100; a fraction below one half never rounds up.
pub proof fn law_reading_near_whole_part(line: Seq<char>)
    ensures
        gpu_reading(line) matches Some(u) ==> ({
            let i = digits_value(int_digits(line));
            let f = digits_value(frac_digits(line));
            let d = frac_digits(line).len();
            &&& i >= 100 ==> u == 100
            &&& i < 100 ==> (u == i || u == i + 1)
            &&& (i < 100 && 2 * f < pow10(d)) ==> u == i
        }),
{
    let i = digits_value(int_digits(line));
    let f = digits_value(frac_digits(line));
    let d = frac_digits(line).len();
    if i < 100 && 2 * f < pow10(d) {
        lemma_pow_values();
        let e = round_up_exponent(i + 1);
        let h = pow2(e);
        assert(h >= 2);
        let p = pow10(d);
        assert(f * h < (h - 1) * p) by (nonlinear_arith)
            requires
                2 * f < p,
                h >= 2,
                f >= 0,
        ;
    }
}

} // verus!
