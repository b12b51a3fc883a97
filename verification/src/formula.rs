use vstd::prelude::*;
use vstd::string::*;

use crate::error::XrayDbError;
use crate::symbols::sp_symbol_lookup;
use crate::symbols::symbol_lookup;

verus! {

/// Lowest exponent a count may carry; beyond it the exponent
/// saturates.
pub const EXP10_MIN: i64 = -2_000_000_000;
/// Highest exponent a count may carry; beyond it the exponent
/// saturates.
pub const EXP10_MAX: i64 = 2_000_000_000;

/// A non-negative decimal stoichiometric count: the represented value
/// is `mantissa * 10^exp10`.
///
/// Counts are exact whenever they fit: up to 64 bits of mantissa
/// (about 19 significant digits) and an exponent within
/// `[EXP10_MIN, EXP10_MAX]`.  A value needing more is rounded toward
/// zero in decimal: trailing digits beyond the mantissa are dropped,
/// each dropped digit bumping the exponent, and an exponent outside
/// the range saturates at its bounds — so every count of the formula
/// grammar, and every accumulated or group-scaled count, has a value.
#[derive(Clone, Copy, Debug, PartialEq, Eq, Structural)]
pub struct Decimal {
    pub mantissa: u64,
    pub exp10: i32,
}

pub open spec fn pow10(e: nat) -> int
    decreases e,
{
    if e == 0 {
        1
    } else {
        10 * pow10((e - 1) as nat)
    }
}

pub proof fn lemma_pow10_pos(e: nat)
    ensures
        pow10(e) >= 1,
    decreases e,
{
    if e > 0 {
        lemma_pow10_pos((e - 1) as nat);
    }
}

pub proof fn lemma_pow10_adds(a: nat, b: nat)
    ensures
        pow10(a + b) == pow10(a) * pow10(b),
    decreases a,
{
    if a == 0 {
        assert(pow10(0 + b) == 1 * pow10(b));
    } else {
        lemma_pow10_adds((a - 1) as nat, b);
        assert(pow10((a - 1) as nat + b) == pow10((a - 1) as nat) * pow10(b));
        assert(pow10(a + b) == 10 * pow10((a + b - 1) as nat));
        assert((a + b - 1) as nat == (a - 1) as nat + b);
        assert(pow10(a) * pow10(b) == (10 * pow10((a - 1) as nat)) * pow10(b));
        assert((10 * pow10((a - 1) as nat)) * pow10(b) == 10 * (pow10((a - 1) as nat) * pow10(b)))
            by (nonlinear_arith);
    }
}

pub proof fn lemma_pow10_increases(a: nat, b: nat)
    requires
        a <= b,
    ensures
        pow10(a) <= pow10(b),
{
    lemma_pow10_adds(a, (b - a) as nat);
    lemma_pow10_pos(a);
    lemma_pow10_pos((b - a) as nat);
    assert(pow10(a) * pow10((b - a) as nat) >= pow10(a) * 1) by (nonlinear_arith)
        requires
            pow10((b - a) as nat) >= 1,
            pow10(a) >= 1,
    ;
}

proof fn lemma_pow10_19()
    ensures
        pow10(19) == 10_000_000_000_000_000_000,
{
    reveal_with_fuel(pow10, 20);
}

proof fn lemma_pow10_20()
    ensures
        pow10(20) == 100_000_000_000_000_000_000,
{
    reveal_with_fuel(pow10, 21);
}

proof fn lemma_pow10_39_exceeds_u128()
    ensures
        pow10(39) > u128::MAX,
{
    lemma_pow10_adds(20, 19);
    lemma_pow10_19();
    lemma_pow10_20();
}

/// The smallest number of trailing decimal digits to drop from `v` so
/// that the kept value fits a 64-bit mantissa.
pub open spec fn sp_shift_to_fit(v: int) -> nat
    decreases v,
{
    if v <= u64::MAX {
        0
    } else {
        1 + sp_shift_to_fit(v / 10)
    }
}

/// The value `v` keeps after dropping those digits.
pub open spec fn sp_fit_val(v: int) -> int {
    v / pow10(sp_shift_to_fit(v))
}

proof fn lemma_shift_to_fit_char(v: int, k: nat)
    requires
        v >= 0,
        v / pow10(k) <= u64::MAX,
        forall|j: nat| j < k ==> #[trigger] (v / pow10(j)) > u64::MAX,
    ensures
        sp_shift_to_fit(v) == k,
    decreases k,
{
    assert(pow10(0) == 1);
    if v <= u64::MAX {
        if k > 0 {
            assert(v / pow10(0) > u64::MAX);
        }
    } else {
        assert(v / pow10(0) == v);
        assert(k >= 1);
        assert forall|j: nat| j < (k - 1) as nat implies #[trigger] ((v / 10) / pow10(j))
            > u64::MAX by {
            lemma_pow10_pos(j);
            vstd::arithmetic::div_mod::lemma_div_denominator(v, 10, pow10(j));
            assert(10 * pow10(j) == pow10(j + 1));
            assert(v / pow10((j + 1) as nat) > u64::MAX);
        }
        lemma_pow10_pos((k - 1) as nat);
        vstd::arithmetic::div_mod::lemma_div_denominator(v, 10, pow10((k - 1) as nat));
        assert(10 * pow10((k - 1) as nat) == pow10(k));
        lemma_shift_to_fit_char(v / 10, (k - 1) as nat);
    }
}

/// Drop trailing decimal digits of a wide value until it fits a
/// mantissa, reporting the kept value and the number of dropped
/// digits.
fn fit_mantissa(v: u128) -> (r: (u64, u32))
    ensures
        r.0 == sp_fit_val(v as int),
        r.1 == sp_shift_to_fit(v as int),
{
    let mut cur: u128 = v;
    let mut k: u32 = 0;
    proof {
        assert(pow10(0) == 1);
    }
    while cur > u64::MAX as u128
        invariant
            cur == (v as int) / pow10(k as nat),
            forall|j: nat| j < k as nat ==> #[trigger] ((v as int) / pow10(j)) > u64::MAX,
        decreases cur,
    {
        proof {
            lemma_pow10_pos(k as nat);
            // cur > MAX forces v >= pow10(k) * cur, bounding k below 39.
            vstd::arithmetic::div_mod::lemma_fundamental_div_mod(v as int, pow10(k as nat));
            assert(pow10(k as nat) * cur <= v as int) by (nonlinear_arith)
                requires
                    v as int == pow10(k as nat) * ((v as int) / pow10(k as nat)) + (v as int) % pow10(
                        k as nat,
                    ),
                    cur == (v as int) / pow10(k as nat),
                    (v as int) % pow10(k as nat) >= 0,
            ;
            assert(pow10(k as nat) <= v as int) by (nonlinear_arith)
                requires
                    pow10(k as nat) * cur <= v as int,
                    cur >= 1,
                    pow10(k as nat) >= 1,
            ;
            if k as nat >= 39 {
                lemma_pow10_39_exceeds_u128();
                lemma_pow10_increases(39, k as nat);
                assert(false);
            }
            vstd::arithmetic::div_mod::lemma_div_denominator(v as int, pow10(k as nat), 10);
            assert(pow10(k as nat) * 10 == pow10((k + 1) as nat));
        }
        cur = cur / 10;
        k = k + 1;
    }
    proof {
        lemma_shift_to_fit_char(v as int, k as nat);
    }
    ((cur as u64), k)
}

/// The largest exponent step `j <= d` by which a mantissa can scale up
/// exactly.
pub open spec fn sp_upshift(m: u64, d: nat) -> nat
    decreases d,
{
    if d == 0 {
        0
    } else if m * pow10(d) <= u64::MAX {
        d
    } else {
        sp_upshift(m, (d - 1) as nat)
    }
}

proof fn lemma_upshift_char(m: u64, d: nat, j: nat)
    requires
        j <= d,
        m * pow10(j) <= u64::MAX,
        j == d || m * pow10(j + 1) > u64::MAX,
    ensures
        sp_upshift(m, d) == j,
    decreases d,
{
    if d == 0 {
    } else if m * pow10(d) <= u64::MAX {
        if j < d {
            lemma_pow10_adds((j + 1) as nat, (d - j - 1) as nat);
            lemma_pow10_pos((d - j - 1) as nat);
            lemma_pow10_pos((j + 1) as nat);
            assert(m * pow10(d) >= m * pow10((j + 1) as nat)) by (nonlinear_arith)
                requires
                    pow10(d) == pow10((j + 1) as nat) * pow10((d - j - 1) as nat),
                    pow10((d - j - 1) as nat) >= 1,
                    pow10((j + 1) as nat) >= 1,
                    m >= 0,
            ;
        }
    } else {
        lemma_upshift_char(m, (d - 1) as nat, j);
    }
}

/// Scale a mantissa up by as many exponent steps (at most `d`) as fit
/// exactly, reporting the scaled mantissa and the steps taken.
fn upshift(m: u64, d: u64) -> (r: (u64, u64))
    ensures
        r.1 == sp_upshift(m, d as nat),
        r.0 == m * pow10(r.1 as nat),
        r.1 <= d,
{
    proof {
        assert(pow10(0) == 1);
    }
    if m == 0 {
        proof {
            if d > 0 {
                lemma_pow10_pos(d as nat);
                assert(0 * pow10(d as nat) == 0);
            }
            assert(sp_upshift(0, d as nat) == d as nat);
        }
        return (0, d);
    }
    let mut cur = m;
    let mut j: u64 = 0;
    while j < d && cur <= u64::MAX / 10
        invariant
            m >= 1,
            0 <= j <= d,
            cur == m * pow10(j as nat),
        decreases d - j,
    {
        proof {
            assert(cur * 10 == m * pow10((j + 1) as nat)) by (nonlinear_arith)
                requires
                    cur == m * pow10(j as nat),
                    pow10((j + 1) as nat) == 10 * pow10(j as nat),
            ;
        }
        cur = cur * 10;
        j = j + 1;
    }
    proof {
        if j < d {
            assert(m * pow10((j + 1) as nat) == cur * 10) by (nonlinear_arith)
                requires
                    cur == m * pow10(j as nat),
                    pow10((j + 1) as nat) == 10 * pow10(j as nat),
            ;
        }
        lemma_upshift_char(m, d as nat, j as nat);
    }
    (cur, j)
}

/// Saturate an exponent at the representable bounds.
pub open spec fn sp_clamp_exp(e: int) -> int {
    if e < EXP10_MIN {
        EXP10_MIN as int
    } else if e > EXP10_MAX {
        EXP10_MAX as int
    } else {
        e
    }
}

fn clamp_exp(e: i128) -> (r: i32)
    ensures
        r == sp_clamp_exp(e as int),
{
    if e < EXP10_MIN as i128 {
        EXP10_MIN as i32
    } else if e > EXP10_MAX as i128 {
        EXP10_MAX as i32
    } else {
        e as i32
    }
}

/// `m / 10^k`.
fn div_pow10(m: u64, k: u64) -> (r: u64)
    ensures
        r == (m as int) / pow10(k as nat),
{
    if k >= 20 {
        proof {
            lemma_pow10_20();
            lemma_pow10_increases(20, k as nat);
            vstd::arithmetic::div_mod::lemma_basic_div(m as int, pow10(k as nat));
        }
        return 0;
    }
    let mut p: u64 = 1;
    let mut i: u64 = 0;
    while i < k
        invariant
            0 <= i <= k < 20,
            p == pow10(i as nat),
        decreases k - i,
    {
        proof {
            lemma_pow10_19();
            lemma_pow10_increases((i + 1) as nat, 19);
            lemma_pow10_pos(i as nat);
        }
        p = p * 10;
        i = i + 1;
    }
    proof {
        lemma_pow10_pos(k as nat);
    }
    m / p
}

impl Decimal {
    /// The count one, the implicit multiplier of a bare symbol or group.
    pub open spec fn sp_one() -> Decimal {
        Decimal { mantissa: 1, exp10: 0 }
    }

    pub fn one() -> (r: Decimal)
        ensures
            r == Decimal::sp_one(),
    {
        Decimal { mantissa: 1, exp10: 0 }
    }

    /// Product, rounded toward zero in decimal: digits of the exact
    /// product beyond the mantissa are dropped, each bumping the
    /// exponent, and the exponent saturates at the range bounds.
    /// Exact whenever the exact product is representable.
    pub open spec fn sp_mul_rounded(self, other: Decimal) -> Decimal {
        let p = self.mantissa * other.mantissa;
        Decimal {
            mantissa: sp_fit_val(p) as u64,
            exp10: sp_clamp_exp(self.exp10 + other.exp10 + sp_shift_to_fit(p)) as i32,
        }
    }

    /// Sum, with the addends aligned to the finest exponent at which
    /// the larger-exponent one still fits; digits of the other below
    /// that scale are dropped, and the exponent saturates at the range
    /// bounds.  Exact whenever the exact sum is representable at the
    /// smaller exponent.
    pub open spec fn sp_add_rounded(self, other: Decimal) -> Decimal {
        let (lo, hi) = if self.exp10 <= other.exp10 {
            (self, other)
        } else {
            (other, self)
        };
        let d = (hi.exp10 - lo.exp10) as nat;
        let j = sp_upshift(hi.mantissa, d);
        let hm = hi.mantissa * pow10(j);
        let rem = (d - j) as nat;
        let q = (lo.mantissa as int) / pow10(rem);
        let s = hm + q;
        Decimal {
            mantissa: sp_fit_val(s) as u64,
            exp10: sp_clamp_exp(lo.exp10 + rem + sp_shift_to_fit(s)) as i32,
        }
    }

    pub fn mul_rounded(self, other: Decimal) -> (r: Decimal)
        ensures
            r == self.sp_mul_rounded(other),
    {
        proof {
            assert((self.mantissa as int) * (other.mantissa as int) <= u128::MAX)
                by (nonlinear_arith)
                requires
                    self.mantissa <= u64::MAX,
                    other.mantissa <= u64::MAX,
            ;
        }
        let p = (self.mantissa as u128) * (other.mantissa as u128);
        let (m, k) = fit_mantissa(p);
        let e = clamp_exp((self.exp10 as i128) + (other.exp10 as i128) + (k as i128));
        Decimal { mantissa: m, exp10: e }
    }

    pub fn add_rounded(self, other: Decimal) -> (r: Decimal)
        ensures
            r == self.sp_add_rounded(other),
    {
        let (lo, hi) = if self.exp10 <= other.exp10 {
            (self, other)
        } else {
            (other, self)
        };
        let d = ((hi.exp10 as i64) - (lo.exp10 as i64)) as u64;
        let (hm, j) = upshift(hi.mantissa, d);
        let rem: u64 = d - j;
        let q = div_pow10(lo.mantissa, rem);
        let s = (hm as u128) + (q as u128);
        let (m, k) = fit_mantissa(s);
        let e = clamp_exp((lo.exp10 as i128) + (rem as i128) + (k as i128));
        Decimal { mantissa: m, exp10: e }
    }
}

pub open spec fn sp_is_digit(c: char) -> bool {
    48 <= c as u32 <= 57
}

pub open spec fn sp_digit_val(c: char) -> int {
    c as u32 - 48
}

pub open spec fn sp_is_upper(c: char) -> bool {
    65 <= c as u32 <= 90
}

pub open spec fn sp_is_lower(c: char) -> bool {
    97 <= c as u32 <= 122
}

pub(crate) fn is_digit_ch(c: char) -> (b: bool)
    ensures
        b == sp_is_digit(c),
{
    let n = c as u32;
    48 <= n && n <= 57
}

pub(crate) fn is_upper_ch(c: char) -> (b: bool)
    ensures
        b == sp_is_upper(c),
{
    let n = c as u32;
    65 <= n && n <= 90
}

pub(crate) fn is_lower_ch(c: char) -> (b: bool)
    ensures
        b == sp_is_lower(c),
{
    let n = c as u32;
    97 <= n && n <= 122
}

/// First position at or after `pos` that does not hold a decimal digit.
pub open spec fn sp_digits_end(t: Seq<char>, pos: int) -> int
    decreases t.len() - pos,
{
    if pos < t.len() && sp_is_digit(t[pos]) {
        sp_digits_end(t, pos + 1)
    } else {
        pos
    }
}

/// The value of the digit run `t[pos..end)`, zero when empty.
pub open spec fn sp_digits_val(t: Seq<char>, pos: int, end: int) -> int
    decreases end - pos,
{
    if pos < end {
        sp_digits_val(t, pos, end - 1) * 10 + sp_digit_val(t[end - 1])
    } else {
        0
    }
}

pub proof fn lemma_digits_val_nonneg(t: Seq<char>, pos: int, end: int)
    requires
        forall|j: int| pos <= j < end ==> sp_is_digit(t[j]),
    ensures
        sp_digits_val(t, pos, end) >= 0,
    decreases end - pos,
{
    if pos < end {
        lemma_digits_val_nonneg(t, pos, end - 1);
        assert(sp_digits_val(t, pos, end - 1) * 10 >= 0);
    }
}

fn digits_end(t: &Vec<char>, pos: usize) -> (e: usize)
    requires
        pos <= t@.len(),
    ensures
        e == sp_digits_end(t@, pos as int),
        pos <= e <= t@.len(),
        forall|j: int| pos <= j < e ==> sp_is_digit(t@[j]),
        e < t@.len() ==> !sp_is_digit(t@[e as int]),
{
    let mut i: usize = pos;
    while i < t.len() && is_digit_ch(t[i])
        invariant
            pos <= i <= t@.len(),
            sp_digits_end(t@, pos as int) == sp_digits_end(t@, i as int),
            forall|j: int| pos <= j < i ==> sp_is_digit(t@[j]),
        decreases t@.len() - i,
    {
        i = i + 1;
    }
    i
}

/// Compute the value of the digit run `t[pos..end)`, reporting only
/// whether it exceeds `cap` when it does.
pub(crate) fn digits_val_capped(t: &Vec<char>, pos: usize, end: usize, cap: u128) -> (r: Option<
    u128,
>)
    requires
        pos <= end <= t@.len(),
        forall|j: int| pos <= j < end ==> sp_is_digit(t@[j]),
        cap <= (u128::MAX - 9) / 10,
    ensures
        match r {
            Some(v) => sp_digits_val(t@, pos as int, end as int) == v && v <= cap,
            None => sp_digits_val(t@, pos as int, end as int) > cap,
        },
{
    let mut acc: u128 = 0;
    let mut i: usize = pos;
    while i < end
        invariant
            pos <= i <= end <= t@.len(),
            forall|j: int| pos <= j < end ==> sp_is_digit(t@[j]),
            cap <= (u128::MAX - 9) / 10,
            sp_digits_val(t@, pos as int, i as int) <= cap ==> acc == sp_digits_val(
                t@,
                pos as int,
                i as int,
            ),
            sp_digits_val(t@, pos as int, i as int) > cap ==> cap < acc,
            acc <= 10 * cap + 9,
        decreases end - i,
    {
        proof {
            lemma_digits_val_nonneg(t@, pos as int, i as int);
            lemma_digits_val_nonneg(t@, pos as int, i + 1);
        }
        let d = (t[i] as u32 as u128) - 48;
        if acc > cap {
            acc = cap + 1;
        } else {
            acc = acc * 10 + d;
        }
        i = i + 1;
    }
    if acc <= cap {
        Some(acc)
    } else {
        None
    }
}

/// A longer digit prefix never has a smaller value.
proof fn lemma_digits_val_mono(t: Seq<char>, pos: int, a: int, b: int)
    requires
        pos <= a <= b,
        forall|x: int| pos <= x < b ==> sp_is_digit(#[trigger] t[x]),
    ensures
        sp_digits_val(t, pos, a) <= sp_digits_val(t, pos, b),
    decreases b - a,
{
    if a < b {
        lemma_digits_val_mono(t, pos, a, b - 1);
        lemma_digits_val_nonneg(t, pos, b - 1);
    }
}

/// The end of the longest digit-run prefix whose value fits a 64-bit
/// mantissa.
pub open spec fn sp_fit_prefix_end(t: Seq<char>, pos: int, end: int) -> int
    decreases end - pos,
{
    if sp_digits_val(t, pos, end) <= u64::MAX {
        end
    } else {
        sp_fit_prefix_end(t, pos, end - 1)
    }
}

proof fn lemma_fit_prefix_char(t: Seq<char>, pos: int, end: int, e: int)
    requires
        pos <= e <= end,
        forall|x: int| pos <= x < end ==> sp_is_digit(#[trigger] t[x]),
        sp_digits_val(t, pos, e) <= u64::MAX,
        e == end || sp_digits_val(t, pos, e + 1) > u64::MAX,
    ensures
        sp_fit_prefix_end(t, pos, end) == e,
    decreases end - e,
{
    if sp_digits_val(t, pos, end) <= u64::MAX {
        if e < end {
            lemma_digits_val_mono(t, pos, e + 1, end);
        }
    } else {
        lemma_fit_prefix_char(t, pos, end - 1, e);
    }
}

/// The kept mantissa prefix of a digit run: its value and where it
/// ends; the digits after it are dropped by the rounding lexer.
fn digits_fit(t: &Vec<char>, pos: usize, end: usize) -> (r: (u64, usize))
    requires
        pos <= end <= t@.len(),
        forall|x: int| pos <= x < end ==> sp_is_digit(#[trigger] t@[x]),
    ensures
        r.1 == sp_fit_prefix_end(t@, pos as int, end as int),
        pos <= r.1 <= end,
        r.0 == sp_digits_val(t@, pos as int, r.1 as int),
{
    let mut acc: u64 = 0;
    let mut i: usize = pos;
    while i < end
        invariant
            pos <= i <= end <= t@.len(),
            forall|x: int| pos <= x < end ==> sp_is_digit(#[trigger] t@[x]),
            acc == sp_digits_val(t@, pos as int, i as int),
        decreases end - i,
    {
        let dv = (t[i] as u32 as u64) - 48;
        proof {
            lemma_digits_val_nonneg(t@, pos as int, i as int);
        }
        if acc > (u64::MAX - dv) / 10 {
            proof {
                assert(10 * ((u64::MAX - dv) / 10) + 9 >= u64::MAX - dv);
                assert(sp_digits_val(t@, pos as int, i + 1) > u64::MAX);
                lemma_fit_prefix_char(t@, pos as int, end as int, i as int);
            }
            return (acc, i);
        }
        acc = acc * 10 + dv;
        i = i + 1;
    }
    proof {
        lemma_fit_prefix_char(t@, pos as int, end as int, end as int);
    }
    (acc, end)
}

/// Exponent digits beyond this magnitude saturate the exponent
/// whatever the rest of the count holds.
const EXP_SCAN_CAP: u128 = 100_000_000_000;

/// Lex a decimal count at `pos`: digits, an optional fraction, and an
/// optional signed exponent.  Yields the count — rounded toward zero
/// into the representable `Decimal` range when it does not fit — and
/// the position just past the token.  `None` only on a malformed
/// token: an exponent marker with no digits.
pub open spec fn sp_lex_number(t: Seq<char>, pos: int) -> Option<(Decimal, int)> {
    let ie = sp_digits_end(t, pos);
    let has_dot = ie < t.len() && t[ie] == '.';
    let fs = if has_dot {
        ie + 1
    } else {
        ie
    };
    let fe = if has_dot {
        sp_digits_end(t, ie + 1)
    } else {
        ie
    };
    let ife = sp_fit_prefix_end(t, pos, ie);
    let ffe = sp_fit_prefix_end(t, fs, fe);
    let ipart = Decimal {
        mantissa: sp_digits_val(t, pos, ife) as u64,
        exp10: sp_clamp_exp(ie - ife) as i32,
    };
    let fpart = Decimal {
        mantissa: sp_digits_val(t, fs, ffe) as u64,
        exp10: sp_clamp_exp(-(ffe - fs)) as i32,
    };
    let base = ipart.sp_add_rounded(fpart);
    let has_exp = fe < t.len() && (t[fe] == 'e' || t[fe] == 'E');
    if has_exp {
        let neg = fe + 1 < t.len() && t[fe + 1] == '-';
        let signed = fe + 1 < t.len() && (t[fe + 1] == '-' || t[fe + 1] == '+');
        let ds = if signed {
            fe + 2
        } else {
            fe + 1
        };
        let de = sp_digits_end(t, ds);
        if de == ds {
            None
        } else {
            let ev = sp_digits_val(t, ds, de);
            let e = sp_clamp_exp(base.exp10 + (if neg {
                -ev
            } else {
                ev
            }));
            Some((Decimal { mantissa: base.mantissa, exp10: e as i32 }, de))
        }
    } else {
        Some((base, fe))
    }
}

fn lex_number(t: &Vec<char>, pos: usize) -> (r: Option<(Decimal, usize)>)
    requires
        pos <= t@.len(),
    ensures
        match r {
            Some(v) => sp_lex_number(t@, pos as int) == Some((v.0, v.1 as int)) && pos <= v.1
                <= t@.len(),
            None => sp_lex_number(t@, pos as int) is None,
        },
{
    let ie = digits_end(t, pos);
    let has_dot = ie < t.len() && t[ie] == '.';
    let fs = if has_dot {
        ie + 1
    } else {
        ie
    };
    let fe = if has_dot {
        digits_end(t, ie + 1)
    } else {
        ie
    };
    let (mi, ife) = digits_fit(t, pos, ie);
    let (mf, ffe) = digits_fit(t, fs, fe);
    let ipart = Decimal { mantissa: mi, exp10: clamp_exp((ie - ife) as i128) };
    let fpart = Decimal { mantissa: mf, exp10: clamp_exp(-((ffe - fs) as i128)) };
    let base = ipart.add_rounded(fpart);
    let has_exp = fe < t.len() && (t[fe] == 'e' || t[fe] == 'E');
    if has_exp {
        let signed = fe + 1 < t.len() && (t[fe + 1] == '-' || t[fe + 1] == '+');
        let neg = fe + 1 < t.len() && t[fe + 1] == '-';
        let ds = if signed {
            fe + 2
        } else {
            fe + 1
        };
        if ds > t.len() {
            // An exponent marker at the very end has no digits.
            return None;
        }
        let de = digits_end(t, ds);
        if de == ds {
            return None;
        }
        let e: i32;
        match digits_val_capped(t, ds, de, EXP_SCAN_CAP) {
            Some(ev) => {
                let ev128 = ev as i128;
                e = clamp_exp((base.exp10 as i128) + (if neg {
                    -ev128
                } else {
                    ev128
                }));
            },
            None => {
                // The exponent digits alone exceed every representable
                // magnitude: saturate without evaluating them.
                proof {
                    let ev_true = sp_digits_val(t@, ds as int, de as int);
                    assert(ev_true > EXP_SCAN_CAP);
                    assert(EXP10_MIN <= base.exp10 <= EXP10_MAX);
                    if neg {
                        assert(sp_clamp_exp(base.exp10 + -ev_true) == EXP10_MIN as int);
                    } else {
                        assert(sp_clamp_exp(base.exp10 + ev_true) == EXP10_MAX as int);
                    }
                }
                e = if neg {
                    EXP10_MIN as i32
                } else {
                    EXP10_MAX as i32
                };
            },
        }
        Some((Decimal { mantissa: base.mantissa, exp10: e }, de))
    } else {
        Some((base, fe))
    }
}

/// First position at or after `pos` that does not hold a lowercase
/// ASCII letter.
pub open spec fn sp_lowers_end(t: Seq<char>, pos: int) -> int
    decreases t.len() - pos,
{
    if pos < t.len() && sp_is_lower(t[pos]) {
        sp_lowers_end(t, pos + 1)
    } else {
        pos
    }
}

fn lowers_end(t: &Vec<char>, pos: usize) -> (e: usize)
    requires
        pos <= t@.len(),
    ensures
        e == sp_lowers_end(t@, pos as int),
        pos <= e <= t@.len(),
{
    let mut i: usize = pos;
    while i < t.len() && is_lower_ch(t[i])
        invariant
            pos <= i <= t@.len(),
            sp_lowers_end(t@, pos as int) == sp_lowers_end(t@, i as int),
        decreases t@.len() - i,
    {
        i = i + 1;
    }
    i
}

/// The character views of a composition's entries.
pub open spec fn sp_vpairs(v: Seq<(String, Decimal)>) -> Seq<(Seq<char>, Decimal)> {
    v.map_values(|p: (String, Decimal)| (p.0@, p.1))
}

/// First entry holding `sym`, if any.
pub open spec fn sp_find_sym(c: Seq<(Seq<char>, Decimal)>, sym: Seq<char>) -> Option<int>
    decreases c.len(),
{
    if c.len() == 0 {
        None
    } else if c[0].0 == sym {
        Some(0)
    } else {
        match sp_find_sym(c.drop_first(), sym) {
            None => None,
            Some(i) => Some(i + 1),
        }
    }
}

pub proof fn lemma_find_sym(c: Seq<(Seq<char>, Decimal)>, sym: Seq<char>)
    ensures
        match sp_find_sym(c, sym) {
            None => forall|j: int| 0 <= j < c.len() ==> c[j].0 != sym,
            Some(i) => 0 <= i < c.len() && c[i].0 == sym && (forall|j: int|
                0 <= j < i ==> c[j].0 != sym),
        },
    decreases c.len(),
{
    if c.len() > 0 && c[0].0 != sym {
        lemma_find_sym(c.drop_first(), sym);
        match sp_find_sym(c.drop_first(), sym) {
            None => {
                assert forall|j: int| 0 <= j < c.len() implies c[j].0 != sym by {
                    if j > 0 {
                        assert(c.drop_first()[j - 1] == c[j]);
                    }
                }
            },
            Some(i) => {
                assert(c.drop_first()[i] == c[i + 1]);
                assert forall|j: int| 0 <= j < i + 1 implies c[j].0 != sym by {
                    if j > 0 {
                        assert(c.drop_first()[j - 1] == c[j]);
                    }
                }
            },
        }
    }
}

/// Add `sym` with count `d` to a composition: merge (with rounded
/// addition) into the first entry already holding `sym`, else append.
pub open spec fn sp_comp_add(c: Seq<(Seq<char>, Decimal)>, sym: Seq<char>, d: Decimal) -> Seq<
    (Seq<char>, Decimal),
> {
    match sp_find_sym(c, sym) {
        None => c.push((sym, d)),
        Some(i) => c.update(i, (sym, c[i].1.sp_add_rounded(d))),
    }
}

/// Multiply every count by `m`, each with rounded multiplication.
pub open spec fn sp_comp_scale(c: Seq<(Seq<char>, Decimal)>, m: Decimal) -> Seq<
    (Seq<char>, Decimal),
> {
    Seq::new(c.len(), |j: int| (c[j].0, c[j].1.sp_mul_rounded(m)))
}

/// Fold the entries of `b` into `a`, in order.
pub open spec fn sp_comp_merge(a: Seq<(Seq<char>, Decimal)>, b: Seq<(Seq<char>, Decimal)>) -> Seq<
    (Seq<char>, Decimal),
>
    decreases b.len(),
{
    if b.len() == 0 {
        a
    } else {
        sp_comp_merge(sp_comp_add(a, b[0].0, b[0].1), b.drop_first())
    }
}

/// No element symbol occurs twice.
pub open spec fn sp_distinct_keys(c: Seq<(Seq<char>, Decimal)>) -> bool {
    forall|i: int, j: int| 0 <= i < j < c.len() ==> (#[trigger] c[i]).0 != (#[trigger] c[j]).0
}

fn comp_add(a: &Vec<(String, Decimal)>, sym: String, d: Decimal) -> (r: Vec<(String, Decimal)>)
    ensures
        sp_comp_add(sp_vpairs(a@), sym@, d) == sp_vpairs(r@),
{
    let n = a.len();
    let mut i: usize = 0;
    while i < n
        invariant
            0 <= i <= n == a@.len(),
            forall|j: int| 0 <= j < i ==> sp_vpairs(a@)[j].0 != sym@,
        decreases n - i,
    {
        if a[i].0 == sym {
            proof {
                lemma_find_sym(sp_vpairs(a@), sym@);
                assert(sp_vpairs(a@)[i as int].0 == sym@);
                assert(sp_find_sym(sp_vpairs(a@), sym@) == Some(i as int));
            }
            let nd = a[i].1.add_rounded(d);
            let mut out: Vec<(String, Decimal)> = Vec::new();
            let mut j: usize = 0;
            while j < n
                invariant
                    0 <= j <= n == a@.len(),
                    i < n,
                    out@.len() == j,
                    forall|k: int|
                        0 <= k < j ==> (#[trigger] out@[k]).0 == a@[k].0 && out@[k].1 == (
                        if k == i {
                            nd
                        } else {
                            a@[k].1
                        }),
                decreases n - j,
            {
                if j == i {
                    out.push((a[j].0.clone(), nd));
                } else {
                    out.push((a[j].0.clone(), a[j].1));
                }
                j = j + 1;
            }
            proof {
                assert(sp_vpairs(out@) =~= sp_vpairs(a@).update(i as int, (sym@, nd)));
            }
            return out;
        }
        i = i + 1;
    }
    proof {
        lemma_find_sym(sp_vpairs(a@), sym@);
        assert(sp_find_sym(sp_vpairs(a@), sym@) is None);
    }
    let mut out: Vec<(String, Decimal)> = Vec::new();
    let mut j: usize = 0;
    while j < n
        invariant
            0 <= j <= n == a@.len(),
            out@.len() == j,
            forall|k: int| 0 <= k < j ==> #[trigger] out@[k] == a@[k],
        decreases n - j,
    {
        out.push((a[j].0.clone(), a[j].1));
        j = j + 1;
    }
    out.push((sym, d));
    proof {
        assert(sp_vpairs(out@) =~= sp_vpairs(a@).push((sym@, d)));
    }
    out
}

fn comp_scale(a: &Vec<(String, Decimal)>, m: Decimal) -> (r: Vec<(String, Decimal)>)
    ensures
        sp_comp_scale(sp_vpairs(a@), m) == sp_vpairs(r@),
{
    let n = a.len();
    let mut out: Vec<(String, Decimal)> = Vec::new();
    let mut i: usize = 0;
    while i < n
        invariant
            0 <= i <= n == a@.len(),
            out@.len() == i,
            forall|k: int|
                0 <= k < i ==> (#[trigger] out@[k]).0 == a@[k].0 && out@[k].1
                    == a@[k].1.sp_mul_rounded(m),
        decreases n - i,
    {
        let nd = a[i].1.mul_rounded(m);
        out.push((a[i].0.clone(), nd));
        i = i + 1;
    }
    proof {
        assert(sp_vpairs(out@) =~= Seq::new(
            sp_vpairs(a@).len(),
            |j: int| (sp_vpairs(a@)[j].0, sp_vpairs(a@)[j].1.sp_mul_rounded(m)),
        ));
    }
    out
}

fn comp_clone(a: &Vec<(String, Decimal)>) -> (r: Vec<(String, Decimal)>)
    ensures
        r@ == a@,
{
    let mut out: Vec<(String, Decimal)> = Vec::new();
    let mut j: usize = 0;
    while j < a.len()
        invariant
            0 <= j <= a@.len(),
            out@.len() == j,
            forall|k: int| 0 <= k < j ==> #[trigger] out@[k] == a@[k],
        decreases a@.len() - j,
    {
        out.push((a[j].0.clone(), a[j].1));
        j = j + 1;
    }
    proof {
        assert(out@ =~= a@);
    }
    out
}

fn comp_merge(a: &Vec<(String, Decimal)>, b: &Vec<(String, Decimal)>) -> (r: Vec<
    (String, Decimal),
>)
    ensures
        sp_comp_merge(sp_vpairs(a@), sp_vpairs(b@)) == sp_vpairs(r@),
{
    let mut acc = comp_clone(a);
    proof {
        assert(sp_vpairs(b@).skip(0) =~= sp_vpairs(b@));
    }
    let mut i: usize = 0;
    while i < b.len()
        invariant
            0 <= i <= b@.len(),
            sp_comp_merge(sp_vpairs(a@), sp_vpairs(b@)) == sp_comp_merge(
                sp_vpairs(acc@),
                sp_vpairs(b@).skip(i as int),
            ),
        decreases b@.len() - i,
    {
        proof {
            assert(sp_vpairs(b@).skip(i as int).len() == b@.len() - i);
            assert(sp_vpairs(b@).skip(i as int)[0] == sp_vpairs(b@)[i as int]);
            assert(sp_vpairs(b@).skip(i as int).drop_first() =~= sp_vpairs(b@).skip(i + 1));
        }
        let sym = b[i].0.clone();
        let d = b[i].1;
        acc = comp_add(&acc, sym, d);
        i = i + 1;
    }
    proof {
        assert(sp_vpairs(b@).skip(b@.len() as int) =~= Seq::<(Seq<char>, Decimal)>::empty());
    }
    acc
}

/// Parse a run of items (`symbol count?` or `'(' items ')' count?`)
/// starting at `pos`, stopping at the end of input, at `)`, or at a
/// stray count.  Yields the merged composition and the stop position;
/// `None` on an unknown symbol, an unrecognized character, or a
/// malformed count.
///
/// The two `min`/`max`-style clamps on resumption positions keep the
/// recursion measure in range; parsing positions never exceed those
/// bounds, so the clamps do not change the parsed language.
pub open spec fn sp_parse_items(t: Seq<char>, pos: int) -> Option<(Seq<(Seq<char>, Decimal)>, int)>
    decreases t.len() - pos,
{
    if pos < 0 || pos >= t.len() {
        Some((Seq::empty(), pos))
    } else if sp_is_upper(t[pos]) {
        let ne = sp_lowers_end(t, pos + 1);
        match sp_symbol_lookup(t.subrange(pos, ne)) {
            None => None,
            Some(canon) => {
                let cntres = if ne < t.len() && (sp_is_digit(t[ne]) || t[ne] == '.') {
                    sp_lex_number(t, ne)
                } else {
                    Some((Decimal::sp_one(), ne))
                };
                match cntres {
                    None => None,
                    Some((cnt, after0)) => {
                        let after1 = if after0 < pos + 1 {
                            pos + 1
                        } else {
                            after0
                        };
                        let after = if after1 > t.len() {
                            t.len() as int
                        } else {
                            after1
                        };
                        match sp_parse_items(t, after) {
                            None => None,
                            Some((rest, end)) => Some(
                                (sp_comp_merge(seq![(canon, cnt)], rest), end),
                            ),
                        }
                    },
                }
            },
        }
    } else if t[pos] == '(' {
        match sp_parse_items(t, pos + 1) {
            None => None,
            Some((inner, ie0)) => {
                let ie = if ie0 < pos + 1 {
                    pos + 1
                } else {
                    ie0
                };
                if ie < t.len() && t[ie] == ')' {
                    let cntres = if ie + 1 < t.len() && (sp_is_digit(t[ie + 1]) || t[ie + 1]
                        == '.') {
                        sp_lex_number(t, ie + 1)
                    } else {
                        Some((Decimal::sp_one(), ie + 1))
                    };
                    match cntres {
                        None => None,
                        Some((cnt, after0)) => {
                            let after1 = if after0 < ie + 1 {
                                ie + 1
                            } else {
                                after0
                            };
                            let after = if after1 > t.len() {
                                t.len() as int
                            } else {
                                after1
                            };
                            match sp_parse_items(t, after) {
                                None => None,
                                Some((rest, end)) => Some(
                                    (sp_comp_merge(sp_comp_scale(inner, cnt), rest), end),
                                ),
                            }
                        },
                    }
                } else {
                    None
                }
            },
        }
    } else if sp_is_digit(t[pos]) || t[pos] == '.' || t[pos] == ')' {
        Some((Seq::empty(), pos))
    } else {
        None
    }
}

fn invalid(msg: &str) -> (e: XrayDbError)
    ensures
        e is InvalidFormula,
{
    XrayDbError::InvalidFormula(String::from_str(msg))
}

fn parse_items(t: &Vec<char>, pos: usize) -> (r: Result<(Vec<(String, Decimal)>, usize), XrayDbError>)
    requires
        pos <= t@.len(),
    ensures
        match r {
            Ok(v) => sp_parse_items(t@, pos as int) == Some((sp_vpairs(v.0@), v.1 as int)) && pos
                <= v.1 <= t@.len(),
            Err(e) => sp_parse_items(t@, pos as int) is None && e is InvalidFormula,
        },
    decreases t@.len() - pos,
{
    if pos >= t.len() {
        let out: Vec<(String, Decimal)> = Vec::new();
        proof {
            assert(sp_vpairs(out@) =~= Seq::<(Seq<char>, Decimal)>::empty());
        }
        return Ok((out, pos));
    }
    let c = t[pos];
    if is_upper_ch(c) {
        let ne = lowers_end(t, pos + 1);
        match symbol_lookup(t, pos, ne) {
            None => Err(invalid("unknown element symbol")),
            Some(canon) => {
                let has_count = ne < t.len() && (is_digit_ch(t[ne]) || t[ne] == '.');
                let (cnt, after) = if has_count {
                    match lex_number(t, ne) {
                        None => {
                            return Err(invalid("malformed count"));
                        },
                        Some(p) => p,
                    }
                } else {
                    (Decimal::one(), ne)
                };
                assert(pos + 1 <= after <= t@.len());
                match parse_items(t, after) {
                    Err(e) => Err(e),
                    Ok((rest, end)) => {
                        let mut single: Vec<(String, Decimal)> = Vec::new();
                        single.push((String::from_str(canon), cnt));
                        proof {
                            assert(sp_vpairs(single@) =~= seq![(canon@, cnt)]);
                        }
                        Ok((comp_merge(&single, &rest), end))
                    },
                }
            },
        }
    } else if c == '(' {
        match parse_items(t, pos + 1) {
            Err(e) => Err(e),
            Ok((inner, ie)) => {
                assert(pos + 1 <= ie <= t@.len());
                if ie < t.len() && t[ie] == ')' {
                    let has_count = ie + 1 < t.len() && (is_digit_ch(t[ie + 1]) || t[ie + 1]
                        == '.');
                    let (cnt, after) = if has_count {
                        match lex_number(t, ie + 1) {
                            None => {
                                return Err(invalid("malformed count"));
                            },
                            Some(p) => p,
                        }
                    } else {
                        (Decimal::one(), ie + 1)
                    };
                    assert(ie + 1 <= after <= t@.len());
                    let scaled = comp_scale(&inner, cnt);
                    match parse_items(t, after) {
                        Err(e) => Err(e),
                        Ok((rest, end)) => Ok((comp_merge(&scaled, &rest), end)),
                    }
                } else {
                    Err(invalid("expected closing parenthesis"))
                }
            },
        }
    } else if is_digit_ch(c) || c == '.' || c == ')' {
        let out: Vec<(String, Decimal)> = Vec::new();
        proof {
            assert(sp_vpairs(out@) =~= Seq::<(Seq<char>, Decimal)>::empty());
        }
        Ok((out, pos))
    } else {
        Err(invalid("unrecognized character"))
    }
}

/// The formula text with ASCII spaces removed; stripping happens
/// before lexing, so digits separated only by spaces join into one
/// count.
pub open spec fn sp_strip(s: Seq<char>) -> Seq<char>
    decreases s.len(),
{
    if s.len() == 0 {
        Seq::empty()
    } else {
        let rest = sp_strip(s.drop_last());
        if s.last() == ' ' {
            rest
        } else {
            rest.push(s.last())
        }
    }
}

pub(crate) fn chars_of(s: &str) -> (v: Vec<char>)
    ensures
        v@ == s@,
{
    let n = s.unicode_len();
    let mut v: Vec<char> = Vec::new();
    let mut i: usize = 0;
    while i < n
        invariant
            0 <= i <= n == s@.len(),
            v@.len() == i,
            forall|j: int| 0 <= j < i ==> v@[j] == s@[j],
        decreases n - i,
    {
        v.push(s.get_char(i));
        i = i + 1;
    }
    proof {
        assert(v@ =~= s@);
    }
    v
}

fn strip_spaces(v: &Vec<char>) -> (r: Vec<char>)
    ensures
        r@ == sp_strip(v@),
{
    let mut out: Vec<char> = Vec::new();
    let mut i: usize = 0;
    while i < v.len()
        invariant
            0 <= i <= v@.len(),
            out@ == sp_strip(v@.subrange(0, i as int)),
        decreases v@.len() - i,
    {
        proof {
            assert(v@.subrange(0, i + 1).drop_last() =~= v@.subrange(0, i as int));
            assert(v@.subrange(0, i + 1).last() == v@[i as int]);
        }
        if v[i] != ' ' {
            out.push(v[i]);
        }
        i = i + 1;
    }
    proof {
        assert(v@.subrange(0, v@.len() as int) =~= v@);
    }
    out
}

/// What a formula denotes: symbol/count pairs in first-occurrence
/// order, or nothing when the formula is rejected.
pub open spec fn sp_chemparse(s: Seq<char>) -> Option<Seq<(Seq<char>, Decimal)>> {
    let t = sp_strip(s);
    match sp_parse_items(t, 0) {
        None => None,
        Some((comp, end)) => if end == t.len() {
            Some(comp)
        } else {
            None
        },
    }
}

/// A parsed chemical composition: canonical element symbols with their
/// accumulated counts, in first-occurrence order, each symbol held once.
pub struct Composition {
    pub parts: Vec<(String, Decimal)>,
}

/// The count held for `sym`, if any.
pub open spec fn sp_count_of(c: Seq<(Seq<char>, Decimal)>, sym: Seq<char>) -> Option<Decimal> {
    match sp_find_sym(c, sym) {
        None => None,
        Some(i) => Some(c[i].1),
    }
}

impl Composition {
    pub open spec fn pairs(&self) -> Seq<(Seq<char>, Decimal)> {
        sp_vpairs(self.parts@)
    }

    pub fn count_of(&self, symbol: &str) -> (r: Option<Decimal>)
        ensures
            r == sp_count_of(self.pairs(), symbol@),
    {
        let key = String::from_str(symbol);
        let n = self.parts.len();
        let mut i: usize = 0;
        while i < n
            invariant
                0 <= i <= n == self.parts@.len(),
                key@ == symbol@,
                forall|j: int| 0 <= j < i ==> self.pairs()[j].0 != symbol@,
            decreases n - i,
        {
            if self.parts[i].0 == key {
                proof {
                    assert(self.pairs()[i as int].0 == symbol@);
                    lemma_find_sym(self.pairs(), symbol@);
                    assert(sp_find_sym(self.pairs(), symbol@) == Some(i as int));
                }
                return Some(self.parts[i].1);
            }
            i = i + 1;
        }
        proof {
            lemma_find_sym(self.pairs(), symbol@);
        }
        None
    }

    /// Number of distinct element symbols held.
    pub fn len(&self) -> (n: usize)
        ensures
            n == self.pairs().len(),
    {
        self.parts.len()
    }
}

/// Parse a chemical formula into element counts.
///
/// Accepts sequences of `symbol count?` and parenthesized groups with
/// an optional trailing multiplier; counts are decimal numbers in
/// integer, fractional, or scientific form, an absent count meaning
/// one, and a count may begin with a bare `.`; ASCII spaces are
/// stripped first; `D` stands for `H`.  A group's multiplier scales
/// every count inside it, and repeated symbols accumulate.
///
/// Rejected with `InvalidFormula`, and only then: an unknown or
/// lowercase symbol token, an unmatched parenthesis, an unrecognized
/// character, a malformed count (an exponent marker with no digits),
/// and trailing input.  A count of any magnitude is accepted: one
/// outside the exact [`Decimal`] range is rounded toward zero and its
/// exponent saturated, as that type documents.
pub fn chemparse(formula: &str) -> (r: Result<Composition, XrayDbError>)
    ensures
        r is Ok ==> sp_chemparse(formula@) == Some(r->Ok_0.pairs()),
        r is Err ==> sp_chemparse(formula@) is None && r->Err_0 is InvalidFormula,
{
    let raw = chars_of(formula);
    let t = strip_spaces(&raw);
    match parse_items(&t, 0) {
        Err(e) => Err(e),
        Ok((comp, end)) => {
            if end == t.len() {
                Ok(Composition { parts: comp })
            } else {
                Err(invalid("unexpected trailing input"))
            }
        },
    }
}

/// Whether `chemparse` accepts the formula.
pub fn validate_formula(formula: &str) -> (r: bool)
    ensures
        r == (sp_chemparse(formula@) is Some),
{
    match chemparse(formula) {
        Ok(_) => true,
        Err(_) => false,
    }
}

} // verus!
