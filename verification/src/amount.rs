use vstd::prelude::*;

verus! {

/// Powers of ten, the scaling base of every decimal amount here.
pub open spec fn pow10(e: nat) -> int
    decreases e,
{
    if e == 0 {
        1
    } else {
        10 * pow10((e - 1) as nat)
    }
}

pub proof fn lemma_pow10_pos(e: nat)
    ensures
        pow10(e) >= 1,
    decreases e,
{
    if e > 0 {
        lemma_pow10_pos((e - 1) as nat);
    }
}

pub proof fn lemma_pow10_adds(a: nat, b: nat)
    ensures
        pow10(a + b) == pow10(a) * pow10(b),
    decreases a,
{
    if a == 0 {
    } else {
        lemma_pow10_adds((a - 1) as nat, b);
        assert(pow10((a + b - 1) as nat) == pow10((a - 1) as nat) * pow10(b));
        assert(10 * (pow10((a - 1) as nat) * pow10(b)) == (10 * pow10((a - 1) as nat)) * pow10(
            b,
        )) by (nonlinear_arith);
    }
}

/// Executable power of ten, for exponents that fit the scaling range.
pub fn pow10_u64(e: u32) -> (r: u64)
    requires
        e <= 13,
    ensures
        r == pow10(e as nat),
        1 <= r <= 10000000000000,
{
    let mut r: u64 = 1;
    let mut i: u32 = 0;
    proof {
        lemma_pow10_pos(e as nat);
        lemma_pow10_monotone(e as nat, 13);
        reveal_with_fuel(pow10, 14);
        assert(pow10(13) == 10000000000000);
    }
    while i < e
        invariant
            i <= e <= 13,
            r == pow10(i as nat),
            r <= pow10(e as nat),
            pow10(e as nat) <= 10000000000000,
        decreases e - i,
    {
        proof {
            lemma_pow10_pos(i as nat);
            lemma_pow10_adds(i as nat, 1);
            reveal_with_fuel(pow10, 2);
            assert(pow10(1) == 10);
            assert(pow10((i + 1) as nat) <= pow10(e as nat)) by {
                lemma_pow10_monotone((i + 1) as nat, e as nat);
            }
        }
        r = r * 10;
        i = i + 1;
    }
    r
}

pub proof fn lemma_pow10_monotone(a: nat, b: nat)
    requires
        a <= b,
    ensures
        pow10(a) <= pow10(b),
    decreases b,
{
    if a < b {
        lemma_pow10_monotone(a, (b - 1) as nat);
        lemma_pow10_pos((b - 1) as nat);
    }
}

/// A currency amount held exactly: the value is `m / 10^e`. The scale `e`
/// never exceeds nine fraction digits, so every amount has an exact image
/// at scale nine that fits well within 128 bits.
#[derive(Clone, Copy, Debug, PartialEq, Eq, Structural)]
pub struct Dec {
    pub m: i64,
    pub e: u32,
}

/// Highest scale an amount may carry.
pub const DEC_MAX_SCALE: u32 = 9;

impl Dec {
    pub open spec fn wf(self) -> bool {
        self.e <= DEC_MAX_SCALE
    }

    /// The amount as an integer at scale nine: `m * 10^(9 - e)`. Two
    /// amounts are numerically equal exactly when these images agree.
    pub open spec fn v9(self) -> int {
        self.m * pow10((DEC_MAX_SCALE - self.e) as nat)
    }

    pub open spec fn spec_is_zero(self) -> bool {
        self.m == 0
    }

    pub open spec fn spec_is_neg(self) -> bool {
        self.m < 0
    }

    pub fn new(m: i64, e: u32) -> (r: Dec)
        requires
            e <= DEC_MAX_SCALE,
        ensures
            r.m == m && r.e == e && r.wf(),
    {
        Dec { m, e }
    }

    pub fn zero() -> (r: Dec)
        ensures
            r.wf() && r.v9() == 0 && r.m == 0 && r.e == 0,
    {
        Dec { m: 0, e: 0 }
    }

    /// True when the amount is strictly below zero.
    pub fn is_sign_negative(&self) -> (r: bool)
        requires
            self.wf(),
        ensures
            r <==> self.v9() < 0,
    {
        proof {
            lemma_pow10_pos((DEC_MAX_SCALE - self.e) as nat);
            assert(self.m < 0 <==> self.v9() < 0) by (nonlinear_arith)
                requires
                    self.v9() == self.m * pow10((DEC_MAX_SCALE - self.e) as nat),
                    pow10((DEC_MAX_SCALE - self.e) as nat) >= 1,
            ;
        }
        self.m < 0
    }

    /// Both operands scaled to their common (larger) scale, as 128-bit
    /// integers; the common scale comes back with them.
    fn aligned(&self, other: &Dec) -> (r: (i128, i128, u32))
        requires
            self.wf(),
            other.wf(),
        ensures
            r.2 == if self.e >= other.e {
                self.e
            } else {
                other.e
            },
            r.0 == self.m * pow10((r.2 - self.e) as nat),
            r.1 == other.m * pow10((r.2 - other.e) as nat),
            self.v9() == r.0 * pow10((DEC_MAX_SCALE - r.2) as nat),
            other.v9() == r.1 * pow10((DEC_MAX_SCALE - r.2) as nat),
            -9223372036854775808 * 1000000000 <= r.0 <= 9223372036854775807 * 1000000000,
            -9223372036854775808 * 1000000000 <= r.1 <= 9223372036854775807 * 1000000000,
    {
        let emax: u32 = if self.e >= other.e {
            self.e
        } else {
            other.e
        };
        let f1 = pow10_u64(emax - self.e);
        let f2 = pow10_u64(emax - other.e);
        proof {
            lemma_pow10_monotone((emax - self.e) as nat, DEC_MAX_SCALE as nat);
            lemma_pow10_monotone((emax - other.e) as nat, DEC_MAX_SCALE as nat);
            reveal_with_fuel(pow10, 10);
            assert(pow10(9) == 1000000000);
            lemma_scale_product(self.m as int, (emax - self.e) as nat, (DEC_MAX_SCALE - emax) as nat);
            lemma_scale_product(other.m as int, (emax - other.e) as nat, (DEC_MAX_SCALE - emax) as nat);
            lemma_abs_mul_bound(self.m as int, f1 as int, -9223372036854775808, 9223372036854775807, 1000000000);
            lemma_abs_mul_bound(other.m as int, f2 as int, -9223372036854775808, 9223372036854775807, 1000000000);
        }
        let a: i128 = (self.m as i128) * (f1 as i128);
        let b: i128 = (other.m as i128) * (f2 as i128);
        (a, b, emax)
    }

    /// Exact difference `self - other`, at the common scale of the two
    /// operands; `None` exactly when the difference does not fit a
    /// mantissa of 64 bits at that scale.
    pub fn checked_sub(&self, other: &Dec) -> (r: Option<Dec>)
        requires
            self.wf(),
            other.wf(),
        ensures
            ({
                let emax = if self.e >= other.e {
                    self.e
                } else {
                    other.e
                };
                let p = pow10((DEC_MAX_SCALE - emax) as nat);
                let diff = self.v9() - other.v9();
                &&& (r is Some <==> -0x7fffffffffffffff * p <= diff <= 0x7fffffffffffffff * p)
                &&& (r is Some ==> r->0.wf() && r->0.e == emax && r->0.v9() == diff)
            }),
    {
        let (a, b, emax) = self.aligned(other);
        let d: i128 = a - b;
        proof {
            let p = pow10((DEC_MAX_SCALE - emax) as nat);
            lemma_pow10_pos((DEC_MAX_SCALE - emax) as nat);
            assert((a - b) * p == a * p - b * p) by (nonlinear_arith);
            assert(self.v9() - other.v9() == d * p);
            lemma_scaled_range_iff(d as int, 0x7fffffffffffffff, p);
        }
        if d >= -0x7fffffffffffffffi128 && d <= 0x7fffffffffffffffi128 {
            Some(Dec { m: d as i64, e: emax })
        } else {
            None
        }
    }

    /// Exact sum, at the common scale; `None` exactly when it does not
    /// fit a 64-bit mantissa at that scale.
    pub fn checked_add(&self, other: &Dec) -> (r: Option<Dec>)
        requires
            self.wf(),
            other.wf(),
        ensures
            ({
                let emax = if self.e >= other.e {
                    self.e
                } else {
                    other.e
                };
                let p = pow10((DEC_MAX_SCALE - emax) as nat);
                let sum = self.v9() + other.v9();
                &&& (r is Some <==> -0x7fffffffffffffff * p <= sum <= 0x7fffffffffffffff * p)
                &&& (r is Some ==> r->0.wf() && r->0.e == emax && r->0.v9() == sum)
            }),
    {
        let (a, b, emax) = self.aligned(other);
        let d: i128 = a + b;
        proof {
            let p = pow10((DEC_MAX_SCALE - emax) as nat);
            lemma_pow10_pos((DEC_MAX_SCALE - emax) as nat);
            assert((a + b) * p == a * p + b * p) by (nonlinear_arith);
            assert(self.v9() + other.v9() == d * p);
            lemma_scaled_range_iff(d as int, 0x7fffffffffffffff, p);
        }
        if d >= -0x7fffffffffffffffi128 && d <= 0x7fffffffffffffffi128 {
            Some(Dec { m: d as i64, e: emax })
        } else {
            None
        }
    }

    /// Exact product with a quantity; `None` exactly when the product
    /// does not fit a 64-bit mantissa at the amount's own scale.
    pub fn checked_mul_u32(&self, q: u32) -> (r: Option<Dec>)
        requires
            self.wf(),
        ensures
            r is Some <==> -0x7fffffffffffffff <= self.m * q <= 0x7fffffffffffffff,
            r is Some ==> r->0.wf() && r->0.e == self.e && r->0.m == self.m * q && r->0.v9()
                == self.v9() * q,
    {
        proof {
            lemma_abs_mul_bound(self.m as int, q as int, -9223372036854775808, 9223372036854775807, 4294967296);
            let p = pow10((DEC_MAX_SCALE - self.e) as nat);
            assert((self.m * q) * p == (self.m * p) * q) by (nonlinear_arith);
        }
        let d: i128 = (self.m as i128) * (q as i128);
        if d >= -0x7fffffffffffffffi128 && d <= 0x7fffffffffffffffi128 {
            Some(Dec { m: d as i64, e: self.e })
        } else {
            None
        }
    }

    /// Numeric comparison, independent of the scales the operands carry.
    pub fn le(&self, other: &Dec) -> (r: bool)
        requires
            self.wf(),
            other.wf(),
        ensures
            r <==> self.v9() <= other.v9(),
    {
        let (a, b, emax) = self.aligned(other);
        proof {
            let p = pow10((DEC_MAX_SCALE - emax) as nat);
            lemma_pow10_pos((DEC_MAX_SCALE - emax) as nat);
            assert(a <= b <==> a * p <= b * p) by (nonlinear_arith)
                requires
                    p >= 1,
            ;
        }
        a <= b
    }

    /// Numeric equality, independent of the scales the operands carry.
    pub fn eq_value(&self, other: &Dec) -> (r: bool)
        requires
            self.wf(),
            other.wf(),
        ensures
            r <==> self.v9() == other.v9(),
    {
        let (a, b, emax) = self.aligned(other);
        proof {
            let p = pow10((DEC_MAX_SCALE - emax) as nat);
            lemma_pow10_pos((DEC_MAX_SCALE - emax) as nat);
            assert(a == b <==> a * p == b * p) by (nonlinear_arith)
                requires
                    p >= 1,
            ;
        }
        a == b
    }
}

proof fn lemma_scale_product(m: int, a: nat, b: nat)
    ensures
        (m * pow10(a)) * pow10(b) == m * pow10(a + b),
{
    lemma_pow10_adds(a, b);
    assert((m * pow10(a)) * pow10(b) == m * (pow10(a) * pow10(b))) by (nonlinear_arith);
}

proof fn lemma_abs_mul_bound(m: int, f: int, lo: int, hi: int, fb: int)
    requires
        lo <= m <= hi,
        0 <= f <= fb,
        lo <= 0 <= hi,
    ensures
        lo * fb <= m * f <= hi * fb,
{
    assert(lo * fb <= m * f <= hi * fb) by (nonlinear_arith)
        requires
            lo <= m <= hi,
            0 <= f <= fb,
            lo <= 0 <= hi,
    ;
}

proof fn lemma_scaled_range_iff(d: int, bound: int, p: int)
    requires
        p >= 1,
        bound >= 0,
    ensures
        (-bound <= d <= bound) <==> (-bound * p <= d * p <= bound * p),
{
    assert((-bound <= d <= bound) <==> (-bound * p <= d * p <= bound * p)) by (nonlinear_arith)
        requires
            p >= 1,
            bound >= 0,
    ;
}

/// Why a textual amount could not be taken in.
#[derive(Clone, Copy, Debug, PartialEq, Eq, Structural)]
pub enum DecParseError {
    BadShape,
    TooPrecise,
    Overflow,
}

/// What went wrong with one pay-line amount.
#[derive(Clone, Debug, PartialEq, Eq)]
pub enum PayLineAmountError {
    ParseUnit(String, DecParseError),
    ParseTotal(String, DecParseError),
    Overflow,
}

/// Amount of one pay line: price of one unit, the line's total, and the
/// quantity of units.
#[derive(Clone, Copy, Debug, PartialEq, Eq, Structural)]
pub struct PayLineAmountModel {
    pub unit: Dec,
    pub total: Dec,
    pub qty: u32,
}

impl PayLineAmountModel {
    pub open spec fn wf(self) -> bool {
        self.unit.wf() && self.total.wf()
    }

    /// The all-zero amount, the state before any refund was granted.
    pub fn zero() -> (r: PayLineAmountModel)
        ensures
            r.wf() && r.unit.v9() == 0 && r.total.v9() == 0 && r.qty == 0,
    {
        PayLineAmountModel { unit: Dec::zero(), total: Dec::zero(), qty: 0 }
    }
}


/// One character of a decimal numeral.
pub open spec fn is_digit_char(c: char) -> bool {
    48 <= c as u32 <= 57
}

pub open spec fn digit_val(c: char) -> int {
    c as u32 - 48
}

/// Scanner of the textual amount grammar `['-'] digits ['.' digits]`,
/// walking the characters once from position `i` with the state built so
/// far: the mantissa, the count of fraction digits, whether a digit and
/// whether the dot were seen. It rejects a second dot, a dot without a
/// digit on each side, any other character, more than nine fraction
/// digits, and a mantissa beyond 64 bits.
pub open spec fn dec_scan(
    s: Seq<char>,
    i: int,
    mant: int,
    frac: int,
    seen_digit: bool,
    seen_dot: bool,
) -> Result<(int, int), DecParseError>
    decreases s.len() - i,
{
    if i < 0 || i >= s.len() {
        if !seen_digit || (seen_dot && frac == 0) {
            Err(DecParseError::BadShape)
        } else {
            Ok((mant, frac))
        }
    } else {
        let c = s[i];
        if is_digit_char(c) {
            let m2 = mant * 10 + digit_val(c);
            let f2 = if seen_dot {
                frac + 1
            } else {
                frac
            };
            if m2 > 0x7fffffffffffffff {
                Err(DecParseError::Overflow)
            } else if f2 > DEC_MAX_SCALE {
                Err(DecParseError::TooPrecise)
            } else {
                dec_scan(s, i + 1, m2, f2, true, seen_dot)
            }
        } else if c == '.' && seen_digit && !seen_dot {
            dec_scan(s, i + 1, mant, 0, true, true)
        } else {
            Err(DecParseError::BadShape)
        }
    }
}

/// What `Dec::from_str` accepts and the sign, mantissa and scale it reads.
pub open spec fn spec_parse_dec(s: Seq<char>) -> Result<(bool, int, int), DecParseError> {
    if s.len() > 0 && s[0] == '-' {
        match dec_scan(s, 1, 0, 0, false, false) {
            Ok((m, f)) => Ok((true, m, f)),
            Err(e) => Err(e),
        }
    } else {
        match dec_scan(s, 0, 0, 0, false, false) {
            Ok((m, f)) => Ok((false, m, f)),
            Err(e) => Err(e),
        }
    }
}

impl Dec {
    /// Reads a textual amount: an optional minus sign, an integer part,
    /// and an optional fraction of at most nine digits. Anything else is
    /// rejected, as is a mantissa beyond 64 bits.
    pub fn from_str(s: &str) -> (r: Result<Dec, DecParseError>)
        ensures
            r is Ok <==> spec_parse_dec(s@) is Ok,
            r is Ok ==> ({
                let (neg, m, f) = spec_parse_dec(s@)->Ok_0;
                &&& r->Ok_0.wf()
                &&& r->Ok_0.e == f
                &&& r->Ok_0.m == if neg {
                    -m
                } else {
                    m
                }
            }),
            r is Err ==> r->Err_0 == spec_parse_dec(s@)->Err_0,
    {
        let n = s.unicode_len();
        let mut i: usize = 0;
        let mut neg = false;
        if n > 0 {
            let c0 = s.get_char(0);
            if c0 == '-' {
                neg = true;
                i = 1;
            }
        }
        let ghost start = i as int;
        let mut mant: i64 = 0;
        let mut frac: u32 = 0;
        let mut seen_digit = false;
        let mut seen_dot = false;
        while i < n
            invariant
                start <= i <= n == s@.len(),
                i <= n,
                0 <= mant,
                0 <= frac <= DEC_MAX_SCALE,
                dec_scan(s@, start, 0, 0, false, false) == dec_scan(
                    s@,
                    i as int,
                    mant as int,
                    frac as int,
                    seen_digit,
                    seen_dot,
                ),
                neg == (s@.len() > 0 && s@[0] == '-'),
                start == if neg {
                    1int
                } else {
                    0int
                },
            decreases n - i,
        {
            let c = s.get_char(i);
            let cu = c as u32;
            if 48 <= cu && cu <= 57 {
                let dv: i64 = (cu - 48) as i64;
                let m2: i128 = (mant as i128) * 10 + (dv as i128);
                if m2 > 0x7fffffffffffffffi128 {
                    return Err(DecParseError::Overflow);
                }
                if seen_dot && frac + 1 > DEC_MAX_SCALE {
                    return Err(DecParseError::TooPrecise);
                }
                mant = m2 as i64;
                if seen_dot {
                    frac = frac + 1;
                }
                seen_digit = true;
            } else if c == '.' && seen_digit && !seen_dot {
                seen_dot = true;
                frac = 0;
            } else {
                return Err(DecParseError::BadShape);
            }
            i = i + 1;
        }
        if !seen_digit || (seen_dot && frac == 0) {
            return Err(DecParseError::BadShape);
        }
        let m: i64 = if neg {
            -mant
        } else {
            mant
        };
        Ok(Dec { m, e: frac })
    }
}

/// Integer division rounded toward zero.
pub open spec fn trunc_div(a: int, b: int) -> int {
    if a >= 0 {
        a / b
    } else {
        -((-a) / b)
    }
}

/// The amount in "grains": minor units of the given fraction scale,
/// carried at eight further digits of precision and rounded toward zero.
/// This is the fixed-point form handed to the payment processor; a grain
/// count is valid only while it fits a signed 64-bit integer.
pub open spec fn grain_e8(d: Dec, scale: u32) -> int {
    let k = scale + 8 - d.e;
    if k >= 0 {
        d.m * pow10(k as nat)
    } else {
        trunc_div(d.m as int, pow10((-k) as nat))
    }
}

/// Converts an amount to the processor's fixed-point form: minor units of
/// the currency at eight extra digits of precision, rounded toward zero.
/// Fails exactly when that count exceeds a signed 64-bit integer.
pub fn amount_represent_grain(amount: &Dec, currency: crate::types::CurrencyDto) -> (r: Result<
    i64,
    PayLineAmountError,
>)
    requires
        amount.wf(),
    ensures
        r is Ok <==> -0x7fffffffffffffff <= grain_e8(*amount, currency.spec_fraction_scale())
            <= 0x7fffffffffffffff,
        r is Ok ==> r->Ok_0 == grain_e8(*amount, currency.spec_fraction_scale()),
        r is Err ==> r->Err_0 == PayLineAmountError::Overflow,
{
    let scale = currency.amount_fraction_scale();
    let v: i128 = if scale + 8 >= amount.e {
        let k = scale + 8 - amount.e;
        let f = pow10_u64(k);
        proof {
            lemma_abs_mul_bound(
                amount.m as int,
                f as int,
                -9223372036854775808,
                9223372036854775807,
                10000000000000,
            );
        }
        (amount.m as i128) * (f as i128)
    } else {
        let k2 = amount.e - (scale + 8);
        let f = pow10_u64(k2);
        let a: i128 = amount.m as i128;
        proof {
            lemma_pow10_pos(k2 as nat);
        }
        if a >= 0 {
            a / (f as i128)
        } else {
            -((-a) / (f as i128))
        }
    };
    if -0x7fffffffffffffffi128 <= v && v <= 0x7fffffffffffffffi128 {
        Ok(v as i64)
    } else {
        Err(PayLineAmountError::Overflow)
    }
}


/// What the scanner guarantees of an accepted amount: a non-negative
/// mantissa within 64 bits, and at most nine fraction digits.
pub proof fn lemma_dec_scan_ok(
    s: Seq<char>,
    i: int,
    mant: int,
    frac: int,
    seen_digit: bool,
    seen_dot: bool,
)
    requires
        0 <= mant <= 0x7fffffffffffffff,
        0 <= frac <= DEC_MAX_SCALE,
    ensures
        dec_scan(s, i, mant, frac, seen_digit, seen_dot) matches Ok(v) ==> 0 <= v.0
            <= 0x7fffffffffffffff && 0 <= v.1 <= DEC_MAX_SCALE,
    decreases s.len() - i,
{
    if 0 <= i < s.len() {
        let c = s[i];
        if is_digit_char(c) {
            let m2 = mant * 10 + digit_val(c);
            let f2 = if seen_dot {
                frac + 1
            } else {
                frac
            };
            if m2 <= 0x7fffffffffffffff && f2 <= DEC_MAX_SCALE {
                lemma_dec_scan_ok(s, i + 1, m2, f2, true, seen_dot);
            }
        } else if c == '.' && seen_digit && !seen_dot {
            lemma_dec_scan_ok(s, i + 1, mant, 0, true, true);
        }
    }
}

/// What an accepted textual amount guarantees: a non-negative mantissa
/// within 64 bits and at most nine fraction digits.
pub proof fn lemma_parse_dec_ok(s: Seq<char>)
    ensures
        spec_parse_dec(s) matches Ok(v) ==> 0 <= v.1 <= 0x7fffffffffffffff && 0 <= v.2
            <= DEC_MAX_SCALE,
{
    if s.len() > 0 && s[0] == '-' {
        lemma_dec_scan_ok(s, 1, 0, 0, false, false);
    } else {
        lemma_dec_scan_ok(s, 0, 0, 0, false, false);
    }
}

} // verus!
