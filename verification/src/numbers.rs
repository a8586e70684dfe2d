//! Numeric facts: literals, intervals, and comparisons of double-precision
//! values through their bit patterns.
use crate::text::{cat2, cat3, cat4, numeral, same_text};
use vstd::prelude::*;

verus! {

/// A double-precision value with the texts it is reported as.
pub struct Real {
    /// IEEE 754 bit pattern.
    pub bits: u64,
    /// Shortest decimal text that reads back as the same value.
    pub shown: String,
    /// The value rounded to a whole number.
    pub rounded: String,
    /// A hundred times the value, rounded to a whole number.
    pub percent: String,
    /// The value as a number of bytes: in KiB below one MiB, in MiB with one
    /// decimal from there on.
    pub size: String,
}

/// Two to the power of 63: the sign bit.
pub const SIGN: u64 = 0x8000_0000_0000_0000;

/// Bit pattern of positive infinity.
pub const INFINITY: u64 = 0x7FF0_0000_0000_0000;

/// Two to the power of 52: one step of the exponent field.
pub const STEP: u64 = 0x10_0000_0000_0000;

/// Two to the power of 53: below it every whole number is a double.
pub const EXACT_INT_LIMIT: u64 = 0x20_0000_0000_0000;

/// Bit pattern of one.
pub const ONE: u64 = 0x3FF0_0000_0000_0000;

/// The pattern without its sign bit.
pub open spec fn magnitude(bits: u64) -> int {
    if bits >= SIGN {
        bits - SIGN
    } else {
        bits as int
    }
}

pub open spec fn is_nan(bits: u64) -> bool {
    magnitude(bits) > INFINITY
}

/// Integer that orders doubles as their values do, with both zeros at 0.
pub open spec fn order_key(bits: u64) -> int {
    if bits >= SIGN {
        -magnitude(bits)
    } else {
        magnitude(bits)
    }
}

/// `a < b` on the values of two patterns.
pub open spec fn real_below(a: u64, b: u64) -> bool {
    !is_nan(a) && !is_nan(b) && order_key(a) < order_key(b)
}

/// `a <= b` on the values of two patterns.
pub open spec fn real_at_most(a: u64, b: u64) -> bool {
    !is_nan(a) && !is_nan(b) && order_key(a) <= order_key(b)
}

/// Whether the value is neither infinite nor a NaN.
pub open spec fn is_finite(bits: u64) -> bool {
    magnitude(bits) < INFINITY
}

fn key_of(bits: u64) -> (key: i128)
    ensures
        key == order_key(bits),
{
    if bits >= SIGN {
        -((bits - SIGN) as i128)
    } else {
        bits as i128
    }
}

fn nan(bits: u64) -> (nan: bool)
    ensures
        nan == is_nan(bits),
{
    if bits >= SIGN {
        bits - SIGN > INFINITY
    } else {
        bits > INFINITY
    }
}

pub fn finite(bits: u64) -> (finite: bool)
    ensures
        finite == is_finite(bits),
{
    if bits >= SIGN {
        bits - SIGN < INFINITY
    } else {
        bits < INFINITY
    }
}

pub fn below(a: u64, b: u64) -> (below: bool)
    ensures
        below == real_below(a, b),
{
    !nan(a) && !nan(b) && key_of(a) < key_of(b)
}

pub fn at_most(a: u64, b: u64) -> (at_most: bool)
    ensures
        at_most == real_at_most(a, b),
{
    !nan(a) && !nan(b) && key_of(a) <= key_of(b)
}

/// Doubles `m` until it fills 53 binary digits; `e` counts the exponent.
pub open spec fn raised(m: int, e: int) -> (int, int)
    decreases 2 * STEP - m,
{
    if m <= 0 || m >= STEP {
        (m, e)
    } else {
        raised(2 * m, e - 1)
    }
}

/// Smallest power of two, from `unit` on, that leaves 53 binary digits.
pub open spec fn unit_from(m: int, unit: int, e: int) -> (int, int)
    decreases 2 * m - unit,
{
    if unit <= 0 || m / unit < EXACT_INT_LIMIT || unit >= m {
        (unit, e)
    } else {
        unit_from(m, 2 * unit, e + 1)
    }
}

/// `m / unit` rounded to the nearest whole number, ties to even.
pub open spec fn nearest(m: int, unit: int) -> int {
    let q = m / unit;
    let r = m % unit;
    if 2 * r > unit || (2 * r == unit && q % 2 == 1) {
        q + 1
    } else {
        q
    }
}

/// The double nearest to the natural number `m`, as a whole number.
pub open spec fn nearest_double(m: int) -> int {
    nearest(m, unit_from(m, 1, 0).0) * unit_from(m, 1, 0).0
}

/// Bit pattern of the double nearest to the natural number `m`.
pub open spec fn double_bits(m: int) -> int {
    if m == 0 {
        0
    } else if m < STEP {
        (1074 + raised(m, 0).1) * STEP + raised(m, 0).0
    } else {
        (1074 + unit_from(m, 1, 0).1) * STEP + nearest(m, unit_from(m, 1, 0).0)
    }
}

/// Bit pattern of the double nearest to an integer.
pub open spec fn whole_bits(n: int) -> int {
    if n < 0 {
        SIGN + double_bits(-n)
    } else {
        double_bits(n)
    }
}

fn raise(m: u64) -> (found: (u64, i32))
    requires
        0 < m < STEP,
    ensures
        found.0 == raised(m as int, 0).0,
        found.1 == raised(m as int, 0).1,
        STEP <= found.0 < 2 * STEP,
        -64 <= found.1 <= 0,
{
    let mut v: u64 = m;
    let mut e: i32 = 0;
    let ghost mut scale: int = 1;
    while v < STEP
        invariant
            0 < v < 2 * STEP,
            raised(m as int, 0) == raised(v as int, e as int),
            -52 <= e <= 0,
            scale <= v,
            e == 0 ==> scale == 1,
            scale == power(-e as int),
        decreases 2 * STEP - v,
    {
        proof {
            if e == -52 {
                power_of_52();
                assert(false);
            }
        }
        v = v * 2;
        e = e - 1;
        proof {
            scale = scale * 2;
        }
    }
    (v, e)
}

spec fn power(k: int) -> int
    decreases k,
{
    if k <= 0 {
        1
    } else {
        2 * power(k - 1)
    }
}

proof fn power_of_52()
    ensures
        power(52) == STEP,
{
    reveal_with_fuel(power, 53);
}

proof fn power_of_11()
    ensures
        power(11) == 2048,
{
    reveal_with_fuel(power, 12);
}

fn find_unit(m: u64) -> (found: (u64, i32))
    requires
        m <= SIGN,
    ensures
        found.0 == unit_from(m as int, 1, 0).0,
        found.1 == unit_from(m as int, 1, 0).1,
        1 <= found.0 <= 2048,
        0 <= found.1 <= 11,
        (m as int) / (found.0 as int) < EXACT_INT_LIMIT,
{
    let mut unit: u64 = 1;
    let mut e: i32 = 0;
    while m / unit >= EXACT_INT_LIMIT && unit < m
        invariant
            1 <= unit <= 2048,
            0 <= e <= 11,
            m <= SIGN,
            unit == power(e as int),
            unit_from(m as int, 1, 0) == unit_from(m as int, unit as int, e as int),
        decreases 4096 - unit,
    {
        proof {
            if e == 11 {
                power_of_11();
                assert((m as int) / 2048 < EXACT_INT_LIMIT);
            }
            if unit == 2048 {
                assert((m as int) / 2048 < EXACT_INT_LIMIT);
            }
            assert(unit <= 1024) by {
                power_at_most_1024(e as int);
            }
        }
        unit = unit * 2;
        e = e + 1;
    }
    proof {
        if unit >= m {
            assert((m as int) / (unit as int) <= 1) by (nonlinear_arith)
                requires
                    unit >= m,
                    unit >= 1,
            ;
        }
    }
    (unit, e)
}

proof fn power_at_most_1024(e: int)
    requires
        0 <= e <= 10,
    ensures
        power(e) <= 1024,
{
    reveal_with_fuel(power, 12);
}

fn round_nearest(m: u64, unit: u64) -> (q: u64)
    requires
        1 <= unit <= 2048,
        (m as int) / (unit as int) < EXACT_INT_LIMIT,
    ensures
        q == nearest(m as int, unit as int),
        q <= EXACT_INT_LIMIT,
        0 <= q * unit <= m + unit,
{
    let q: u64 = m / unit;
    let r: u64 = m % unit;
    assert(0 <= q * unit <= m && (q + 1) * unit <= m + unit) by (nonlinear_arith)
        requires
            q == m / unit,
            unit >= 1,
    ;
    if 2 * r > unit || (2 * r == unit && q % 2 == 1) {
        q + 1
    } else {
        q
    }
}

/// Bit pattern of the double nearest to `m`.
fn bits_of(m: u64) -> (bits: u64)
    requires
        m <= SIGN,
    ensures
        bits == double_bits(m as int),
        bits <= 2_000 * STEP,
{
    if m == 0 {
        0
    } else if m < STEP {
        let (v, e) = raise(m);
        (1074 + e) as u64 * STEP + v
    } else {
        let (unit, e) = find_unit(m);
        let q: u64 = round_nearest(m, unit);
        (1074 + e) as u64 * STEP + q
    }
}

fn magnitude_of(n: i64) -> (m: u64)
    ensures
        m == (if n < 0 { -n } else { n as int }),
        m <= SIGN,
{
    if n == i64::MIN {
        SIGN
    } else if n < 0 {
        (-n) as u64
    } else {
        n as u64
    }
}

/// Bit pattern of the double nearest to `n`.
pub fn bits_of_whole(n: i64) -> (bits: u64)
    ensures
        bits == whole_bits(n as int),
{
    let bits: u64 = bits_of(magnitude_of(n));
    if n < 0 {
        SIGN + bits
    } else {
        bits
    }
}

/// Text of the double nearest to an integer.
pub open spec fn whole_text(n: int) -> Seq<char> {
    if n < 0 {
        "-"@ + numeral(nearest_double(-n) as nat)
    } else {
        numeral(nearest_double(n) as nat)
    }
}

/// The double nearest to `m`, as a whole number.
pub fn round_to_double(m: u64) -> (value: u64)
    requires
        m <= SIGN,
    ensures
        value == nearest_double(m as int),
        value <= m + 2048,
{
    let (unit, _e) = find_unit(m);
    let q: u64 = round_nearest(m, unit);
    q * unit
}

fn show_whole(n: i64) -> (text: String)
    ensures
        text@ == whole_text(n as int),
{
    let m: u64 = magnitude_of(n);
    let value: u64 = round_to_double(m);
    if n < 0 {
        cat2("-", crate::text::decimal(value).as_str())
    } else {
        crate::text::decimal(value)
    }
}

/// A numeric literal.
pub enum NumLit {
    Int(i64),
    Float(Real),
}

/// A statically known number, interval, or the lack of one.
pub enum Num {
    Exact(NumLit),
    Interval { lo: Option<Real>, hi: Option<Real> },
    /// A symbolic quantity, such as a frame count that no profile bounds.
    Symbol(String),
    Unknown,
}

/// One end of a numeric fact, read as a double.
pub enum Bound<'a> {
    Whole(i64),
    Real(&'a Real),
}

impl NumLit {
    pub open spec fn spec_bound(&self) -> Bound<'_> {
        match self {
            NumLit::Int(n) => Bound::Whole(*n),
            NumLit::Float(value) => Bound::Real(value),
        }
    }

    /// The literal as a double.
    pub fn bound(&self) -> (bound: Bound<'_>)
        ensures
            bound == self.spec_bound(),
    {
        match self {
            NumLit::Int(n) => Bound::Whole(*n),
            NumLit::Float(value) => Bound::Real(value),
        }
    }
}

impl<'a> Bound<'a> {
    /// Bit pattern of the bound.
    pub open spec fn pattern(self) -> u64 {
        match self {
            Bound::Whole(n) => whole_bits(n as int) as u64,
            Bound::Real(value) => value.bits,
        }
    }

    pub fn bits(&self) -> (bits: u64)
        ensures
            bits == self.pattern(),
    {
        match self {
            Bound::Whole(n) => bits_of_whole(*n),
            Bound::Real(value) => value.bits,
        }
    }

    /// Whether the bound is at least the whole number `minimum`.
    pub open spec fn reaches(self, minimum: u32) -> bool {
        real_at_most(double_bits(minimum as int) as u64, self.pattern())
    }

    pub fn at_least(&self, minimum: u32) -> (reached: bool)
        ensures
            reached == self.reaches(minimum),
    {
        at_most(bits_of(minimum as u64), self.bits())
    }

    /// Whether the bound is less than the whole number `minimum`.
    pub open spec fn short_of(self, minimum: u32) -> bool {
        real_below(self.pattern(), double_bits(minimum as int) as u64)
    }

    pub fn less_than(&self, minimum: u32) -> (short: bool)
        ensures
            short == self.short_of(minimum),
    {
        below(self.bits(), bits_of(minimum as u64))
    }

    /// Whether the bound is greater than zero.
    pub open spec fn above_zero(self) -> bool {
        real_below(0, self.pattern())
    }

    pub fn positive(&self) -> (positive: bool)
        ensures
            positive == self.above_zero(),
    {
        below(0, self.bits())
    }

    /// Text of the bound, with whole numbers written without a fraction.
    pub open spec fn count_text(self) -> Seq<char> {
        match self {
            Bound::Whole(n) => whole_text(n as int),
            Bound::Real(value) => if magnitude(value.bits) == 0 {
                "0"@
            } else {
                value.shown@
            },
        }
    }

    pub fn format_count(&self) -> (text: String)
        ensures
            text@ == self.count_text(),
    {
        match self {
            Bound::Whole(n) => show_whole(*n),
            Bound::Real(value) => if value.bits == 0 || value.bits == SIGN {
                "0".to_owned()
            } else {
                value.shown.clone()
            },
        }
    }

    /// Text of the bound rounded to a whole number.
    pub open spec fn rounded_text(self) -> Seq<char> {
        match self {
            Bound::Whole(n) => whole_text(n as int),
            Bound::Real(value) => value.rounded@,
        }
    }

    pub fn format_rounded(&self) -> (text: String)
        ensures
            text@ == self.rounded_text(),
    {
        match self {
            Bound::Whole(n) => show_whole(*n),
            Bound::Real(value) => value.rounded.clone(),
        }
    }
}

impl Num {
    pub open spec fn spec_lower_bound(&self) -> Option<Bound<'_>> {
        match self {
            Num::Exact(literal) => Some(literal.spec_bound()),
            Num::Interval { lo: Some(lo), hi: _ } => Some(Bound::Real(lo)),
            _ => None,
        }
    }

    pub open spec fn spec_upper_bound(&self) -> Option<Bound<'_>> {
        match self {
            Num::Exact(literal) => Some(literal.spec_bound()),
            Num::Interval { lo: _, hi: Some(hi) } => Some(Bound::Real(hi)),
            _ => None,
        }
    }

    /// The least value the number can have, when known.
    pub fn lower_bound(&self) -> (bound: Option<Bound<'_>>)
        ensures
            bound == self.spec_lower_bound(),
    {
        match self {
            Num::Exact(literal) => Some(literal.bound()),
            Num::Interval { lo, hi: _ } => match lo {
                Some(lo) => Some(Bound::Real(lo)),
                None => None,
            },
            _ => None,
        }
    }

    /// The greatest value the number can have, when known.
    pub fn upper_bound(&self) -> (bound: Option<Bound<'_>>)
        ensures
            bound == self.spec_upper_bound(),
    {
        match self {
            Num::Exact(literal) => Some(literal.bound()),
            Num::Interval { lo: _, hi } => match hi {
                Some(hi) => Some(Bound::Real(hi)),
                None => None,
            },
            _ => None,
        }
    }

    /// Whether the number is an exact value or an interval.
    pub open spec fn spec_bounded(&self) -> bool {
        self is Exact || self is Interval
    }

    pub fn is_bounded(&self) -> (bounded: bool)
        ensures
            bounded == self.spec_bounded(),
    {
        match self {
            Num::Exact(_) => true,
            Num::Interval { lo: _, hi: _ } => true,
            _ => false,
        }
    }
}

/// A frame count for prose.
pub open spec fn frames_text(frames: Num) -> Seq<char> {
    match (frames.spec_lower_bound(), frames.spec_upper_bound()) {
        (Some(lower), Some(upper)) => if lower.count_text() == upper.count_text() {
            "~"@ + upper.count_text()
        } else {
            "~"@ + lower.count_text() + " to ~"@ + upper.count_text()
        },
        (None, Some(upper)) => "up to ~"@ + upper.count_text(),
        (Some(lower), None) => "at least ~"@ + lower.count_text(),
        (None, None) => "per-frame"@,
    }
}

/// A duration for prose.
pub open spec fn seconds_text(duration: Num) -> Seq<char> {
    match (duration.spec_lower_bound(), duration.spec_upper_bound()) {
        (Some(lower), Some(upper)) => if lower.count_text() == upper.count_text() {
            upper.count_text() + " s"@
        } else {
            lower.count_text() + " s to "@ + upper.count_text() + " s"@
        },
        (Some(lower), None) => "at least "@ + lower.count_text() + " s"@,
        (None, Some(upper)) => "up to "@ + upper.count_text() + " s"@,
        (None, None) => "unknown"@,
    }
}

/// Renders a frame-count estimate: `~120` or `~120 to ~480` when bounded,
/// `per-frame` otherwise.
pub fn display_frames(frames: &Num) -> (text: String)
    ensures
        text@ == frames_text(*frames),
{
    match (frames.lower_bound(), frames.upper_bound()) {
        (Some(lower), Some(upper)) => {
            let low: String = lower.format_count();
            let high: String = upper.format_count();
            if same_text(low.as_str(), high.as_str()) {
                cat2("~", high.as_str())
            } else {
                cat4("~", low.as_str(), " to ~", high.as_str())
            }
        },
        (None, Some(upper)) => cat2("up to ~", upper.format_count().as_str()),
        (Some(lower), None) => cat2("at least ~", lower.format_count().as_str()),
        (None, None) => "per-frame".to_owned(),
    }
}

/// Renders a duration: `2 s` or `2 s to 4 s` when bounded, `unknown`
/// otherwise.
pub fn display_seconds(duration: &Num) -> (text: String)
    ensures
        text@ == seconds_text(*duration),
{
    match (duration.lower_bound(), duration.upper_bound()) {
        (Some(lower), Some(upper)) => {
            let low: String = lower.format_count();
            let high: String = upper.format_count();
            if same_text(low.as_str(), high.as_str()) {
                cat2(high.as_str(), " s")
            } else {
                cat4(low.as_str(), " s to ", high.as_str(), " s")
            }
        },
        (Some(lower), None) => cat3("at least ", lower.format_count().as_str(), " s"),
        (None, Some(upper)) => cat3("up to ", upper.format_count().as_str(), " s"),
        (None, None) => "unknown".to_owned(),
    }
}

// ---------------------------------------------------------------------------
// Whole numbers as doubles.
// ---------------------------------------------------------------------------

/// Raising doubles `m` just as often as it takes to fill the digits.
proof fn raising_is_exact(m: int, e: int)
    requires
        0 < m < 2 * STEP,
    ensures
        raised(m, e).1 <= e,
        STEP <= raised(m, e).0 < 2 * STEP,
        raised(m, e).0 == m * power(e - raised(m, e).1),
        raised(m, e).1 < e ==> m * power(e - raised(m, e).1 - 1) < STEP,
    decreases 2 * STEP - m,
{
    if m < STEP {
        raising_is_exact(2 * m, e - 1);
        let j = e - 1 - raised(2 * m, e - 1).1;
        assert(power(j + 1) == 2 * power(j));
        assert(m * (2 * power(j)) == (2 * m) * power(j)) by (nonlinear_arith);
        if j > 0 {
            assert(power(j) == 2 * power(j - 1));
            assert(m * (2 * power(j - 1)) == (2 * m) * power(j - 1)) by (nonlinear_arith);
            assert(m * power(j) < STEP);
        } else {
            assert(power(j) == 1);
            assert(m * power(j) == m) by (nonlinear_arith)
                requires
                    power(j) == 1,
            ;
        }
        assert(raised(m, e) == raised(2 * m, e - 1));
        assert(e - raised(m, e).1 - 1 == j);
    }
}

proof fn power_is_positive(k: int)
    ensures
        power(k) >= 1,
    decreases k,
{
    if k > 0 {
        power_is_positive(k - 1);
    }
}

proof fn power_grows(j: int, k: int)
    requires
        j <= k,
    ensures
        power(j) <= power(k),
    decreases k - j,
{
    if j < k {
        power_grows(j, k - 1);
        power_is_positive(k - 1);
        power_is_positive(j);
    }
}

/// Below 53 binary digits a greater number has a greater pattern.
proof fn small_patterns_in_order(a: int, b: int)
    requires
        0 <= a < b < STEP,
    ensures
        0 <= double_bits(a) < double_bits(b) < 1075 * STEP,
{
    raising_is_exact(b, 0);
    let jb = -raised(b, 0).1;
    let vb = raised(b, 0).0;
    power_is_positive(jb);
    assert(jb >= 1) by {
        if jb == 0 {
            assert(power(0) == 1);
        }
    }
    assert(jb <= 52) by {
        if jb > 52 {
            power_of_52();
            power_grows(52, jb - 1);
            assert(b * power(jb - 1) >= STEP) by (nonlinear_arith)
                requires
                    b >= 1,
                    power(jb - 1) >= STEP,
            ;
        }
    }
    assert(double_bits(b) == (1074 - jb) * STEP + vb);
    if a > 0 {
        raising_is_exact(a, 0);
        let ja = -raised(a, 0).1;
        let va = raised(a, 0).0;
        assert(jb <= ja) by {
            if ja < jb {
                power_grows(ja, jb - 1);
                power_is_positive(ja);
                assert(b * power(jb - 1) >= a * power(ja)) by (nonlinear_arith)
                    requires
                        b >= a,
                        a >= 0,
                        power(jb - 1) >= power(ja),
                        power(ja) >= 0,
                ;
            }
        }
        assert(ja <= 52) by {
            if ja > 52 {
                power_of_52();
                power_grows(52, ja - 1);
                assert(a * power(ja - 1) >= STEP) by (nonlinear_arith)
                    requires
                        a >= 1,
                        power(ja - 1) >= STEP,
                ;
            }
        }
        assert(double_bits(a) == (1074 - ja) * STEP + va);
        if ja == jb {
            power_is_positive(ja);
            assert(a * power(ja) < b * power(ja)) by (nonlinear_arith)
                requires
                    a < b,
                    power(ja) >= 1,
            ;
        }
    }
}

proof fn units_stay_small(m: int, unit: int, e: int)
    requires
        0 <= m <= SIGN,
        0 <= e <= 11,
        unit == power(e),
    ensures
        e <= unit_from(m, unit, e).1 <= 11,
        unit_from(m, unit, e).0 == power(unit_from(m, unit, e).1),
        m / unit_from(m, unit, e).0 < EXACT_INT_LIMIT,
    decreases 12 - e,
{
    power_is_positive(e);
    if e == 11 {
        power_of_11();
        assert(m / 2048 < EXACT_INT_LIMIT);
    }
    if m / unit < EXACT_INT_LIMIT {
    } else if unit >= m {
        assert(m / unit <= 1) by (nonlinear_arith)
            requires
                unit >= m,
                unit >= 1,
        ;
    } else {
        assert(power(e + 1) == 2 * power(e));
        units_stay_small(m, 2 * unit, e + 1);
    }
}

/// From 53 binary digits on patterns are greater than those below, and
/// still finite.
proof fn large_patterns_bounded(m: int)
    requires
        STEP <= m <= SIGN,
    ensures
        1075 * STEP <= double_bits(m) < 1100 * STEP,
{
    units_stay_small(m, 1, 0);
    let (unit, e) = unit_from(m, 1, 0);
    power_is_positive(e);
    let q = nearest(m, unit);
    assert(0 <= m / unit) by (nonlinear_arith)
        requires
            m >= 0,
            unit >= 1,
    ;
    assert(0 <= q <= EXACT_INT_LIMIT);
    if m < EXACT_INT_LIMIT {
        assert(m / 1 == m);
        assert(unit == 1 && e == 0);
        assert(m % 1 == 0);
        assert(q == m);
    } else {
        assert(m / 1 == m);
        assert(power(0) == 1 && power(1) == 2 * power(0));
        units_stay_small(m, 2, 1);
        assert(e >= 1);
    }
}

/// A whole number reaches a whole threshold exactly when it is at least that
/// large: rounding to a double never decides.
pub proof fn whole_threshold_is_exact(n: i64, minimum: u32)
    ensures
        Bound::Whole(n).reaches(minimum) <==> n >= minimum,
        Bound::Whole(n).short_of(minimum) <==> n < minimum,
{
    let m = minimum as int;
    assert(m < STEP);
    if m > 0 {
        small_patterns_in_order(0, m);
    }
    assert(0 <= double_bits(m) < 1075 * STEP);
    if n < 0 {
        let k = -(n as int);
        if k < STEP {
            small_patterns_in_order(0, k);
        } else {
            large_patterns_bounded(k);
        }
    } else if n < STEP {
        let k = n as int;
        if k > 0 {
            small_patterns_in_order(0, k);
        }
        if k < m {
            small_patterns_in_order(k, m);
        } else if m < k {
            small_patterns_in_order(m, k);
        }
    } else {
        large_patterns_bounded(n as int);
    }
}

/// A whole number compares with zero and with one as its double does.
pub proof fn whole_sign_is_exact(n: i64)
    ensures
        real_below(Bound::Whole(n).pattern(), 0) <==> n < 0,
        real_below(0, Bound::Whole(n).pattern()) <==> n > 0,
        real_below(ONE, Bound::Whole(n).pattern()) <==> n > 1,
{
    reveal_with_fuel(raised, 54);
    assert(double_bits(0) == 0);
    assert(double_bits(1) == ONE);
    whole_threshold_is_exact(n, 0);
    whole_threshold_is_exact(n, 1);
    whole_threshold_is_exact(n, 2);
    small_patterns_in_order(0, 1);
    small_patterns_in_order(1, 2);
}

/// Whole numbers below 53 binary digits compare as their doubles do.
pub proof fn whole_order_is_exact(a: i64, b: i64)
    requires
        -0x10_0000_0000_0000 < a < 0x10_0000_0000_0000,
        -0x10_0000_0000_0000 < b < 0x10_0000_0000_0000,
    ensures
        real_below(Bound::Whole(a).pattern(), Bound::Whole(b).pattern()) <==> a < b,
        real_at_most(Bound::Whole(a).pattern(), Bound::Whole(b).pattern()) <==> a <= b,
        is_finite(Bound::Whole(a).pattern()),
{
    let x = if a < 0 {
        -(a as int)
    } else {
        a as int
    };
    let y = if b < 0 {
        -(b as int)
    } else {
        b as int
    };
    if x > 0 {
        small_patterns_in_order(0, x);
    }
    if y > 0 {
        small_patterns_in_order(0, y);
    }
    if x < y {
        small_patterns_in_order(x, y);
    } else if y < x {
        small_patterns_in_order(y, x);
    }
}

} // verus!
