//! Timestamps expressed in a rational time base.
use vstd::prelude::*;

verus! {

/// A rational number `num / den`, as FFmpeg uses for time bases.
#[derive(Clone, Copy, Debug, PartialEq, Eq, Structural)]
pub struct Rational {
    /// Numerator.
    pub num: i32,
    /// Denominator.
    pub den: i32,
}

impl Rational {
    /// The rational `num / den`.
    pub fn new(num: i32, den: i32) -> (r: Rational)
        ensures
            r.num == num,
            r.den == den,
    {
        Rational { num, den }
    }
}

/// A point or span in time: an optional count of units of `time_base`
/// seconds. A time without a value stands for an unknown timestamp.
#[derive(Clone, Copy, Debug, PartialEq, Eq, Structural)]
pub struct Time {
    /// The count of time base units, if known.
    pub value: Option<i64>,
    /// The time base, in seconds per unit.
    pub time_base: Rational,
}

/// Whether `t` stands for a known number of seconds: it has a value and its
/// time base has a nonzero denominator.
pub open spec fn is_known(t: Time) -> bool {
    t.value is Some && t.time_base.den != 0
}

/// The sum (or, with `negate`, the difference) of two times, in seconds.
///
/// Where both times share a time base the result keeps it; otherwise its
/// time base is `1 / (den_a * den_b)`, in which both times are whole
/// numbers of units. The result has no value where either time has none or
/// where the result does not fit (value in `i64`, denominator in `i32`).
pub open spec fn spec_combine(a: Time, b: Time, negate: bool) -> Time {
    if !is_known(a) || !is_known(b) {
        Time { value: None, time_base: a.time_base }
    } else {
        let av = a.value.unwrap() as int;
        let bv: int = if negate {
            -(b.value.unwrap() as int)
        } else {
            b.value.unwrap() as int
        };
        if a.time_base == b.time_base {
            let v = av + bv;
            if i64::MIN <= v <= i64::MAX {
                Time { value: Some(v as i64), time_base: a.time_base }
            } else {
                Time { value: None, time_base: a.time_base }
            }
        } else {
            let den = a.time_base.den * b.time_base.den;
            let v = av * a.time_base.num * b.time_base.den + bv * b.time_base.num * a.time_base.den;
            if i32::MIN <= den <= i32::MAX && i64::MIN <= v <= i64::MAX {
                Time { value: Some(v as i64), time_base: Rational { num: 1, den: den as i32 } }
            } else {
                Time { value: None, time_base: a.time_base }
            }
        }
    }
}

/// `a + b`.
pub open spec fn spec_time_add(a: Time, b: Time) -> Time {
    spec_combine(a, b, false)
}

/// `a - b`.
pub open spec fn spec_time_sub(a: Time, b: Time) -> Time {
    spec_combine(a, b, true)
}

/// Whether `a` is strictly earlier than `b`; both must be known.
pub open spec fn spec_before(a: Time, b: Time) -> bool {
    &&& is_known(a)
    &&& is_known(b)
    &&& {
        let l = a.value.unwrap() * a.time_base.num * b.time_base.den;
        let r = b.value.unwrap() * b.time_base.num * a.time_base.den;
        if a.time_base.den * b.time_base.den > 0 {
            l < r
        } else {
            l > r
        }
    }
}

/// Bounds on the products that cross-multiplying two times builds.
proof fn lemma_cross_bounds(v: int, n: int, d: int)
    requires
        -0x8000_0000_0000_0000 <= v <= 0x8000_0000_0000_0000,
        i32::MIN <= n <= i32::MAX,
        i32::MIN <= d <= i32::MAX,
    ensures
        -0x4000_0000_0000_0000_0000_0000 <= v * n <= 0x4000_0000_0000_0000_0000_0000,
        -0x2000_0000_0000_0000_0000_0000_0000_0000 <= v * n * d
            <= 0x2000_0000_0000_0000_0000_0000_0000_0000,
{
    assert(-0x8000_0000_0000_0000 <= v <= 0x8000_0000_0000_0000);
    assert(-0x8000_0000 <= n <= 0x8000_0000);
    assert(-0x8000_0000 <= d <= 0x8000_0000);
    assert(-0x4000_0000_0000_0000_0000_0000 <= v * n <= 0x4000_0000_0000_0000_0000_0000)
        by (nonlinear_arith)
        requires
            -0x8000_0000_0000_0000 <= v <= 0x8000_0000_0000_0000,
            -0x8000_0000 <= n <= 0x8000_0000,
    ;
    let vn = v * n;
    assert(-0x2000_0000_0000_0000_0000_0000_0000_0000 <= vn * d
        <= 0x2000_0000_0000_0000_0000_0000_0000_0000) by (nonlinear_arith)
        requires
            -0x4000_0000_0000_0000_0000_0000 <= vn <= 0x4000_0000_0000_0000_0000_0000,
            -0x8000_0000 <= d <= 0x8000_0000,
    ;
}

impl Time {
    /// The time of `value` units of `time_base` seconds.
    pub fn new(value: Option<i64>, time_base: Rational) -> (t: Time)
        ensures
            t.value == value,
            t.time_base == time_base,
    {
        Time { value, time_base }
    }

    /// The count of time base units, if known.
    pub fn into_value(self) -> (value: Option<i64>)
        ensures
            value == self.value,
    {
        self.value
    }

    /// The time base, in seconds per unit.
    pub fn time_base(&self) -> (time_base: Rational)
        ensures
            time_base == self.time_base,
    {
        self.time_base
    }

    /// The sum or difference of two times (see [`spec_combine`]).
    fn combine(self, rhs: Time, negate: bool) -> (t: Time)
        ensures
            t == spec_combine(self, rhs, negate),
    {
        if self.value.is_none() || rhs.value.is_none() || self.time_base.den == 0
            || rhs.time_base.den == 0 {
            return Time { value: None, time_base: self.time_base };
        }
        let av = self.value.unwrap() as i128;
        let b0 = rhs.value.unwrap() as i128;
        let bv: i128 = if negate {
            -b0
        } else {
            b0
        };
        if self.time_base == rhs.time_base {
            let v = av + bv;
            if (i64::MIN as i128) <= v && v <= (i64::MAX as i128) {
                Time { value: Some(v as i64), time_base: self.time_base }
            } else {
                Time { value: None, time_base: self.time_base }
            }
        } else {
            let an = self.time_base.num as i128;
            let ad = self.time_base.den as i128;
            let bn = rhs.time_base.num as i128;
            let bd = rhs.time_base.den as i128;
            proof {
                lemma_cross_bounds(av as int, an as int, bd as int);
                lemma_cross_bounds(bv as int, bn as int, ad as int);
                assert(-0x4000_0000_0000_0000 <= ad * bd <= 0x4000_0000_0000_0000)
                    by (nonlinear_arith)
                    requires
                        -0x8000_0000 <= ad <= 0x8000_0000,
                        -0x8000_0000 <= bd <= 0x8000_0000,
                ;
            }
            let den = ad * bd;
            let v = av * an * bd + bv * bn * ad;
            if (i32::MIN as i128) <= den && den <= (i32::MAX as i128) && (i64::MIN as i128) <= v
                && v <= (i64::MAX as i128) {
                Time { value: Some(v as i64), time_base: Rational { num: 1, den: den as i32 } }
            } else {
                Time { value: None, time_base: self.time_base }
            }
        }
    }

    /// `self + rhs` (see [`spec_combine`]).
    pub fn plus(self, rhs: Time) -> (t: Time)
        ensures
            t == spec_time_add(self, rhs),
            t.value is Some ==> exact_result(self, rhs, t, false),
    {
        proof {
            lemma_combine_exact(self, rhs, false);
        }
        self.combine(rhs, false)
    }

    /// `self - rhs` (see [`spec_combine`]).
    pub fn minus(self, rhs: Time) -> (t: Time)
        ensures
            t == spec_time_sub(self, rhs),
            t.value is Some ==> exact_result(self, rhs, t, true),
    {
        proof {
            lemma_combine_exact(self, rhs, true);
        }
        self.combine(rhs, true)
    }

    /// Whether `self` is strictly earlier than `other`; both must be known.
    pub fn is_before(&self, other: &Time) -> (before: bool)
        ensures
            before == spec_before(*self, *other),
    {
        if self.value.is_none() || other.value.is_none() || self.time_base.den == 0
            || other.time_base.den == 0 {
            return false;
        }
        let av = self.value.unwrap() as i128;
        let bv = other.value.unwrap() as i128;
        let an = self.time_base.num as i128;
        let ad = self.time_base.den as i128;
        let bn = other.time_base.num as i128;
        let bd = other.time_base.den as i128;
        proof {
            lemma_cross_bounds(av as int, an as int, bd as int);
            lemma_cross_bounds(bv as int, bn as int, ad as int);
            assert(-0x4000_0000_0000_0000 <= ad * bd <= 0x4000_0000_0000_0000) by (nonlinear_arith)
                requires
                    -0x8000_0000 <= ad <= 0x8000_0000,
                    -0x8000_0000 <= bd <= 0x8000_0000,
            ;
        }
        let l = av * an * bd;
        let r = bv * bn * ad;
        if ad * bd > 0 {
            l < r
        } else {
            l > r
        }
    }
}

/// The exactness of a sum or difference of times `a` and `b` with result
/// `s`, written with the denominators multiplied out: `s` stands for the
/// seconds of `a` plus (or, with `negate`, minus) the seconds of `b`.
pub open spec fn exact_result(a: Time, b: Time, s: Time, negate: bool) -> bool {
    let l = a.value.unwrap() * a.time_base.num * b.time_base.den;
    let r = b.value.unwrap() * b.time_base.num * a.time_base.den;
    &&& is_known(a)
    &&& is_known(b)
    &&& s.time_base.den != 0
    &&& s.value.unwrap() * s.time_base.num * (a.time_base.den * b.time_base.den) == (if negate {
        l - r
    } else {
        l + r
    }) * s.time_base.den
}

proof fn lemma_combine_exact(a: Time, b: Time, negate: bool)
    ensures
        spec_combine(a, b, negate).value is Some ==> exact_result(
            a,
            b,
            spec_combine(a, b, negate),
            negate,
        ),
{
    let s = spec_combine(a, b, negate);
    if s.value is Some {
        let av = a.value.unwrap() as int;
        let bw = b.value.unwrap() as int;
        let bv: int = if negate {
            -bw
        } else {
            bw
        };
        let n = a.time_base.num as int;
        let bn = b.time_base.num as int;
        let ad = a.time_base.den as int;
        let bd = b.time_base.den as int;
        let l = av * n * bd;
        let r = bw * bn * ad;
        let target: int = if negate {
            l - r
        } else {
            l + r
        };
        if a.time_base == b.time_base {
            assert(s.value.unwrap() == av + bv);
            assert((av + bv) * n * (ad * bd) == target * ad) by (nonlinear_arith)
                requires
                    ad == bd,
                    n == bn,
                    l == av * n * bd,
                    r == bw * bn * ad,
                    bv == (if negate {
                        -bw
                    } else {
                        bw
                    }),
                    target == (if negate {
                        l - r
                    } else {
                        l + r
                    }),
            ;
        } else {
            assert(ad * bd != 0) by (nonlinear_arith)
                requires
                    ad != 0,
                    bd != 0,
            ;
            assert(av * n * bd + bv * bn * ad == target) by (nonlinear_arith)
                requires
                    l == av * n * bd,
                    r == bw * bn * ad,
                    bv == (if negate {
                        -bw
                    } else {
                        bw
                    }),
                    target == (if negate {
                        l - r
                    } else {
                        l + r
                    }),
            ;
            let v = av * n * bd + bv * bn * ad;
            assert(s.value.unwrap() == v);
            assert(s.time_base.num == 1 && s.time_base.den == ad * bd);
            assert(v * 1 * (ad * bd) == v * (ad * bd));
        }
    }
}

/// The sum of two times is exact: where it has a value, it stands for the
/// sum of the seconds that the two times stand for (written with the
/// denominators multiplied out).
pub proof fn lemma_time_add_exact(a: Time, b: Time)
    ensures
        ({
            let s = spec_time_add(a, b);
            s.value is Some ==> {
                &&& is_known(a) && is_known(b) && s.time_base.den != 0
                &&& s.value.unwrap() * s.time_base.num * (a.time_base.den * b.time_base.den) == (
                a.value.unwrap() * a.time_base.num * b.time_base.den + b.value.unwrap()
                    * b.time_base.num * a.time_base.den) * s.time_base.den
            }
        }),
{
    lemma_combine_exact(a, b, false);
}

/// The difference of two times is exact: where it has a value, it stands
/// for the seconds of `a` minus the seconds of `b` (written with the
/// denominators multiplied out).
pub proof fn lemma_time_sub_exact(a: Time, b: Time)
    ensures
        ({
            let s = spec_time_sub(a, b);
            s.value is Some ==> {
                &&& is_known(a) && is_known(b) && s.time_base.den != 0
                &&& s.value.unwrap() * s.time_base.num * (a.time_base.den * b.time_base.den) == (
                a.value.unwrap() * a.time_base.num * b.time_base.den - b.value.unwrap()
                    * b.time_base.num * a.time_base.den) * s.time_base.den
            }
        }),
{
    lemma_combine_exact(a, b, true);
}

} // verus!
