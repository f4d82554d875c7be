//! Exact rational arithmetic.
//!
//! `Rat` is the mathematical model: a numerator over a positive denominator,
//! both unbounded integers. `Frac` is the executable counterpart on `i128`.
//! Operations do not normalise, so every executable result is structurally
//! equal, seen through its view, to the corresponding model operation;
//! callers discharge the overflow preconditions from magnitude bounds.

use vstd::prelude::*;

verus! {

/// A rational number in specification land: `n / d` with `d > 0`.
pub ghost struct Rat {
    pub n: int,
    pub d: int,
}

pub open spec fn rat_int(n: int) -> Rat {
    Rat { n, d: 1 }
}

pub open spec fn rat_add(a: Rat, b: Rat) -> Rat {
    Rat { n: a.n * b.d + b.n * a.d, d: a.d * b.d }
}

pub open spec fn rat_sub(a: Rat, b: Rat) -> Rat {
    Rat { n: a.n * b.d - b.n * a.d, d: a.d * b.d }
}

pub open spec fn rat_mul(a: Rat, b: Rat) -> Rat {
    Rat { n: a.n * b.n, d: a.d * b.d }
}

/// Division keeps the denominator positive by moving the divisor's sign
/// to the numerator. Meaningful only for `b.n != 0`.
pub open spec fn rat_div(a: Rat, b: Rat) -> Rat {
    if b.n < 0 {
        Rat { n: -(a.n * b.d), d: a.d * -b.n }
    } else {
        Rat { n: a.n * b.d, d: a.d * b.n }
    }
}

pub open spec fn rat_add_int(a: Rat, k: int) -> Rat {
    Rat { n: a.n + k * a.d, d: a.d }
}

pub open spec fn rat_mul_int(a: Rat, k: int) -> Rat {
    Rat { n: a.n * k, d: a.d }
}

pub open spec fn rat_half(a: Rat) -> Rat {
    Rat { n: a.n, d: a.d * 2 }
}

pub open spec fn rat_neg(a: Rat) -> Rat {
    Rat { n: -a.n, d: a.d }
}

pub open spec fn rat_abs(a: Rat) -> Rat {
    if a.n < 0 {
        rat_neg(a)
    } else {
        a
    }
}

pub open spec fn rat_le(a: Rat, b: Rat) -> bool {
    a.n * b.d <= b.n * a.d
}

pub open spec fn rat_lt(a: Rat, b: Rat) -> bool {
    a.n * b.d < b.n * a.d
}

pub open spec fn rat_eq(a: Rat, b: Rat) -> bool {
    a.n * b.d == b.n * a.d
}

pub open spec fn rat_min(a: Rat, b: Rat) -> Rat {
    if rat_le(a, b) {
        a
    } else {
        b
    }
}

pub open spec fn rat_max(a: Rat, b: Rat) -> Rat {
    if rat_le(a, b) {
        b
    } else {
        a
    }
}

/// `clamp` with the tie-breaking of the standard library: values below `lo`
/// go to `lo`, values above `hi` go to `hi`, everything else is unchanged.
pub open spec fn rat_clamp(x: Rat, lo: Rat, hi: Rat) -> Rat {
    if rat_lt(x, lo) {
        lo
    } else if rat_lt(hi, x) {
        hi
    } else {
        x
    }
}

/// `|a| <= v`, stated linearly over the representation.
pub open spec fn rat_val_bounded(a: Rat, v: int) -> bool {
    -(v * a.d) <= a.n <= v * a.d
}

pub open spec fn fits_i128(n: int) -> bool {
    i128::MIN <= n <= i128::MAX
}

/// Executable rational number: `num / den` with `den > 0`.
#[derive(Clone, Copy, Debug, PartialEq, Eq, Structural)]
pub struct Frac {
    pub num: i128,
    pub den: i128,
}

impl View for Frac {
    type V = Rat;

    open spec fn view(&self) -> Rat {
        Rat { n: self.num as int, d: self.den as int }
    }
}

proof fn lemma_pos_mul(a: int, b: int)
    by (nonlinear_arith)
    requires
        0 < a,
        0 < b,
    ensures
        0 < a * b,
{
}

/// Magnitude of a product from the magnitudes of its factors.
pub proof fn lemma_mag_mul(a: int, b: int, ma: int, mb: int)
    by (nonlinear_arith)
    requires
        -ma <= a <= ma,
        -mb <= b <= mb,
    ensures
        -(ma * mb) <= a * b <= ma * mb,
{
}

/// A product of positives is positive and bounded by the product of bounds.
pub proof fn lemma_pos_mul_bound(a: int, b: int, da: int, db: int)
    by (nonlinear_arith)
    requires
        0 < a <= da,
        0 < b <= db,
    ensures
        0 < a * b <= da * db,
{
}

proof fn lemma_le_trans_raw(an: int, ad: int, bn: int, bd: int, cn: int, cd: int)
    by (nonlinear_arith)
    requires
        ad > 0,
        bd > 0,
        cd > 0,
        an * bd <= bn * ad,
        bn * cd <= cn * bd,
    ensures
        an * cd <= cn * ad,
{
}

/// Ordering of rationals is transitive.
pub proof fn lemma_rat_le_trans(a: Rat, b: Rat, c: Rat)
    requires
        a.d > 0,
        b.d > 0,
        c.d > 0,
        rat_le(a, b),
        rat_le(b, c),
    ensures
        rat_le(a, c),
{
    lemma_le_trans_raw(a.n, a.d, b.n, b.d, c.n, c.d);
}

/// Two equal rationals compare the same way against any third.
pub proof fn lemma_rat_eq_le(a: Rat, b: Rat, c: Rat)
    by (nonlinear_arith)
    requires
        a.d > 0,
        b.d > 0,
        c.d > 0,
        a.n * b.d == b.n * a.d,
    ensures
        (a.n * c.d <= c.n * a.d) == (b.n * c.d <= c.n * b.d),
        (c.n * a.d <= a.n * c.d) == (c.n * b.d <= b.n * c.d),
{
}

/// A value squeezed between `-hi` and `hi` inherits `hi`'s bound.
pub proof fn lemma_val_from_between(r: Rat, hi: Rat, v: int)
    by (nonlinear_arith)
    requires
        r.d > 0,
        hi.d > 0,
        0 <= v,
        -hi.n * r.d <= r.n * hi.d,
        r.n * hi.d <= hi.n * r.d,
        hi.n <= v * hi.d,
    ensures
        rat_val_bounded(r, v),
{
}

/// Triangle bound: `|a - b| <= |a| + |b|` over explicit value bounds.
pub proof fn lemma_val_sub(a: Rat, b: Rat, va: int, vb: int)
    by (nonlinear_arith)
    requires
        a.d > 0,
        b.d > 0,
        0 <= va,
        0 <= vb,
        rat_val_bounded(a, va),
        rat_val_bounded(b, vb),
    ensures
        rat_val_bounded(rat_sub(a, b), va + vb),
        rat_val_bounded(rat_add(a, b), va + vb),
{
}

/// The value bound of a product is the product of the value bounds.
pub proof fn lemma_val_mul(a: Rat, b: Rat, va: int, vb: int)
    by (nonlinear_arith)
    requires
        a.d > 0,
        b.d > 0,
        0 <= va,
        0 <= vb,
        rat_val_bounded(a, va),
        rat_val_bounded(b, vb),
    ensures
        rat_val_bounded(rat_mul(a, b), va * vb),
{
}

/// Shifting by an integer `k` shifts the value bound by `|k|`.
pub proof fn lemma_val_add_int(a: Rat, k: int, va: int, mk: int)
    by (nonlinear_arith)
    requires
        a.d > 0,
        0 <= va,
        -mk <= k <= mk,
        rat_val_bounded(a, va),
    ensures
        rat_val_bounded(rat_add_int(a, k), va + mk),
{
}

/// Multiplying a non-negative rational by one that is at least 1 cannot
/// shrink it.
pub proof fn lemma_rat_mul_ge_one(a: Rat, z: Rat)
    by (nonlinear_arith)
    requires
        a.d > 0,
        z.d > 0,
        0 <= a.n,
        rat_le(rat_int(1), z),
    ensures
        rat_le(a, rat_mul(a, z)),
{
}

/// `k * (a / k) == a` for positive integer `k`.
pub proof fn lemma_rat_mul_div_cancel(a: Rat, k: int)
    by (nonlinear_arith)
    requires
        a.d > 0,
        k > 0,
    ensures
        rat_eq(rat_mul(rat_int(k), rat_div(a, rat_int(k))), a),
{
}

/// `(a * h) / h == a` for positive `h`.
pub proof fn lemma_rat_mul_div_cancel_right(a: Rat, h: Rat)
    by (nonlinear_arith)
    requires
        a.d > 0,
        h.d > 0,
        0 < h.n,
    ensures
        rat_eq(rat_div(rat_mul(a, h), h), a),
{
}

/// Dividing a positive rational by a larger positive divisor gives a smaller
/// quotient.
pub proof fn lemma_rat_div_antitone(f: Rat, z1: Rat, z2: Rat)
    by (nonlinear_arith)
    requires
        f.d > 0,
        0 < f.n,
        z1.d > 0,
        z2.d > 0,
        0 < z1.n,
        0 < z2.n,
        rat_lt(z1, z2),
    ensures
        rat_lt(rat_div(f, z2), rat_div(f, z1)),
{
}

/// Doubling the half of a rational gives back an equal rational.
pub proof fn lemma_rat_double_half(a: Rat)
    by (nonlinear_arith)
    ensures
        rat_eq(rat_mul_int(rat_half(a), 2), a),
{
}

/// `-|w| <= |w|`, and `|w|` shares `w`'s denominator and value bound.
pub proof fn lemma_neg_abs_le(w: Rat, v: int)
    by (nonlinear_arith)
    requires
        w.d > 0,
        0 <= v,
        rat_val_bounded(w, v),
    ensures
        rat_le(rat_neg(rat_abs(w)), rat_abs(w)),
        0 <= rat_abs(w).n,
        rat_abs(w).d == w.d,
        rat_val_bounded(rat_abs(w), v),
        rat_val_bounded(rat_neg(rat_abs(w)), v),
{
}

/// Halving a rational halves its value bound.
pub proof fn lemma_val_half(a: Rat, v: int)
    by (nonlinear_arith)
    requires
        a.d > 0,
        0 <= v,
        rat_val_bounded(a, 2 * v),
    ensures
        rat_val_bounded(rat_half(a), v),
{
}

/// Multiplying both sides by a non-negative rational keeps the order.
pub proof fn lemma_rat_mul_le_mono(a: Rat, b: Rat, c: Rat)
    by (nonlinear_arith)
    requires
        a.d > 0,
        b.d > 0,
        c.d > 0,
        0 <= c.n,
        a.n * b.d <= b.n * a.d,
    ensures
        rat_le(rat_mul(a, c), rat_mul(b, c)),
        rat_le(rat_mul(c, a), rat_mul(c, b)),
{
}

/// Multiplying both sides by a positive rational keeps strict order.
pub proof fn lemma_rat_mul_lt_mono(a: Rat, b: Rat, c: Rat)
    by (nonlinear_arith)
    requires
        a.d > 0,
        b.d > 0,
        c.d > 0,
        0 < c.n,
        a.n * b.d < b.n * a.d,
    ensures
        rat_lt(rat_mul(a, c), rat_mul(b, c)),
        rat_lt(rat_mul(c, a), rat_mul(c, b)),
{
}

impl Frac {
    pub open spec fn wf(self) -> bool {
        self.den > 0
    }

    pub fn new(num: i128, den: i128) -> (r: Frac)
        requires
            den > 0,
        ensures
            r.wf(),
            r@ == (Rat { n: num as int, d: den as int }),
    {
        Frac { num, den }
    }

    pub fn from_int(n: i64) -> (r: Frac)
        ensures
            r.wf(),
            r@ == rat_int(n as int),
    {
        Frac { num: n as i128, den: 1 }
    }

    pub fn plus(&self, other: &Frac) -> (r: Frac)
        requires
            self.wf(),
            other.wf(),
            fits_i128(self.num * other.den),
            fits_i128(other.num * self.den),
            fits_i128(self.num * other.den + other.num * self.den),
            fits_i128(self.den * other.den),
        ensures
            r.wf(),
            r@ == rat_add(self@, other@),
    {
        proof {
            lemma_pos_mul(self.den as int, other.den as int);
        }
        Frac { num: self.num * other.den + other.num * self.den, den: self.den * other.den }
    }

    pub fn minus(&self, other: &Frac) -> (r: Frac)
        requires
            self.wf(),
            other.wf(),
            fits_i128(self.num * other.den),
            fits_i128(other.num * self.den),
            fits_i128(self.num * other.den - other.num * self.den),
            fits_i128(self.den * other.den),
        ensures
            r.wf(),
            r@ == rat_sub(self@, other@),
    {
        proof {
            lemma_pos_mul(self.den as int, other.den as int);
        }
        Frac { num: self.num * other.den - other.num * self.den, den: self.den * other.den }
    }

    pub fn times(&self, other: &Frac) -> (r: Frac)
        requires
            self.wf(),
            other.wf(),
            fits_i128(self.num * other.num),
            fits_i128(self.den * other.den),
        ensures
            r.wf(),
            r@ == rat_mul(self@, other@),
    {
        proof {
            lemma_pos_mul(self.den as int, other.den as int);
        }
        Frac { num: self.num * other.num, den: self.den * other.den }
    }

    pub fn divided_by(&self, other: &Frac) -> (r: Frac)
        requires
            self.wf(),
            other.wf(),
            other.num != 0,
            fits_i128(-(other.num as int)),
            fits_i128(self.num * other.den),
            fits_i128(-(self.num * other.den)),
            fits_i128(self.den * other.num),
            fits_i128(-(self.den * other.num)),
        ensures
            r.wf(),
            r@ == rat_div(self@, other@),
    {
        let n: i128 = self.num * other.den;
        if other.num < 0 {
            proof {
                lemma_pos_mul(self.den as int, -(other.num as int));
                assert(self.den as int * -(other.num as int) == -(self.den as int
                    * other.num as int)) by (nonlinear_arith);
            }
            Frac { num: -n, den: self.den * -other.num }
        } else {
            proof {
                lemma_pos_mul(self.den as int, other.num as int);
            }
            Frac { num: n, den: self.den * other.num }
        }
    }

    pub fn plus_int(&self, k: i64) -> (r: Frac)
        requires
            self.wf(),
            fits_i128(k * self.den),
            fits_i128(self.num + k * self.den),
        ensures
            r.wf(),
            r@ == rat_add_int(self@, k as int),
    {
        Frac { num: self.num + (k as i128) * self.den, den: self.den }
    }

    pub fn times_int(&self, k: i64) -> (r: Frac)
        requires
            self.wf(),
            fits_i128(self.num * k),
        ensures
            r.wf(),
            r@ == rat_mul_int(self@, k as int),
    {
        Frac { num: self.num * (k as i128), den: self.den }
    }

    pub fn half(&self) -> (r: Frac)
        requires
            self.wf(),
            fits_i128(self.den * 2),
        ensures
            r.wf(),
            r@ == rat_half(self@),
    {
        Frac { num: self.num, den: self.den * 2 }
    }

    pub fn negated(&self) -> (r: Frac)
        requires
            self.wf(),
            fits_i128(-(self.num as int)),
        ensures
            r.wf(),
            r@ == rat_neg(self@),
    {
        Frac { num: -self.num, den: self.den }
    }

    pub fn abs_frac(&self) -> (r: Frac)
        requires
            self.wf(),
            fits_i128(-(self.num as int)),
        ensures
            r.wf(),
            r@ == rat_abs(self@),
    {
        if self.num < 0 {
            Frac { num: -self.num, den: self.den }
        } else {
            *self
        }
    }

    pub fn le(&self, other: &Frac) -> (r: bool)
        requires
            self.wf(),
            other.wf(),
            fits_i128(self.num * other.den),
            fits_i128(other.num * self.den),
        ensures
            r == rat_le(self@, other@),
    {
        self.num * other.den <= other.num * self.den
    }

    pub fn lt(&self, other: &Frac) -> (r: bool)
        requires
            self.wf(),
            other.wf(),
            fits_i128(self.num * other.den),
            fits_i128(other.num * self.den),
        ensures
            r == rat_lt(self@, other@),
    {
        self.num * other.den < other.num * self.den
    }

    pub fn eq_rat(&self, other: &Frac) -> (r: bool)
        requires
            self.wf(),
            other.wf(),
            fits_i128(self.num * other.den),
            fits_i128(other.num * self.den),
        ensures
            r == rat_eq(self@, other@),
    {
        self.num * other.den == other.num * self.den
    }

    pub fn min_of(&self, other: &Frac) -> (r: Frac)
        requires
            self.wf(),
            other.wf(),
            fits_i128(self.num * other.den),
            fits_i128(other.num * self.den),
        ensures
            r.wf(),
            r@ == rat_min(self@, other@),
    {
        if self.le(other) {
            *self
        } else {
            *other
        }
    }

    pub fn max_of(&self, other: &Frac) -> (r: Frac)
        requires
            self.wf(),
            other.wf(),
            fits_i128(self.num * other.den),
            fits_i128(other.num * self.den),
        ensures
            r.wf(),
            r@ == rat_max(self@, other@),
    {
        if self.le(other) {
            *other
        } else {
            *self
        }
    }

    pub fn clamp_to(&self, lo: &Frac, hi: &Frac) -> (r: Frac)
        requires
            self.wf(),
            lo.wf(),
            hi.wf(),
            rat_le(lo@, hi@),
            fits_i128(self.num * lo.den),
            fits_i128(lo.num * self.den),
            fits_i128(self.num * hi.den),
            fits_i128(hi.num * self.den),
        ensures
            r.wf(),
            r@ == rat_clamp(self@, lo@, hi@),
            rat_le(lo@, r@),
            rat_le(r@, hi@),
            !rat_lt(self@, lo@) && !rat_lt(hi@, self@) ==> r == *self,
    {
        if self.lt(lo) {
            *lo
        } else if hi.lt(self) {
            *hi
        } else {
            *self
        }
    }
}

} // verus!
