//! Small arithmetic helpers: even alignment, Euclid's greatest common
//! divisor and an unsigned ratio with a nonzero denominator.

use vstd::prelude::*;
use vstd::std_specs::ops::MulSpec;
use vstd::std_specs::convert::FromSpec;

verus! {

/// The greatest common divisor, by Euclid's remainder recursion.
pub open spec fn spec_gcd(x: nat, y: nat) -> nat
    decreases y,
{
    if y == 0 {
        x
    } else {
        spec_gcd(y, x % y)
    }
}

/// `d` divides `x` (every `d` divides 0; only 0 is divided by 0).
pub open spec fn divides(d: nat, x: nat) -> bool {
    exists|k: nat| #[trigger] (d * k) == x
}

proof fn lemma_divides_rem(d: nat, x: nat, y: nat)
    requires
        y > 0,
        divides(d, x),
        divides(d, y),
    ensures
        divides(d, x % y),
{
    let a = choose|k: nat| #[trigger] (d * k) == x;
    let b = choose|k: nat| #[trigger] (d * k) == y;
    let q = x / y;
    let r = x % y;
    assert(x == q * y + r) by (nonlinear_arith)
        requires
            y > 0,
            q == x / y,
            r == x % y,
    ;
    assert(a >= q * b) by (nonlinear_arith)
        requires
            x == d * a,
            y == d * b,
            x == q * y + r,
            r >= 0,
            y > 0,
            q >= 0,
    ;
    let c: nat = (a - q * b) as nat;
    assert(d * c == r) by (nonlinear_arith)
        requires
            x == d * a,
            y == d * b,
            x == q * y + r,
            c == a - q * b,
    ;
}

proof fn lemma_divides_from_rem(d: nat, x: nat, y: nat)
    requires
        y > 0,
        divides(d, y),
        divides(d, x % y),
    ensures
        divides(d, x),
{
    let b = choose|k: nat| #[trigger] (d * k) == y;
    let c = choose|k: nat| #[trigger] (d * k) == x % y;
    let q = x / y;
    assert(x == q * y + x % y) by (nonlinear_arith)
        requires
            y > 0,
            q == x / y,
    ;
    let a: nat = q * b + c;
    assert(d * a == x) by (nonlinear_arith)
        requires
            y == d * b,
            x % y == d * c,
            x == q * y + x % y,
            a == q * b + c,
    ;
}

proof fn lemma_divides_zero(d: nat)
    ensures
        divides(d, 0),
{
    assert(d * 0 == 0);
}

proof fn lemma_divides_self(d: nat)
    ensures
        divides(d, d),
{
    assert(d * 1 == d);
}

/// `spec_gcd(x, y)` divides both `x` and `y`, and every common divisor of
/// `x` and `y` divides it: it is their greatest common divisor.
pub proof fn lemma_gcd_is_greatest_common_divisor(x: nat, y: nat)
    ensures
        divides(spec_gcd(x, y), x),
        divides(spec_gcd(x, y), y),
        forall|d: nat| divides(d, x) && divides(d, y) ==> #[trigger] divides(d, spec_gcd(x, y)),
    decreases y,
{
    if y == 0 {
        lemma_divides_self(x);
        lemma_divides_zero(x);
    } else {
        lemma_gcd_is_greatest_common_divisor(y, x % y);
        lemma_divides_from_rem(spec_gcd(y, x % y), x, y);
        assert forall|d: nat| divides(d, x) && divides(d, y) implies #[trigger] divides(
            d,
            spec_gcd(x, y),
        ) by {
            lemma_divides_rem(d, x, y);
        }
    }
}

/// `spec_gcd(x, y)` is nonzero unless both arguments are zero, and it is
/// never larger than a nonzero argument.
pub proof fn lemma_gcd_bounds(x: nat, y: nat)
    ensures
        (x > 0 || y > 0) ==> spec_gcd(x, y) > 0,
        x > 0 ==> spec_gcd(x, y) <= x,
        y > 0 ==> spec_gcd(x, y) <= y,
    decreases y,
{
    if y > 0 {
        lemma_gcd_bounds(y, x % y);
        assert(x % y < y);
        if x > 0 {
            lemma_gcd_is_greatest_common_divisor(x, y);
            let g = spec_gcd(x, y);
            let k = choose|k: nat| #[trigger] (g * k) == x;
            assert(g <= x) by (nonlinear_arith)
                requires
                    g * k == x,
                    x > 0,
                    g > 0,
            ;
        }
    }
}

/// Rounds `size` up to the next even number.
pub fn align2(size: u32) -> (r: u32)
    requires
        size < u32::MAX,
    ensures
        r % 2 == 0,
        size <= r <= size + 1,
{
    let s = size + 1;
    let r = s & !1u32;
    assert(r % 2 == 0 && s - 1 <= r && r <= s) by (bit_vector)
        requires
            r == s & !1u32,
            s > 0,
    ;
    r
}

/// Euclid's greatest common divisor of `x` and `y`; `gcd(0, 0) == 0`.
pub fn gcd(x: u32, y: u32) -> (r: u32)
    ensures
        r == spec_gcd(x as nat, y as nat),
        divides(r as nat, x as nat),
        divides(r as nat, y as nat),
        forall|d: nat| divides(d, x as nat) && divides(d, y as nat) ==> #[trigger] divides(d, r as nat),
        (x > 0 || y > 0) ==> r > 0,
{
    proof {
        lemma_gcd_is_greatest_common_divisor(x as nat, y as nat);
        lemma_gcd_bounds(x as nat, y as nat);
    }
    let mut x = x;
    let mut y = y;
    let ghost x0 = x as nat;
    let ghost y0 = y as nat;
    while y != 0
        invariant
            spec_gcd(x as nat, y as nat) == spec_gcd(x0, y0),
        decreases y,
    {
        let t = y;
        y = x % y;
        x = t;
    }
    x
}

/// An unsigned ratio `numer / denom` whose denominator is never zero.
pub struct RatioU32 {
    numer: u32,
    denom: u32,
}

impl RatioU32 {
    #[verifier::type_invariant]
    spec fn denom_nonzero(self) -> bool {
        self.denom != 0
    }

    /// The numerator.
    pub closed spec fn numer(self) -> nat {
        self.numer as nat
    }

    /// The denominator, never zero.
    pub closed spec fn denom(self) -> nat {
        self.denom as nat
    }

    /// The ratio `numer / denom`; the denominator must not be zero.
    pub fn new(numer: u32, denom: u32) -> (r: Self)
        requires
            denom != 0,
        ensures
            r.numer() == numer,
            r.denom() == denom,
    {
        RatioU32 { numer, denom }
    }

    /// The smallest integer not below the ratio.
    pub fn ceil(&self) -> (r: u32)
        ensures
            r * self.denom() >= self.numer(),
            (r - 1) * self.denom() < self.numer(),
    {
        proof {
            use_type_invariant(self);
        }
        let n = self.numer;
        let d = self.denom;
        proof {
            assert(n == (n / d) * d + n % d && n % d < d) by (nonlinear_arith)
                requires
                    d > 0,
            ;
        }
        if n % d == 0 {
            let q = n / d;
            proof {
                assert(q * d >= n && (q - 1) * d < n) by (nonlinear_arith)
                    requires
                        n == q * d + n % d,
                        n % d == 0,
                        d > 0,
                ;
            }
            q
        } else {
            let q = n / d;
            proof {
                assert(d >= 2);
                assert(q <= n / 2) by (nonlinear_arith)
                    requires
                        d >= 2,
                        q == n / d,
                ;
                assert((q + 1) * d >= n && q * d < n) by (nonlinear_arith)
                    requires
                        n == q * d + n % d,
                        0 < n % d < d,
                        d > 0,
                ;
            }
            q + 1
        }
    }

    /// The ratio times `rhs`, with the common factor of `rhs` and the
    /// denominator cancelled.
    pub open spec fn spec_times(self, rhs: u32) -> (nat, nat) {
        let g = spec_gcd(rhs as nat, self.denom());
        (self.numer() * (rhs as nat / g), self.denom() / g)
    }

    proof fn lemma_times(self, rhs: u32)
        requires
            self.denom() > 0,
        ensures
            spec_gcd(rhs as nat, self.denom()) > 0,
            self.spec_times(rhs).1 > 0,
            self.spec_times(rhs).0 * self.denom() == self.numer() * rhs * self.spec_times(rhs).1,
    {
        let d = self.denom();
        let n = self.numer();
        let r = rhs as nat;
        lemma_gcd_bounds(r, d);
        lemma_gcd_is_greatest_common_divisor(r, d);
        let g = spec_gcd(r, d);
        let a = choose|k: nat| #[trigger] (g * k) == r;
        let b = choose|k: nat| #[trigger] (g * k) == d;
        assert(r / g == a && d / g == b) by (nonlinear_arith)
            requires
                g > 0,
                g * a == r,
                g * b == d,
        ;
        assert(b > 0) by (nonlinear_arith)
            requires
                g * b == d,
                d > 0,
        ;
        assert((n * a) * d == (n * r) * b) by (nonlinear_arith)
            requires
                g * a == r,
                g * b == d,
        ;
    }
}

impl From<u32> for RatioU32 {
    fn from(numer: u32) -> (r: Self) {
        RatioU32::new(numer, 1)
    }
}

impl vstd::std_specs::convert::FromSpecImpl<u32> for RatioU32 {
    open spec fn obeys_from_spec() -> bool {
        true
    }

    closed spec fn from_spec(v: u32) -> Self {
        RatioU32 { numer: v, denom: 1 }
    }
}

impl core::ops::Mul<u32> for RatioU32 {
    type Output = RatioU32;

    fn mul(self, rhs: u32) -> (r: RatioU32) {
        proof {
            use_type_invariant(&self);
            self.lemma_times(rhs);
            lemma_gcd_bounds(rhs as nat, self.denom());
        }
        let g = gcd(rhs, self.denom);
        RatioU32::new(self.numer * (rhs / g), self.denom / g)
    }
}

impl vstd::std_specs::ops::MulSpecImpl<u32> for RatioU32 {
    open spec fn obeys_mul_spec() -> bool {
        true
    }

    open spec fn mul_req(self, rhs: u32) -> bool {
        self.spec_times(rhs).0 <= u32::MAX
    }

    closed spec fn mul_spec(self, rhs: u32) -> RatioU32 {
        RatioU32 { numer: self.spec_times(rhs).0 as u32, denom: self.spec_times(rhs).1 as u32 }
    }
}

impl RatioU32 {
    /// `RatioU32::from(v)` is `v / 1`.
    pub proof fn lemma_from_value(v: u32)
        ensures
            <RatioU32 as FromSpec<u32>>::from_spec(v).numer() == v,
            <RatioU32 as FromSpec<u32>>::from_spec(v).denom() == 1,
    {
    }

    /// The product `self * rhs` has the value `numer * rhs / denom`: its
    /// numerator times the old denominator equals the old numerator times
    /// `rhs` times its denominator, and its denominator is the old one with
    /// the common factor of `rhs` and the old denominator removed.
    pub proof fn lemma_mul_value(self, rhs: u32)
        requires
            self.denom() > 0,
            self.mul_req(rhs),
        ensures
            self.mul_spec(rhs).numer() == self.spec_times(rhs).0,
            self.mul_spec(rhs).denom() == self.spec_times(rhs).1,
            self.mul_spec(rhs).denom() > 0,
            self.mul_spec(rhs).denom() * spec_gcd(rhs as nat, self.denom()) == self.denom(),
            self.mul_spec(rhs).numer() * self.denom() == self.numer() * rhs
                * self.mul_spec(rhs).denom(),
    {
        self.lemma_times(rhs);
        let d = self.denom();
        let g = spec_gcd(rhs as nat, d);
        lemma_gcd_is_greatest_common_divisor(rhs as nat, d);
        let b = choose|k: nat| #[trigger] (g * k) == d;
        assert(d / g == b && (d / g) * g == d) by (nonlinear_arith)
            requires
                g > 0,
                g * b == d,
        ;
        assert(self.spec_times(rhs).1 <= d) by (nonlinear_arith)
            requires
                g > 0,
                self.spec_times(rhs).1 == d / g,
        ;
    }
}

} // verus!
