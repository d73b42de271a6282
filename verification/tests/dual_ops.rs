// Exercises the dual-number library over a 64-bit IEEE-754 scalar: the
// wrapper type `W` below implements the library's scalar capability
// profile with ordinary f64 arithmetic.

use fwd_ad::instanciations::Owning;
use fwd_ad::traits::Scalar;
use fwd_ad::Dual;
use fwd_ad::RW;

#[derive(Debug, Clone, Copy, PartialEq)]
struct W(f64);

impl Scalar for W {
    // The specification-level names, erased under verification, coincide
    // for this implementation with the executable operations themselves.
    fn add_sp(self, o: Self) -> Self {
        W(self.0 + o.0)
    }

    fn sub_sp(self, o: Self) -> Self {
        W(self.0 - o.0)
    }

    fn mul_sp(self, o: Self) -> Self {
        W(self.0 * o.0)
    }

    fn div_sp(self, o: Self) -> Self {
        W(self.0 / o.0)
    }

    fn neg_sp(self) -> Self {
        W(-self.0)
    }

    fn abs_sp(self) -> Self {
        W(self.0.abs())
    }

    fn exp_sp(self) -> Self {
        W(self.0.exp())
    }

    fn exp2_sp(self) -> Self {
        W(self.0.exp2())
    }

    fn ln_sp(self) -> Self {
        W(self.0.ln())
    }

    fn powf_sp(self, e: Self) -> Self {
        W(self.0.powf(e.0))
    }

    fn le_sp(self, o: Self) -> bool {
        self.0 <= o.0
    }

    fn lt_sp(self, o: Self) -> bool {
        self.0 < o.0
    }

    fn eq_sp(self, o: Self) -> bool {
        self.0 == o.0
    }

    fn zero_sp() -> Self {
        W(0.0)
    }

    fn one_sp() -> Self {
        W(1.0)
    }

    fn ln2_sp() -> Self {
        W(std::f64::consts::LN_2)
    }

    // IEEE-754 negation only flips the sign bit, so it is involutive.
    fn neg_involutive(_a: Self) {
    }

    fn add(self, o: Self) -> Self {
        W(self.0 + o.0)
    }

    fn sub(self, o: Self) -> Self {
        W(self.0 - o.0)
    }

    fn mul(self, o: Self) -> Self {
        W(self.0 * o.0)
    }

    fn div(self, o: Self) -> Self {
        W(self.0 / o.0)
    }

    fn neg(self) -> Self {
        W(-self.0)
    }

    fn abs(self) -> Self {
        W(self.0.abs())
    }

    fn exp(self) -> Self {
        W(self.0.exp())
    }

    fn exp2(self) -> Self {
        W(self.0.exp2())
    }

    fn ln(self) -> Self {
        W(self.0.ln())
    }

    fn powf(self, e: Self) -> Self {
        W(self.0.powf(e.0))
    }

    fn le(self, o: Self) -> bool {
        self.0 <= o.0
    }

    fn lt(self, o: Self) -> bool {
        self.0 < o.0
    }

    fn eq_val(self, o: Self) -> bool {
        self.0 == o.0
    }

    fn zero() -> Self {
        W(0.0)
    }

    fn one() -> Self {
        W(1.0)
    }

    fn ln_2() -> Self {
        W(std::f64::consts::LN_2)
    }
}

fn w(xs: &[f64]) -> Vec<W> {
    xs.iter().map(|x| W(*x)).collect()
}

fn generate() -> Owning<W> {
    let mut x = Owning::<W>::constant(W(42.0), 3);
    x.set_diff(0, W(17.0));
    x.set_diff(2, W(-7.0));
    x
}

fn generate_pair() -> (Owning<W>, Owning<W>) {
    let mut y = Owning::<W>::constant(W(42.0), 3);
    let mut x = Owning::<W>::constant(W(42.0), 3);
    x.set_diff(0, W(17.0));
    y.set_diff(1, W(-1.0));
    x.set_diff(2, W(-7.0));
    y.set_diff(2, W(13.0));
    (x, y)
}

#[test]
fn test_constant() {
    let x = Owning::<W>::constant(W(42.0), 2);
    assert_eq!(x, Owning::<W>::from(w(&[42.0, 0.0, 0.0])));
}

#[test]
fn test_size() {
    let x = Owning::<W>::constant(W(0.0), 42);
    assert_eq!(x.ndiffs(), 42);
}

#[test]
fn test_neg() {
    let x = generate();
    assert_eq!(x.clone().neg().neg(), x);
}

#[test]
fn test_ln_exp() {
    let x = generate();
    assert!(x.clone().is_close(&x.clone().exp().ln(), W(1e-8)));
    assert!(x.clone().is_close(&x.clone().ln().exp(), W(1e-8)));
}

#[test]
fn test_diff_add_mul() {
    let mut x = Owning::<W>::constant(W(42.0), 2);
    let mut y = Owning::<W>::constant(W(17.0), 2);
    x.set_diff(0, W(1.0));
    y.set_diff(1, W(1.0));
    let res = x.add(&y).mul(&y);
    assert_eq!(
        res,
        Owning::<W>::from(w(&[(42.0 + 17.0) * 17.0, 17.0, 2.0 * 17.0 + 42.0]))
    );
}

#[test]
fn test_diff_div() {
    let mut x = Owning::<W>::constant(W(42.0), 2);
    let mut y = Owning::<W>::constant(W(17.0), 2);
    x.set_diff(0, W(1.0));
    y.set_diff(1, W(1.0));
    let res = x.div(&y);
    assert_eq!(
        res,
        Owning::<W>::from(w(&[42.0 / 17.0, 1.0 / 17.0, -42.0 / (17.0 * 17.0)]))
    );
}

#[test]
fn test_diff_div_inv() {
    let (x, y) = generate_pair();
    let res1 = x.clone().div(&y.view());
    let res2 = x.mul(&y.inv());
    assert!(res1.is_close(&res2, W(1e-8)));
}

#[test]
fn test_powf() {
    let (x, y) = generate_pair();
    let res1 = x.clone().mul(&x.view());
    let res2 = x.powf(W(2.0));
    assert!(res1.is_close(&res2, W(1e-8)));
    let res3 = y.clone().inv();
    let res4 = y.powf(W(-1.0));
    assert!(res3.is_close(&res4, W(1e-8)));
}

#[test]
fn impl_ops_dual_test_diff_subneg() {
    let mut x = Owning::<W>::constant(W(42.0), 2);
    let mut y = Owning::<W>::constant(W(17.0), 2);
    x.set_diff(0, W(1.0));
    y.set_diff(1, W(1.0));
    assert_eq!(x.clone().sub(&y.view()), x.add(&y.neg()));
}

#[test]
fn test_powd() {
    let x: Dual<_, RW, W> = Owning::<W>::from(w(&[3.0, 1.0]));
    assert!(x.clone().powdual(x).is_close(
        &Owning::<W>::from(w(&[27.0, 27.0 * (3.0_f64.ln() + 1.0)])),
        W(1e-8)
    ));
}

#[test]
fn test_scalar_rhs_add_mul() {
    let mut x = Owning::<W>::constant(W(42.0), 2);
    let y = Owning::<W>::constant(W(17.0), 2);
    x.set_diff(0, W(0.0));
    x.set_diff(1, W(1.0));
    assert_eq!(
        x.clone().add(&y).mul(&y),
        x.add_scalar(W(17.0)).mul_scalar(W(17.0))
    );
}

#[test]
fn test_scalar_rhs_div() {
    let mut x = Owning::<W>::constant(W(42.0), 2);
    let y = Owning::<W>::constant(W(17.0), 2);
    x.set_diff(0, W(0.0));
    x.set_diff(1, W(1.0));
    assert_eq!(x.clone().div(&y), x.div_scalar(W(17.0)));
}

#[test]
fn impl_ops_scalar_rhs_test_diff_subneg() {
    let mut x = Owning::<W>::constant(W(42.0), 2);
    let y = Owning::<W>::constant(W(17.0), 2);
    x.set_diff(0, W(0.0));
    x.set_diff(1, W(1.0));
    assert_eq!(x.clone().sub(&y), x.sub_scalar(W(17.0)));
}

#[test]
fn test_diff_subneg2() {
    let mut x = Owning::<W>::constant(W(42.0), 2);
    let y = Owning::<W>::constant(W(17.0), 2);
    x.set_diff(0, W(0.0));
    x.set_diff(1, W(1.0));
    assert_eq!(y.sub(&x.view()), x.sub_from_scalar(W(17.0)));
}

#[test]
fn test_mismatch_add_refused() {
    let y = Owning::<W>::constant(W(42.0), 3);
    let yv = y.view();
    let mut x = Owning::<W>::constant(W(42.0), 2);
    let before = x.clone();
    assert!(!x.try_add_assign(&yv));
    assert_eq!(x, before);
}

#[test]
fn test_mismatch_all_ops_refused() {
    let y = Owning::<W>::constant(W(1.0), 1);
    let mut x = Owning::<W>::constant(W(2.0), 2);
    let before = x.clone();
    assert!(!x.try_sub_assign(&y));
    assert!(!x.try_mul_assign(&y));
    assert!(!x.try_div_assign(&y));
    assert_eq!(x, before);
}

#[test]
fn test_matching_try_add() {
    let mut x = Owning::<W>::from(w(&[1.0, 2.0]));
    let y = Owning::<W>::from(w(&[10.0, 20.0]));
    assert!(x.try_add_assign(&y));
    assert_eq!(x, Owning::<W>::from(w(&[11.0, 22.0])));
}

#[test]
fn test_powdual_zero_base() {
    let x = Owning::<W>::from(w(&[0.0, 5.0, -3.0]));
    let y = Owning::<W>::from(w(&[2.0, 1.0, 1.0]));
    let res = x.powdual(y);
    assert_eq!(res, Owning::<W>::from(w(&[0.0, 0.0, 0.0])));
}

#[test]
fn test_powdual_zero_base_negative_exponent() {
    let x = Owning::<W>::from(w(&[0.0, 1.0]));
    let y = Owning::<W>::from(w(&[-1.0, 0.0]));
    let res = x.powdual(y);
    assert_eq!(res, Owning::<W>::from(w(&[0.0, 0.0])));
}

#[test]
fn test_powdual_inv() {
    let x = generate();
    let minus_one = Owning::<W>::constant(W(-1.0), 3);
    let res1 = x.clone().powdual(minus_one);
    let res2 = x.inv();
    assert!(res1.is_close(&res2, W(1e-8)));
}

#[test]
fn test_mul_constant_equals_scalar_mul() {
    let mut x = Owning::<W>::constant(W(5.0), 2);
    x.set_diff(0, W(1.0));
    let c = Owning::<W>::constant(W(3.0), 2);
    assert_eq!(x.clone().mul(&c), x.mul_scalar(W(3.0)));
}

#[test]
fn test_exp2_exp_base_agree() {
    let x = generate();
    let res1 = x.clone().exp2();
    let res2 = x.clone().exp_base(W(2.0));
    assert!(res1.is_close(&res2, W(1e-8)));
    assert!((res1.val().0 - 42.0_f64.exp2()).abs() <= 1e-8 * 42.0_f64.exp2());
}

#[test]
fn test_exp_values_exact_at_zero() {
    let mut x = Owning::<W>::constant(W(0.0), 1);
    x.set_diff(0, W(3.0));
    let res = x.exp();
    assert_eq!(res, Owning::<W>::from(w(&[1.0, 3.0])));
}

#[test]
fn test_ln_at_one() {
    let mut x = Owning::<W>::constant(W(1.0), 1);
    x.set_diff(0, W(2.0));
    let res = x.ln();
    assert_eq!(res, Owning::<W>::from(w(&[0.0, 2.0])));
}

#[test]
fn test_abs_negative_value() {
    let x = Owning::<W>::from(w(&[-3.0, 1.0, -2.0]));
    assert_eq!(x.abs(), Owning::<W>::from(w(&[3.0, -1.0, 2.0])));
}

#[test]
fn test_abs_zero_keeps_positive_branch() {
    let x = Owning::<W>::from(w(&[0.0, 1.0, -2.0]));
    assert_eq!(x.clone().abs(), x);
}

#[test]
fn test_accessors() {
    let d = Owning::<W>::from(w(&[17.0, 1.0, 2.0]));
    assert_eq!(d.val(), W(17.0));
    assert_eq!(d.diffs(), &[W(1.0), W(2.0)]);
    assert_eq!(d.ndiffs(), 2);
    assert_eq!(d.as_slice()[0], d.val());
}

#[test]
fn test_view_and_to_owning() {
    let d = Owning::<W>::from(w(&[17.0, 1.0, 2.0]));
    let v = d.view();
    assert_eq!(v.val(), W(17.0));
    assert_eq!(v.ndiffs(), 2);
    let o = v.to_owning();
    assert_eq!(o, d);
}

#[test]
fn test_is_close_tolerances() {
    let d1 = Owning::<W>::from(w(&[17.0, 1.0, 2.0]));
    let d2 = Owning::<W>::from(w(&[17.0 + 1e-10, 1.0 - 1e-10, 2.0]));
    assert!(d1.is_close(&d2, W(1e-9)));
    assert!(!d1.is_close(&d2, W(1e-11)));
}

#[test]
fn test_array_backed_constant() {
    let x = fwd_ad::instanciations::OwningArr::<W, 3>::constant(W(42.0), 2);
    assert_eq!(x.ndiffs(), 2);
    assert_eq!(x.val(), W(42.0));
    assert_eq!(x.diffs(), &[W(0.0), W(0.0)]);
    let o = x.to_owning();
    assert_eq!(o.ndiffs(), 2);
}

#[test]
fn test_sub_into_div_into() {
    let (x, y) = generate_pair();
    let r1 = x.view().sub_into(y.clone());
    let r2 = x.clone().sub(&y);
    assert_eq!(r1, r2);
    let r3 = x.view().div_into(y.clone());
    let r4 = x.div(&y);
    assert_eq!(r3, r4);
}

#[test]
fn test_exp2_exact() {
    let mut x = Owning::<W>::constant(W(3.0), 1);
    x.set_diff(0, W(1.0));
    let e = 3.0_f64.exp2();
    assert_eq!(
        x.exp2(),
        Owning::<W>::from(w(&[e, std::f64::consts::LN_2 * e]))
    );
}

#[test]
fn test_inv_exact() {
    let x = Owning::<W>::from(w(&[2.0, 1.0]));
    assert_eq!(x.inv(), Owning::<W>::from(w(&[0.5, -0.25])));
}

#[test]
fn test_powf_exact() {
    let x = Owning::<W>::from(w(&[2.0, 1.0]));
    assert_eq!(x.powf(W(2.0)), Owning::<W>::from(w(&[4.0, 4.0])));
}

#[test]
fn test_no_tracked_variables() {
    let x = Owning::<W>::constant(W(5.0), 0);
    assert_eq!(x.ndiffs(), 0);
    assert_eq!(x.clone().exp().val(), W(5.0_f64.exp()));
    assert_eq!(x.clone().mul(&x), Owning::<W>::from(w(&[25.0])));
}

#[test]
fn test_diffs_mut() {
    let mut d = Owning::<W>::from(w(&[17.0, 0.0, 0.0]));
    *d.diffs_mut(0) = W(-1.0);
    assert_eq!(d, Owning::<W>::from(w(&[17.0, -1.0, 0.0])));
}

#[test]
fn test_generate_duals_basis() {
    let duals = fwd_ad::generate_duals::generate_duals(&w(&[17.0, 42.0]));
    assert_eq!(duals.len(), 2);
    assert_eq!(duals[0], Owning::<W>::from(w(&[17.0, 1.0, 0.0])));
    assert_eq!(duals[1], Owning::<W>::from(w(&[42.0, 0.0, 1.0])));
    assert_eq!(duals[0].view().diffs()[0], W(1.0));
    assert_eq!(duals[1].view().diffs()[0], W(0.0));
}

#[test]
fn test_val_mut() {
    let mut d = Owning::<W>::from(w(&[17.0, 0.0, 0.0]));
    *d.val_mut() = W(42.0);
    assert_eq!(d, Owning::<W>::from(w(&[42.0, 0.0, 0.0])));
}
