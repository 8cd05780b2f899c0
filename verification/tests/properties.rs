use lorentz_vector::scalar_multiply_left;
use lorentz_vector::LorentzVector;

fn lv(e: f64, px: f64, py: f64, pz: f64) -> LorentzVector {
    LorentzVector { e: e.to_bits(), px: px.to_bits(), py: py.to_bits(), pz: pz.to_bits() }
}

#[test]
fn new_sets_the_components() {
    let v = LorentzVector::new((1.5f64).to_bits(), (-2.0f64).to_bits(), (0.25f64).to_bits(), (4e3f64).to_bits());
    assert_eq!(v.e, (1.5f64).to_bits());
    assert_eq!(v.px, (-2.0f64).to_bits());
    assert_eq!(v.py, (0.25f64).to_bits());
    assert_eq!(v.pz, (4e3f64).to_bits());
}

#[test]
fn default_is_the_zero_vector() {
    let d = LorentzVector::default();
    assert_eq!(d.e, (0.0f64).to_bits());
    assert_eq!(d.px, (0.0f64).to_bits());
    assert_eq!(d.py, (0.0f64).to_bits());
    assert_eq!(d.pz, (0.0f64).to_bits());
    assert_eq!(d, lv(0., 0., 0., 0.));
}

#[test]
fn equality_is_reflexive_on_finite_values() {
    let a = lv(1.5, -2.25, 3.5, 0.);
    assert_eq!(a, a);
    assert_eq!(lv(1.5, -2.25, 3.5, 0.), lv(1.5, -2.25, 3.5, 0.));
}

#[test]
fn the_two_zeros_are_equal() {
    assert_eq!(lv(0., 0., 0., 0.), lv(-0., -0., -0., -0.));
}

#[test]
fn a_nan_component_is_unequal_to_itself() {
    let n = lv(f64::NAN, 1., 2., 3.);
    assert_ne!(n, n);
    assert_ne!(n, lv(f64::NAN, 1., 2., 3.));
}

#[test]
fn different_vectors_are_unequal() {
    assert_ne!(lv(1., 2., 3., 4.), lv(1., 2., 3., 5.));
}

#[test]
fn addition_is_commutative() {
    let a = lv(0.5, -1.25, 3e10, -4.75);
    let b = lv(-2.5, 6.125, -7e-3, 8.);
    assert_eq!(a.add(&b), b.add(&a));
}

#[test]
fn subtracting_an_addend_restores_the_other() {
    let a = lv(1., 2., 3., 4.);
    let b = lv(5., 6., 7., 8.);
    assert_eq!(a.add(&b).subtract(&b), a);
}

#[test]
fn dividing_a_product_restores_the_vector() {
    let a = lv(1., 2., 3., 4.);
    let two = (2f64).to_bits();
    assert_eq!(a.scalar_multiply(two).scalar_divide(two), a);
}

#[test]
fn the_scalar_may_stand_on_either_side() {
    let a = lv(0.5, -1.25, 3e10, -4.75);
    let k = (-3.5f64).to_bits();
    assert_eq!(a.scalar_multiply(k), scalar_multiply_left(k, &a));
}

#[test]
fn in_place_forms_agree_with_value_forms() {
    let a = lv(0.5, -1.25, 3e10, -4.75);
    let b = lv(-2.5, 6.125, -7e-3, 8.);
    let k = (-3.5f64).to_bits();

    let mut x = a;
    x.add_assign(&b);
    assert_eq!(x, a.add(&b));

    let mut x = a;
    x.subtract_assign(&b);
    assert_eq!(x, a.subtract(&b));

    let mut x = a;
    x.scalar_multiply_assign(k);
    assert_eq!(x, a.scalar_multiply(k));

    let mut x = a;
    x.scalar_divide_assign(k);
    assert_eq!(x, a.scalar_divide(k));
}

#[test]
fn division_by_zero_follows_the_float_rules() {
    let a = lv(1., -2., 3., 4.);
    let zero = (0.0f64).to_bits();
    let r = a.scalar_divide(zero);
    assert_eq!(r.e, f64::INFINITY.to_bits());
    assert_eq!(r.px, f64::NEG_INFINITY.to_bits());
    assert_eq!(r.py, f64::INFINITY.to_bits());
    assert_eq!(r.pz, f64::INFINITY.to_bits());

    let z = lv(0., 1., 1., 1.);
    let s = z.scalar_divide(zero);
    assert!(f64::from_bits(s.e).is_nan());
    assert_eq!(s.px, f64::INFINITY.to_bits());

    let neg = lv(5., 0., 0., 0.);
    let t = neg.scalar_divide((-0.0f64).to_bits());
    assert_eq!(t.e, f64::NEG_INFINITY.to_bits());
}

#[test]
fn exceptional_values_propagate_through_arithmetic() {
    let a = lv(f64::MAX, 1., 2., 3.);
    let big = a.scalar_multiply((2f64).to_bits());
    assert_eq!(big.e, f64::INFINITY.to_bits());
    assert_eq!(big.px, (2f64).to_bits());

    let inf = lv(f64::INFINITY, 0., 0., 0.);
    let minus_inf = lv(f64::NEG_INFINITY, 0., 0., 0.);
    let r = inf.add(&minus_inf);
    assert!(f64::from_bits(r.e).is_nan());
    assert_eq!(r.px, (0.0f64).to_bits());
}
