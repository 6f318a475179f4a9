use confidential_transfer::babyjub::{AssignedPoint, BabyJubConfig, Point};
use confidential_transfer::bits::num_to_bits;
use confidential_transfer::error::Error;
use confidential_transfer::field::FieldElement;
use confidential_transfer::keys::PrivateKey;

fn fe(v: u64) -> FieldElement {
    FieldElement::from_u64(v)
}

fn limbs(l: [u64; 4]) -> FieldElement {
    FieldElement::from_limbs(l[0], l[1], l[2], l[3])
}

fn assert_point(p: &AssignedPoint, x: [u64; 4], y: [u64; 4]) {
    assert_eq!(p.x.to_bytes(), limbs(x).to_bytes());
    assert_eq!(p.y.to_bytes(), limbs(y).to_bytes());
}

fn same(p: &AssignedPoint, q: &AssignedPoint) -> bool {
    p.x.to_bytes() == q.x.to_bytes() && p.y.to_bytes() == q.y.to_bytes()
}

const BASE_X: [u64; 4] =
    [0x2893f3f6bb957051, 0x2ab8d8010534e0b6, 0x4eacb2e09d6277c1, 0x0bb77a6ad63e739b];
const BASE_Y: [u64; 4] =
    [0x4b3c257a872d7d8b, 0xfce0051fb9e13377, 0x25572e1cd16bf9ed, 0x25797203f7a0b249];
const TWICE_X: [u64; 4] =
    [0xeb9fdcd5f81dd902, 0x1133cfca4f558b5f, 0x82f2d227e35b846b, 0x162d7e417903fa1c];
const TWICE_Y: [u64; 4] =
    [0x8e1705402b6d6853, 0x67a892296f104318, 0x8b9ebeaf848a1da0, 0x01666cafbf0a30da];
const THRICE_X: [u64; 4] =
    [0x00fcb4ab70477e3e, 0x33c947ad93695b80, 0x37e887c8234dcf7c, 0x061c1436d1c30080];
const THRICE_Y: [u64; 4] =
    [0xa9e4631b43fd7c95, 0xc1b4df71eff3f46b, 0x4494f25889f9319c, 0x21d66f0e2295ae95];
const FIVE_X: [u64; 4] =
    [0xfb443e1860e1fbe4, 0xdde68cd35c79c8b9, 0xf3e459a258f5ded2, 0x1961ff2315812fd2];
const FIVE_Y: [u64; 4] =
    [0xfccfffe7102a9c6a, 0xd98c866783f0d81f, 0xe8db5485973124fd, 0x217d990737cc33ef];
const KEY_X: [u64; 4] =
    [0x7fc2ccc1f2c5b588, 0x73e1ee0873a362d9, 0xbcd9a204354a4598, 0x2332011090130807];
const KEY_Y: [u64; 4] =
    [0xb03da1e58b9a542e, 0x982f5caf0b298328, 0x639f53155bee484c, 0x03a37a8623ff0aa6];

#[test]
fn base_point_has_the_standard_coordinates() {
    let ecc = BabyJubConfig::new();
    assert_point(&ecc.load_base_point(), BASE_X, BASE_Y);
}

#[test]
fn base_point_and_identity_are_on_the_curve() {
    let ecc = BabyJubConfig::new();
    let g = ecc.load_base_point();
    assert!(ecc.load_point_checked(&Point::new(g.x, g.y)).is_ok());
    assert!(ecc.load_point_checked(&Point::new(fe(0), fe(1))).is_ok());
}

#[test]
fn load_point_checked_rejects_one_one() {
    let ecc = BabyJubConfig::new();
    let bad = Point::new(fe(1), fe(1));
    assert_eq!(ecc.load_point_checked(&bad).err(), Some(Error::PointNotOnCurve));
    // unchecked loading takes it as it is
    let loaded = ecc.load_point_unchecked(&bad);
    assert!(loaded.x.is_equal(&fe(1)));
    assert!(loaded.y.is_equal(&fe(1)));
}

#[test]
fn load_point_checked_rejects_a_shifted_base_point() {
    let ecc = BabyJubConfig::new();
    let g = ecc.load_base_point();
    let shifted = Point::new(g.x.add(&fe(1)), g.y);
    assert_eq!(ecc.load_point_checked(&shifted).err(), Some(Error::PointNotOnCurve));
}

#[test]
fn add_follows_the_addition_law() {
    let ecc = BabyJubConfig::new();
    let g = ecc.load_base_point();
    let twice = ecc.add(&g, &g).unwrap();
    assert_point(&twice, TWICE_X, TWICE_Y);
    let thrice = ecc.add(&twice, &g).unwrap();
    assert_point(&thrice, THRICE_X, THRICE_Y);
    let five = ecc.add(&thrice, &twice).unwrap();
    assert_point(&five, FIVE_X, FIVE_Y);
}

#[test]
fn add_with_the_identity_changes_nothing() {
    let ecc = BabyJubConfig::new();
    let g = ecc.load_base_point();
    let o = ecc.load_identity();
    assert!(same(&ecc.add(&g, &o).unwrap(), &g));
    assert!(same(&ecc.add(&o, &g).unwrap(), &g));
    assert!(same(&ecc.add(&o, &o).unwrap(), &o));
}

#[test]
fn add_stays_on_the_curve() {
    let ecc = BabyJubConfig::new();
    let g = ecc.load_base_point();
    let mut p = g;
    for _ in 0..20 {
        p = ecc.add(&p, &g).unwrap();
        assert!(ecc.load_point_checked(&Point::new(p.x, p.y)).is_ok());
    }
}

#[test]
fn add_refuses_a_zero_denominator() {
    let ecc = BabyJubConfig::new();
    // with x1 = y1 = x2 = 1 and y2 = -1/d the first denominator 1 + d*tau is zero
    let y2 = fe(0).sub(&fe(168696).invert().unwrap());
    let p = ecc.load_point_unchecked(&Point::new(fe(1), fe(1)));
    let q = ecc.load_point_unchecked(&Point::new(fe(1), y2));
    assert_eq!(ecc.add(&p, &q).err(), Some(Error::ZeroDenominator));
    // with y2 = 1/d the second denominator 1 - d*tau is zero
    let q = ecc.load_point_unchecked(&Point::new(fe(1), fe(168696).invert().unwrap()));
    assert_eq!(ecc.add(&p, &q).err(), Some(Error::ZeroDenominator));
}

#[test]
fn double_is_add_with_itself() {
    let ecc = BabyJubConfig::new();
    let g = ecc.load_base_point();
    assert_point(&ecc.double(&g).unwrap(), TWICE_X, TWICE_Y);
}

#[test]
fn is_equal_compares_both_coordinates() {
    let ecc = BabyJubConfig::new();
    let g = ecc.load_base_point();
    let twice = ecc.double(&g).unwrap();
    assert!(ecc.is_equal(&g, &g));
    assert!(!ecc.is_equal(&g, &twice));
    let same_x = ecc.load_point_unchecked(&Point::new(g.x, fe(3)));
    let same_y = ecc.load_point_unchecked(&Point::new(fe(3), g.y));
    assert!(!ecc.is_equal(&g, &same_x));
    assert!(!ecc.is_equal(&g, &same_y));
}

#[test]
fn scalar_mul_by_zero_is_the_identity() {
    let ecc = BabyJubConfig::new();
    let g = ecc.load_base_point();
    let r = ecc.scalar_mul(&g, &fe(0)).unwrap();
    assert!(r.x.is_zero());
    assert!(r.y.is_equal(&fe(1)));
    // also for a point that is not on the curve
    let p = ecc.load_point_unchecked(&Point::new(fe(1), fe(1)));
    let r = ecc.scalar_mul(&p, &fe(0)).unwrap();
    assert!(r.x.is_zero());
    assert!(r.y.is_equal(&fe(1)));
}

#[test]
fn scalar_mul_small_multiples() {
    let ecc = BabyJubConfig::new();
    let g = ecc.load_base_point();
    assert_point(&ecc.scalar_mul(&g, &fe(1)).unwrap(), BASE_X, BASE_Y);
    assert_point(&ecc.scalar_mul(&g, &fe(2)).unwrap(), TWICE_X, TWICE_Y);
    assert_point(&ecc.scalar_mul(&g, &fe(3)).unwrap(), THRICE_X, THRICE_Y);
    assert_point(&ecc.scalar_mul(&g, &fe(5)).unwrap(), FIVE_X, FIVE_Y);
}

#[test]
fn scalar_mul_by_the_subgroup_order_is_the_identity() {
    let ecc = BabyJubConfig::new();
    let g = ecc.load_base_point();
    // 2736030358979909402780800718157159386076813972158567259200215660948447373041
    let order = limbs([0x677297dc392126f1, 0xab3eedb83920ee0a, 0x370a08b6d0302b0b, 0x060c89ce5c263405]);
    let r = ecc.scalar_mul(&g, &order).unwrap();
    assert!(r.x.is_zero());
    assert!(r.y.is_equal(&fe(1)));
}

#[test]
fn scalar_mul_bits_checks_the_digits() {
    let ecc = BabyJubConfig::new();
    let g = ecc.load_base_point();
    let five = fe(5);
    let digits = num_to_bits(&five, 254);
    assert_point(&ecc.scalar_mul_bits(&g, &five, &digits).unwrap(), FIVE_X, FIVE_Y);
    // too few and too many digits
    assert_eq!(
        ecc.scalar_mul_bits(&g, &five, &num_to_bits(&five, 253)).err(),
        Some(Error::MalformedScalarDecomposition)
    );
    assert_eq!(
        ecc.scalar_mul_bits(&g, &five, &num_to_bits(&five, 255)).err(),
        Some(Error::MalformedScalarDecomposition)
    );
    // digits of another number
    assert_eq!(
        ecc.scalar_mul_bits(&g, &five, &num_to_bits(&fe(4), 254)).err(),
        Some(Error::MalformedScalarDecomposition)
    );
}

#[test]
fn key_switch_identity_on_given_values() {
    let ecc = BabyJubConfig::new();
    let g = ecc.load_base_point();
    let private = fe(123456789);
    let r = fe(987654321);
    let pk = ecc.scalar_mul(&g, &private).unwrap();
    let rand_point = ecc.scalar_mul(&g, &r).unwrap();
    let left = ecc.scalar_mul(&rand_point, &private).unwrap();
    let right = ecc.scalar_mul(&pk, &r).unwrap();
    assert!(same(&left, &right));
}

#[test]
fn to_pub_multiplies_the_base_point() {
    let key = PrivateKey::new(fe(123456789));
    assert!(key.scalar().is_equal(&fe(123456789)));
    let public = key.to_pub().unwrap();
    assert_point(&public.0, KEY_X, KEY_Y);
    let one = PrivateKey::new(fe(1)).to_pub().unwrap();
    assert_point(&one.0, BASE_X, BASE_Y);
}

#[test]
fn add_is_commutative() {
    let ecc = BabyJubConfig::new();
    let g = ecc.load_base_point();
    let twice = ecc.double(&g).unwrap();
    let five = ecc.scalar_mul(&g, &fe(5)).unwrap();
    assert!(same(&ecc.add(&twice, &five).unwrap(), &ecc.add(&five, &twice).unwrap()));
    assert!(same(&ecc.add(&g, &five).unwrap(), &ecc.add(&five, &g).unwrap()));
}

#[test]
fn add_is_associative() {
    let ecc = BabyJubConfig::new();
    let g = ecc.load_base_point();
    let p = ecc.scalar_mul(&g, &fe(11)).unwrap();
    let q = ecc.scalar_mul(&g, &fe(222)).unwrap();
    let r = ecc.scalar_mul(&g, &fe(3333)).unwrap();
    let left = ecc.add(&ecc.add(&p, &q).unwrap(), &r).unwrap();
    let right = ecc.add(&p, &ecc.add(&q, &r).unwrap()).unwrap();
    assert!(same(&left, &right));
    assert!(same(&left, &ecc.scalar_mul(&g, &fe(3566)).unwrap()));
}

#[test]
fn scalar_mul_is_repeated_addition() {
    let ecc = BabyJubConfig::new();
    let g = ecc.load_base_point();
    let mut sum = ecc.load_identity();
    for n in 0..40u64 {
        assert!(same(&ecc.scalar_mul(&g, &fe(n)).unwrap(), &sum), "multiple {}", n);
        sum = ecc.add(&sum, &g).unwrap();
    }
}

#[test]
fn scalar_mul_of_a_multiple_is_the_multiple_by_the_product() {
    let ecc = BabyJubConfig::new();
    let g = ecc.load_base_point();
    let p = ecc.scalar_mul(&g, &fe(1000003)).unwrap();
    let q = ecc.scalar_mul(&p, &fe(999983)).unwrap();
    assert!(same(&q, &ecc.scalar_mul(&g, &fe(1000003 * 999983)).unwrap()));
}
