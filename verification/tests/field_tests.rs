use confidential_transfer::bits::{bits_to_num, num_to_bits, range_check};
use confidential_transfer::error::Error;
use confidential_transfer::field::FieldElement;

fn fe(v: u64) -> FieldElement {
    FieldElement::from_u64(v)
}

/// The modulus minus `k`.
fn below_modulus(k: u64) -> FieldElement {
    fe(0).sub(&fe(k))
}

const MODULUS_BYTES: [u8; 32] = [
    1, 0, 0, 240, 147, 245, 225, 67, 145, 112, 185, 121, 72, 232, 51, 40, 93, 88, 129, 129, 182,
    69, 80, 184, 41, 160, 49, 225, 114, 78, 100, 48,
];

#[test]
fn from_u64_encodes_little_endian() {
    let mut expected = [0u8; 32];
    expected[0] = 0x04;
    expected[1] = 0x03;
    expected[2] = 0x02;
    expected[3] = 0x01;
    assert_eq!(fe(0x01020304).to_bytes(), expected);
    assert_eq!(fe(0).to_bytes(), [0u8; 32]);
}

#[test]
fn from_bytes_accepts_only_canonical_encodings() {
    assert!(FieldElement::from_bytes(MODULUS_BYTES).is_none());
    assert!(FieldElement::from_bytes([0xff; 32]).is_none());
    let mut largest = MODULUS_BYTES;
    largest[0] = 0;
    let e = FieldElement::from_bytes(largest).unwrap();
    assert_eq!(e.to_bytes(), largest);
    assert!(e.is_equal(&below_modulus(1)));
}

#[test]
fn from_limbs_weighs_each_limb() {
    let e = FieldElement::from_limbs(5, 7, 0, 0);
    let radix = fe(1 << 32).mul(&fe(1 << 32));
    assert!(e.is_equal(&radix.mul(&fe(7)).add(&fe(5))));
    // the modulus itself reduces to zero
    let m = FieldElement::from_limbs(
        0x43e1f593f0000001,
        0x2833e84879b97091,
        0xb85045b68181585d,
        0x30644e72e131a029,
    );
    assert!(m.is_zero());
}

#[test]
fn add_is_modular() {
    assert!(fe(2).add(&fe(3)).is_equal(&fe(5)));
    assert!(below_modulus(1).add(&fe(1)).is_zero());
    assert!(below_modulus(1).add(&fe(5)).is_equal(&fe(4)));
}

#[test]
fn sub_wraps_below_zero() {
    assert!(fe(7).sub(&fe(3)).is_equal(&fe(4)));
    let wrapped = fe(10).sub(&fe(70));
    let expected = FieldElement::from_limbs(
        0x43e1f593efffffc5,
        0x2833e84879b97091,
        0xb85045b68181585d,
        0x30644e72e131a029,
    );
    assert_eq!(wrapped.to_bytes(), expected.to_bytes());
}

#[test]
fn mul_is_modular() {
    assert!(fe(6).mul(&fe(7)).is_equal(&fe(42)));
    // (p - 1)^2 == 1
    assert!(below_modulus(1).mul(&below_modulus(1)).is_equal(&fe(1)));
}

#[test]
fn invert_gives_the_inverse() {
    let inv = fe(7).invert().unwrap();
    let expected = FieldElement::from_limbs(
        0x09b290cbfdb6db6e,
        0x4ee2d80a5a8834a7,
        0xac9dc0d0edede80d,
        0x06e9c21069503b73,
    );
    assert_eq!(inv.to_bytes(), expected.to_bytes());
    assert!(inv.mul(&fe(7)).is_equal(&fe(1)));
    assert!(fe(0).invert().is_none());
}

#[test]
fn is_equal_compares_values() {
    assert!(fe(9).is_equal(&fe(9)));
    assert!(!fe(9).is_equal(&fe(10)));
    assert!(!fe(1).is_equal(&fe(256)));
    assert!(fe(0).is_zero());
    assert!(!fe(1 << 40).is_zero());
}

#[test]
fn bit_reads_each_digit() {
    let e = fe(0b1010_0000_0101);
    let set = [0usize, 2, 9, 11];
    for i in 0..256 {
        assert_eq!(e.bit(i), set.contains(&i), "digit {}", i);
    }
    // p - 1 has its top digit at 253
    assert!(below_modulus(1).bit(253));
    assert!(!below_modulus(1).bit(254));
    assert!(!below_modulus(1).bit(255));
    assert!(!below_modulus(1).bit(256));
    assert!(!below_modulus(1).bit(100_000));
}

#[test]
fn num_to_bits_is_least_significant_first() {
    assert_eq!(num_to_bits(&fe(6), 4), vec![false, true, true, false]);
    assert_eq!(num_to_bits(&fe(6), 2), vec![false, true]);
    assert_eq!(num_to_bits(&fe(6), 0), Vec::<bool>::new());
    let long = num_to_bits(&fe(1), 300);
    assert_eq!(long.len(), 300);
    assert!(long[0]);
    assert!(long[1..].iter().all(|b| !b));
}

#[test]
fn bits_to_num_sums_the_weights() {
    assert!(bits_to_num(&vec![false, true, true, false]).is_equal(&fe(6)));
    assert!(bits_to_num(&Vec::new()).is_zero());
    // 254 set digits stand for 2^254 - 1, which is reduced
    let all = vec![true; 254];
    let two_to_254 = fe(1 << 62).mul(&fe(1 << 63)).mul(&fe(1 << 63)).mul(&fe(1 << 63)).mul(&fe(8));
    assert!(bits_to_num(&all).is_equal(&two_to_254.sub(&fe(1))));
}

#[test]
fn bits_round_trip() {
    let e = below_modulus(12345);
    assert!(bits_to_num(&num_to_bits(&e, 254)).is_equal(&e));
}

#[test]
fn range_check_boundary_at_32_bits() {
    assert_eq!(range_check(&fe(0), 32), Ok(()));
    assert_eq!(range_check(&fe(1), 32), Ok(()));
    assert_eq!(range_check(&fe(0xffff_ffff), 32), Ok(()));
    assert_eq!(range_check(&fe(0x1_0000_0000), 32), Err(Error::RangeExceeded));
    assert_eq!(range_check(&fe(0x1_0000_0001), 32), Err(Error::RangeExceeded));
    assert_eq!(range_check(&fe(u64::MAX), 32), Err(Error::RangeExceeded));
}

#[test]
fn range_check_rejects_wrapped_negative_values() {
    assert_eq!(range_check(&fe(10).sub(&fe(70)), 32), Err(Error::RangeExceeded));
    assert_eq!(range_check(&below_modulus(1), 32), Err(Error::RangeExceeded));
    assert_eq!(range_check(&below_modulus(1), 253), Err(Error::RangeExceeded));
}

#[test]
fn range_check_other_widths() {
    assert_eq!(range_check(&fe(0), 0), Ok(()));
    assert_eq!(range_check(&fe(1), 0), Err(Error::RangeExceeded));
    assert_eq!(range_check(&fe(255), 8), Ok(()));
    assert_eq!(range_check(&fe(256), 8), Err(Error::RangeExceeded));
    assert_eq!(range_check(&below_modulus(1), 254), Ok(()));
    assert_eq!(range_check(&below_modulus(1), 1000), Ok(()));
}
