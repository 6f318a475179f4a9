use confidential_transfer::babyjub::{AssignedPoint, BabyJubConfig, Point};
use confidential_transfer::error::Error;
use confidential_transfer::field::FieldElement;
use confidential_transfer::keys::PrivateKey;
use confidential_transfer::transfer::{AssignedBalanceEnc, BalanceEnc, ConfidentialTransferConfig};
use halo2curves::bn256::Fr;
use halo2curves::ff::Field;
use rand::rngs::OsRng;

fn fe(v: u64) -> FieldElement {
    FieldElement::from_u64(v)
}

fn limbs(l: [u64; 4]) -> FieldElement {
    FieldElement::from_limbs(l[0], l[1], l[2], l[3])
}

fn random_scalar() -> FieldElement {
    FieldElement::from_bytes(Fr::random(OsRng).to_bytes()).unwrap()
}

fn same(p: &AssignedPoint, q: &AssignedPoint) -> bool {
    p.x.to_bytes() == q.x.to_bytes() && p.y.to_bytes() == q.y.to_bytes()
}

fn raw(p: &AssignedPoint) -> Point {
    Point::new(p.x, p.y)
}

fn config() -> ConfidentialTransferConfig {
    ConfidentialTransferConfig::new(BabyJubConfig::new())
}

/// The public key of `private`, and the ciphertext of `balance` under it as
/// its holder builds it: `R = r * G`, `L = balance * G + private * R`.
fn account(
    config: &ConfidentialTransferConfig,
    private: &FieldElement,
    balance: u32,
    r: &FieldElement,
) -> (AssignedPoint, AssignedBalanceEnc) {
    let ecc = &config.ecc_config;
    let g = ecc.load_base_point();
    let pk = ecc.scalar_mul(&g, private).unwrap();
    let rand_point = ecc.scalar_mul(&g, r).unwrap();
    let rand_pk = ecc.scalar_mul(&rand_point, private).unwrap();
    let balance_point = ecc.scalar_mul(&g, &fe(balance as u64)).unwrap();
    let l = ecc.add(&balance_point, &rand_pk).unwrap();
    (pk, AssignedBalanceEnc { l, r: rand_point })
}

/// Whether `enc` holds `balance` for the holder of `private`.
fn decrypts_to(
    config: &ConfidentialTransferConfig,
    enc: &AssignedBalanceEnc,
    private: &FieldElement,
    balance: u32,
) -> bool {
    let ecc = &config.ecc_config;
    let g = ecc.load_base_point();
    let balance_point = ecc.scalar_mul(&g, &fe(balance as u64)).unwrap();
    let rand_pk = ecc.scalar_mul(&enc.r, private).unwrap();
    let by_hand = same(&ecc.add(&balance_point, &rand_pk).unwrap(), &enc.l);
    let checked = config.check_balance(private, balance, enc);
    if by_hand {
        assert_eq!(checked, Ok(()));
    } else {
        assert_eq!(checked, Err(Error::ConsistencyMismatch));
    }
    by_hand
}

#[test]
fn test_add_and_mul() {
    let rand0 = random_scalar();
    let rand1 = random_scalar();
    let rand2 = random_scalar();
    let priv_key0 = random_scalar();
    let priv_key1 = random_scalar();
    let balance0: u32 = 100;
    let balance1: u32 = 10;
    let transfer_amount: u32 = 70;
    let config = config();
    let (_, sender_balance_enc) = account(&config, &priv_key0, balance0, &rand0);
    let (pub_key1, recipient_balance_enc) = account(&config, &priv_key1, balance1, &rand1);
    config
        .transfer(
            &priv_key0,
            &raw(&pub_key1),
            balance0,
            &sender_balance_enc,
            &recipient_balance_enc,
            transfer_amount,
            &rand2,
        )
        .unwrap();
}

#[test]
fn transfer_happy_path_moves_seventy() {
    let config = config();
    let (sender_priv, recipient_priv) = (fe(1111), fe(2222));
    let (_, sender_enc) = account(&config, &sender_priv, 100, &fe(31));
    let (recipient_pub, recipient_enc) = account(&config, &recipient_priv, 10, &fe(41));
    let (new_sender, new_recipient) = config
        .transfer(&sender_priv, &raw(&recipient_pub), 100, &sender_enc, &recipient_enc, 70, &fe(59))
        .unwrap();
    assert!(decrypts_to(&config, &new_sender, &sender_priv, 30));
    assert!(!decrypts_to(&config, &new_sender, &sender_priv, 100));
    assert!(decrypts_to(&config, &new_recipient, &recipient_priv, 80));
    assert!(!decrypts_to(&config, &new_recipient, &recipient_priv, 10));
    // the sender's new ciphertext is the encoding of 30 under the sender's
    // key with the fresh randomness
    let sender_pub = PrivateKey::new(sender_priv).to_pub().unwrap();
    let encoded = config.encode(30, &sender_pub.0, &fe(59)).unwrap();
    assert!(same(&encoded.l, &new_sender.l));
    assert!(same(&encoded.r, &new_sender.r));
    // the recipient's is the old one combined with the encoding of 70
    let ecc = &config.ecc_config;
    let delta = config.encode(70, &recipient_pub, &fe(59)).unwrap();
    assert!(same(&ecc.add(&recipient_enc.l, &delta.l).unwrap(), &new_recipient.l));
    assert!(same(&ecc.add(&recipient_enc.r, &delta.r).unwrap(), &new_recipient.r));
}

#[test]
fn transfer_of_the_whole_balance_and_of_nothing() {
    let config = config();
    let (sender_priv, recipient_priv) = (fe(77), fe(88));
    let (_, sender_enc) = account(&config, &sender_priv, 100, &fe(3));
    let (recipient_pub, recipient_enc) = account(&config, &recipient_priv, 10, &fe(4));
    let (new_sender, new_recipient) = config
        .transfer(&sender_priv, &raw(&recipient_pub), 100, &sender_enc, &recipient_enc, 100, &fe(5))
        .unwrap();
    assert!(decrypts_to(&config, &new_sender, &sender_priv, 0));
    assert!(decrypts_to(&config, &new_recipient, &recipient_priv, 110));
    let (new_sender, new_recipient) = config
        .transfer(&sender_priv, &raw(&recipient_pub), 100, &sender_enc, &recipient_enc, 0, &fe(5))
        .unwrap();
    assert!(decrypts_to(&config, &new_sender, &sender_priv, 100));
    assert!(decrypts_to(&config, &new_recipient, &recipient_priv, 10));
}

#[test]
fn transfer_overdraft_is_out_of_range() {
    let config = config();
    let (sender_priv, recipient_priv) = (fe(1111), fe(2222));
    let (_, sender_enc) = account(&config, &sender_priv, 10, &fe(31));
    let (recipient_pub, recipient_enc) = account(&config, &recipient_priv, 10, &fe(41));
    let r = config.transfer(
        &sender_priv,
        &raw(&recipient_pub),
        10,
        &sender_enc,
        &recipient_enc,
        70,
        &fe(59),
    );
    assert_eq!(r.err(), Some(Error::RangeExceeded));
    // one more than the balance is already too much
    let r = config.transfer(
        &sender_priv,
        &raw(&recipient_pub),
        10,
        &sender_enc,
        &recipient_enc,
        11,
        &fe(59),
    );
    assert_eq!(r.err(), Some(Error::RangeExceeded));
}

#[test]
fn transfer_rejects_a_recipient_key_off_the_curve() {
    let config = config();
    let (sender_priv, recipient_priv) = (fe(1111), fe(2222));
    let (_, sender_enc) = account(&config, &sender_priv, 100, &fe(31));
    let (_, recipient_enc) = account(&config, &recipient_priv, 10, &fe(41));
    let bad_key = Point::new(fe(1), fe(1));
    let r = config.transfer(&sender_priv, &bad_key, 100, &sender_enc, &recipient_enc, 70, &fe(59));
    assert_eq!(r.err(), Some(Error::PointNotOnCurve));
    // the key is looked at first: an overdraft does not change the error
    let r = config.transfer(&sender_priv, &bad_key, 10, &sender_enc, &recipient_enc, 70, &fe(59));
    assert_eq!(r.err(), Some(Error::PointNotOnCurve));
}

#[test]
fn transfer_rejects_a_forged_ciphertext() {
    let config = config();
    let (sender_priv, recipient_priv) = (fe(1111), fe(2222));
    let (_, sender_enc) = account(&config, &sender_priv, 100, &fe(31));
    let (recipient_pub, recipient_enc) = account(&config, &recipient_priv, 10, &fe(41));
    // a first point that belongs to another balance
    let (_, other) = account(&config, &sender_priv, 500, &fe(31));
    let forged = AssignedBalanceEnc { l: other.l, r: sender_enc.r };
    let r = config.transfer(
        &sender_priv,
        &raw(&recipient_pub),
        100,
        &forged,
        &recipient_enc,
        70,
        &fe(59),
    );
    assert_eq!(r.err(), Some(Error::ConsistencyMismatch));
    // the true ciphertext with a wrong balance claimed for it
    let r = config.transfer(
        &sender_priv,
        &raw(&recipient_pub),
        500,
        &sender_enc,
        &recipient_enc,
        70,
        &fe(59),
    );
    assert_eq!(r.err(), Some(Error::ConsistencyMismatch));
    // the true ciphertext with a wrong private key
    let r = config.transfer(
        &fe(1112),
        &raw(&recipient_pub),
        100,
        &sender_enc,
        &recipient_enc,
        70,
        &fe(59),
    );
    assert_eq!(r.err(), Some(Error::ConsistencyMismatch));
}

#[test]
fn encode_gives_the_two_points() {
    let config = config();
    let private = fe(123456789);
    let pk = PrivateKey::new(private).to_pub().unwrap();
    let enc = config.encode(100, &pk.0, &fe(987654321)).unwrap();
    let expected_r = (
        limbs([0xfeb7e0aada8b7111, 0x6ca49b39759ac2e0, 0xb6d4f6f909b8ceaf, 0x085ed469c9a9f102]),
        limbs([0x51c676f519c8f4e8, 0x868f5225ae798d6b, 0x80a5ade750828dd6, 0x245e25ab2bd42f02]),
    );
    let expected_l = (
        limbs([0xa23c65476a5c6fde, 0xf8c7a01bca50b806, 0xa20e7ae990dc2f9b, 0x096896cbf0afc050]),
        limbs([0x23687291ae044428, 0x683bff9bbed507f8, 0x7e1dafbdb48f10e4, 0x13db8d6b4af12b59]),
    );
    assert_eq!(enc.r.x.to_bytes(), expected_r.0.to_bytes());
    assert_eq!(enc.r.y.to_bytes(), expected_r.1.to_bytes());
    assert_eq!(enc.l.x.to_bytes(), expected_l.0.to_bytes());
    assert_eq!(enc.l.y.to_bytes(), expected_l.1.to_bytes());
    assert!(decrypts_to(&config, &enc, &private, 100));
}

#[test]
fn encodings_combine_homomorphically() {
    let config = config();
    let ecc = &config.ecc_config;
    let pk = PrivateKey::new(fe(424242)).to_pub().unwrap();
    let first = config.encode(1000, &pk.0, &fe(17)).unwrap();
    let second = config.encode(234, &pk.0, &fe(29)).unwrap();
    let combined = config.encode(1234, &pk.0, &fe(46)).unwrap();
    assert!(same(&ecc.add(&first.l, &second.l).unwrap(), &combined.l));
    assert!(same(&ecc.add(&first.r, &second.r).unwrap(), &combined.r));
}

#[test]
fn assign_balance_enc_checks_both_points() {
    let config = config();
    let (_, enc) = account(&config, &fe(5), 7, &fe(9));
    let good = BalanceEnc { l: raw(&enc.l), r: raw(&enc.r) };
    let loaded = config.assign_balance_enc(&good).unwrap();
    assert!(same(&loaded.l, &enc.l));
    assert!(same(&loaded.r, &enc.r));
    let off = Point::new(fe(1), fe(1));
    let bad_l = BalanceEnc { l: off, r: raw(&enc.r) };
    assert_eq!(config.assign_balance_enc(&bad_l).err(), Some(Error::PointNotOnCurve));
    let bad_r = BalanceEnc { l: raw(&enc.l), r: off };
    assert_eq!(config.assign_balance_enc(&bad_r).err(), Some(Error::PointNotOnCurve));
}

#[test]
fn check_balance_accepts_only_the_true_balance_and_key() {
    let config = config();
    let private = fe(31337);
    let public = PrivateKey::new(private).to_pub().unwrap();
    let enc = config.encode(4_000_000_000, &public.0, &fe(77)).unwrap();
    assert_eq!(config.check_balance(&private, 4_000_000_000, &enc), Ok(()));
    assert_eq!(config.check_balance(&private, 3_999_999_999, &enc), Err(Error::ConsistencyMismatch));
    assert_eq!(config.check_balance(&private, 0, &enc), Err(Error::ConsistencyMismatch));
    assert_eq!(config.check_balance(&fe(31338), 4_000_000_000, &enc), Err(Error::ConsistencyMismatch));
}

#[test]
fn transfer_chain_keeps_the_books() {
    let config = config();
    let (alice, bob) = (fe(1001), fe(2002));
    let (alice_pub, mut alice_enc) = account(&config, &alice, 500, &fe(7));
    let (bob_pub, mut bob_enc) = account(&config, &bob, 0, &fe(8));
    let (mut alice_balance, mut bob_balance) = (500u32, 0u32);
    for (step, amount) in [120u32, 80, 300].into_iter().enumerate() {
        let (s, r) = config
            .transfer(
                &alice,
                &raw(&bob_pub),
                alice_balance,
                &alice_enc,
                &bob_enc,
                amount,
                &fe(100 + step as u64),
            )
            .unwrap();
        alice_enc = s;
        bob_enc = r;
        alice_balance -= amount;
        bob_balance += amount;
        assert!(decrypts_to(&config, &alice_enc, &alice, alice_balance));
        assert!(decrypts_to(&config, &bob_enc, &bob, bob_balance));
    }
    // nothing is left to send, and the way back works
    let r = config.transfer(&alice, &raw(&bob_pub), 0, &alice_enc, &bob_enc, 1, &fe(9));
    assert_eq!(r.err(), Some(Error::RangeExceeded));
    let (s, r) = config
        .transfer(&bob, &raw(&alice_pub), 500, &bob_enc, &alice_enc, 500, &fe(10))
        .unwrap();
    assert!(decrypts_to(&config, &s, &bob, 0));
    assert!(decrypts_to(&config, &r, &alice, 500));
}
