use ecdsa_keyring::Keyring;
use sp_core::{ecdsa::Pair, Pair as PairT};

const ALL: [Keyring; 8] = [
    Keyring::Alice,
    Keyring::Bob,
    Keyring::Charlie,
    Keyring::Dave,
    Keyring::Eve,
    Keyring::Ferdie,
    Keyring::One,
    Keyring::Two,
];

#[test]
fn seeds_are_double_slash_and_label() {
    assert_eq!(Keyring::Alice.to_seed(), "//Alice");
    assert_eq!(Keyring::Bob.to_seed(), "//Bob");
    assert_eq!(Keyring::Charlie.to_seed(), "//Charlie");
    assert_eq!(Keyring::Dave.to_seed(), "//Dave");
    assert_eq!(Keyring::Eve.to_seed(), "//Eve");
    assert_eq!(Keyring::Ferdie.to_seed(), "//Ferdie");
    assert_eq!(Keyring::One.to_seed(), "//One");
    assert_eq!(Keyring::Two.to_seed(), "//Two");
}

#[test]
fn labels_match_variant_names() {
    for k in ALL {
        assert_eq!(k.label(), format!("{:?}", k));
        assert_eq!(k.to_seed(), format!("//{}", k.label()));
    }
}

#[test]
fn iter_yields_every_account_once_in_order() {
    assert_eq!(Keyring::iter(), ALL.to_vec());
    assert_eq!(Keyring::iter(), Keyring::iter());
    let listed = Keyring::iter();
    for k in ALL {
        assert_eq!(listed.iter().filter(|x| **x == k).count(), 1);
    }
}

#[test]
fn signature_verifies_under_own_key() {
    let messages: [&[u8]; 4] = [b"", b"I am Alice!", b"\x00\xff", &[7u8; 300]];
    for k in ALL {
        for m in messages {
            assert!(Pair::verify(&k.sign(m), m, &k.public()));
        }
    }
}

#[test]
fn signature_fails_for_other_message() {
    for k in ALL {
        let sig = k.sign(b"first message");
        assert!(!Pair::verify(&sig, b"second message", &k.public()));
        assert!(!Pair::verify(&k.sign(b""), b"x", &k.public()));
    }
}

#[test]
fn signature_fails_under_other_key() {
    for a in ALL {
        for b in ALL {
            if a != b {
                assert!(!Pair::verify(&a.sign(b"message"), b"message", &b.public()));
            }
        }
    }
}

#[test]
fn pair_derivation_is_repeatable() {
    for k in ALL {
        assert_eq!(k.pair().to_raw_vec(), k.pair().to_raw_vec());
        let from_seed = Pair::from_string(&k.to_seed(), None).expect("derivation");
        assert_eq!(k.pair().to_raw_vec(), from_seed.to_raw_vec());
        assert_eq!(Pair::from(k).to_raw_vec(), k.pair().to_raw_vec());
    }
}

#[test]
fn public_and_sign_come_from_the_pair() {
    for k in ALL {
        assert_eq!(k.public(), k.pair().public());
        assert_eq!(k.public().0.len(), 33);
        assert_eq!(k.sign(b"abc"), k.sign(b"abc"));
        assert_eq!(k.sign(b"abc"), k.pair().sign(b"abc"));
        assert_ne!(k.sign(b"abc"), k.sign(b"abd"));
    }
}

#[test]
fn public_keys_are_distinct() {
    for a in ALL {
        for b in ALL {
            assert_eq!(a == b, a.public() == b.public());
            assert_eq!(a == b, a.to_seed() == b.to_seed());
        }
    }
}

#[test]
fn alice_scenario() {
    assert_eq!(Keyring::Alice.to_seed(), "//Alice");
    let sig = Keyring::Alice.sign(b"I am Alice!");
    assert!(Pair::verify(&sig, b"I am Alice!", &Keyring::Alice.public()));
    assert!(!Pair::verify(&sig, b"I am Alice!", &Keyring::Bob.public()));
    assert!(!Pair::verify(&sig, b"I am Bob!", &Keyring::Alice.public()));
}
