use bdk::miniscript::{Descriptor, DescriptorPublicKey};
use dead_mans_switch::descriptor::{DescriptorError, MoveOrRedeemWithTimeLock};
use dead_mans_switch::keychain::{create_redeemer, derive_master_key, KeyError, Keychain, Network, PartyKey};
use std::str::FromStr;

const PHRASE: &str =
    "abandon abandon abandon abandon abandon abandon abandon abandon abandon abandon abandon about";

fn party(passphrase: &str) -> PartyKey {
    create_redeemer(Some(PHRASE.to_string()), passphrase, Network::Regtest).ok().unwrap()
}

fn key_for(passphrase: &str) -> String {
    party(passphrase).secret_key
}

#[test]
fn master_key_of_known_seed() {
    let m = derive_master_key(Some(PHRASE.to_string()), "TREZOR", Network::Bitcoin).ok().unwrap();
    assert_eq!(
        m.xprv,
        "xprv9s21ZrQH143K3h3fDYiay8mocZ3afhfULfb5GX8kCBdno77K4HiA15Tg23wpbeF1pLfs1c5SPmYHrEpTuuRhxMwvKDwqdKiGJS9XFKzUsAF"
    );
    assert!(m.generated_phrase.is_none());
}

#[test]
fn derivation_is_deterministic() {
    assert_eq!(key_for("alpha"), key_for("alpha"));
    assert_ne!(key_for("alpha"), key_for("beta"));
    let a = party("alpha");
    assert!(a.secret_key.contains("tprv"));
    assert!(a.secret_key.ends_with("/*"));
    assert!(a.public_key.contains("tpub"));
    assert!(!a.public_key.contains("tprv"));
    assert!(a.descriptor.starts_with("wpkh("));
    assert!(a.descriptor.contains(&a.secret_key));
}

#[test]
fn invalid_mnemonic_is_refused() {
    let r = derive_master_key(Some("not a mnemonic at all".to_string()), "alpha", Network::Regtest);
    assert!(matches!(r, Err(KeyError::InvalidMnemonic)));
}

#[test]
fn generated_mnemonic_is_returned() {
    let m = derive_master_key(None, "alpha", Network::Testnet).ok().unwrap();
    let phrase = m.generated_phrase.clone().unwrap();
    assert_eq!(phrase.split_whitespace().count(), 12);
    let again = derive_master_key(Some(phrase), "alpha", Network::Testnet).ok().unwrap();
    assert_eq!(again.xprv, m.xprv);
}

#[test]
fn keychain_from_seed_bytes() {
    let k = Keychain::new(vec![7u8; 32]);
    let a = k.private_key(Network::Regtest).ok().unwrap();
    let b = k.private_key(Network::Bitcoin).ok().unwrap();
    assert!(a.starts_with("tprv"));
    assert!(b.starts_with("xprv"));
}

#[test]
fn mainnet_coin_type() {
    let k = create_redeemer(Some(PHRASE.to_string()), "alpha", Network::Bitcoin).ok().unwrap();
    assert!(k.secret_key.contains("xprv"));
    assert!(k.public_key.contains("xpub"));
    assert_ne!(k.secret_key, key_for("alpha"));
}

#[test]
fn alpha_beta_descriptor_compiles() {
    let t = MoveOrRedeemWithTimeLock::new(key_for("alpha"), party("beta").public_key);
    let d = t.build().ok().unwrap();
    assert!(!d.with_secret.secret_text().contains(&key_for("beta")));
    assert!(d.public.starts_with("wsh(andor(pk("));
    assert!(d.public.contains("tpub"));
    assert!(d.public.contains("older(1000)"));
    assert!(!d.public.contains("tprv"));
    assert!(d.with_secret.secret_text().contains("tprv"));
    assert!(d.with_secret.secret_text().contains(&key_for("alpha")));
}

#[test]
fn descriptor_round_trips_through_public_text() {
    let t = MoveOrRedeemWithTimeLock::new(key_for("alpha"), party("beta").public_key);
    let d = t.build().ok().unwrap();
    let parsed = Descriptor::<DescriptorPublicKey>::from_str(&d.public).unwrap();
    assert_eq!(parsed.to_string(), d.public);
}

#[test]
fn bad_key_fails_compilation() {
    let t = MoveOrRedeemWithTimeLock::new("nonsense".to_string(), party("beta").public_key);
    assert!(matches!(t.build(), Err(DescriptorError::PolicyCompilation)));
}
