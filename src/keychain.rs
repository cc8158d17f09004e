//! Master keys of the owner and of the redeemer, derived from a mnemonic
//! phrase and a passphrase for one network.
use vstd::prelude::*;
use vstd::string::*;
use bdk::bitcoin;
use bdk::bitcoin::util::bip32::ExtendedPrivKey;
use bdk::template::{Bip84, DescriptorTemplate};
use bdk::KeychainKind;
use std::str::FromStr;
use bip39::{Language, Mnemonic, MnemonicType, Seed};

verus! {

/// The network a key is scoped to.
#[derive(Clone, Copy, PartialEq, Eq, Structural)]
pub enum Network {
    Bitcoin,
    Testnet,
    Signet,
    Regtest,
}

/// Why a master key could not be had.
#[derive(Clone, Copy, PartialEq, Eq, Structural, Debug)]
pub enum KeyError {
    /// The phrase is not a valid English mnemonic.
    InvalidMnemonic,
    /// The seed did not give a valid master key.
    Derivation,
}

pub open spec fn network_id(n: Network) -> int {
    match n {
        Network::Bitcoin => 0,
        Network::Testnet => 1,
        Network::Signet => 2,
        Network::Regtest => 3,
    }
}

/// Whether a phrase is a valid English mnemonic (words and checksum).
pub uninterp spec fn phrase_is_valid(phrase: Seq<char>) -> bool;

/// The seed that a valid mnemonic phrase and a passphrase stretch to.
pub uninterp spec fn seed_of(phrase: Seq<char>, passphrase: Seq<char>) -> Seq<u8>;

/// The encoded master private key of a seed on a network, when there is one.
pub uninterp spec fn master_key_of(network: int, seed: Seq<u8>) -> Option<Seq<char>>;

/// Relies on bip39's `Mnemonic::from_phrase` (English word list), then
/// `Seed::new` and `Seed::as_bytes`: the phrase is accepted exactly when it is
/// valid, and the seed depends on the phrase and the passphrase alone.
#[verifier::external_body]
fn mnemonic_seed(phrase: &str, passphrase: &str) -> (r: Option<Vec<u8>>)
    ensures
        r is Some <==> phrase_is_valid(phrase@),
        r matches Some(s) ==> s@ == seed_of(phrase@, passphrase@),
{
    match Mnemonic::from_phrase(phrase, Language::English) {
        Ok(m) => Some(Seed::new(&m, passphrase).as_bytes().to_vec()),
        Err(_) => None,
    }
}

/// The number of spaces in a text.
pub open spec fn space_count(s: Seq<char>) -> nat
    decreases s.len(),
{
    if s.len() == 0 {
        0
    } else {
        space_count(s.drop_last()) + if s.last() == ' ' { 1nat } else { 0nat }
    }
}

/// Relies on bip39's `Mnemonic::new` for a fresh random twelve-word English
/// phrase, words joined by single spaces, which carries a valid checksum.
#[verifier::external_body]
fn generate_phrase() -> (r: String)
    ensures
        phrase_is_valid(r@),
        space_count(r@) == 11,
{
    Mnemonic::new(MnemonicType::Words12, Language::English).into_phrase()
}

/// Relies on bitcoin's `ExtendedPrivKey::new_master` and its base58 encoding.
#[verifier::external_body]
fn master_xprv(network: Network, seed: &[u8]) -> (r: Option<String>)
    ensures
        r matches Some(k) ==> master_key_of(network_id(network), seed@) == Some(k@),
        r is None ==> master_key_of(network_id(network), seed@) is None,
{
    let net = match network {
        Network::Bitcoin => bitcoin::Network::Bitcoin,
        Network::Testnet => bitcoin::Network::Testnet,
        Network::Signet => bitcoin::Network::Signet,
        Network::Regtest => bitcoin::Network::Regtest,
    };
    match ExtendedPrivKey::new_master(net, seed) {
        Ok(k) => Some(k.to_string()),
        Err(_) => None,
    }
}

/// The seed of one party.
pub struct Keychain {
    seed: Vec<u8>,
}

impl View for Keychain {
    type V = Seq<u8>;

    closed spec fn view(&self) -> Seq<u8> {
        self.seed@
    }
}

impl Keychain {
    pub fn new(seed: Vec<u8>) -> (r: Self)
        ensures
            r@ == seed@,
    {
        Keychain { seed }
    }

    /// The master private key of this seed on `network`.
    pub fn private_key(&self, network: Network) -> (r: Result<String, KeyError>)
        ensures
            r matches Ok(k) ==> master_key_of(network_id(network), self@) == Some(k@),
            r is Err <==> master_key_of(network_id(network), self@) is None,
            r is Err ==> r == Err::<String, KeyError>(KeyError::Derivation),
    {
        match master_xprv(network, self.seed.as_slice()) {
            Some(k) => Ok(k),
            None => Err(KeyError::Derivation),
        }
    }
}

/// A derived master key, with the phrase when one was generated for it.
pub struct MasterKey {
    pub xprv: String,
    pub generated_phrase: Option<String>,
}

/// Derives a master key from `seed_phrase` and `passphrase`; without a
/// phrase, a fresh one is generated and handed back for backup.
pub fn derive_master_key(seed_phrase: Option<String>, passphrase: &str, network: Network) -> (r: Result<
    MasterKey,
    KeyError,
>)
    ensures
        seed_phrase matches Some(p) ==> (r == Err::<MasterKey, KeyError>(KeyError::InvalidMnemonic)
            <==> !phrase_is_valid(p@)),
        r matches Ok(m) ==> (m.generated_phrase is Some <==> seed_phrase is None),
        r matches Ok(m) ==> m.generated_phrase matches Some(g) ==> phrase_is_valid(g@)
            && space_count(g@) == 11,
        r matches Ok(m) ==> (seed_phrase matches Some(p) ==> master_key_of(
            network_id(network),
            seed_of(p@, passphrase@),
        ) == Some(m.xprv@)),
        r matches Ok(m) ==> (m.generated_phrase matches Some(g) ==> master_key_of(
            network_id(network),
            seed_of(g@, passphrase@),
        ) == Some(m.xprv@)),
        seed_phrase matches Some(p) ==> (r is Ok <==> phrase_is_valid(p@) && master_key_of(
            network_id(network),
            seed_of(p@, passphrase@),
        ) is Some),
        r is Err ==> seed_phrase is None ==> r == Err::<MasterKey, KeyError>(KeyError::Derivation),
{
    let (phrase, generated) = match seed_phrase {
        Some(p) => (p, false),
        None => (generate_phrase(), true),
    };
    let seed = match mnemonic_seed(phrase.as_str(), passphrase) {
        Some(s) => s,
        None => return Err(KeyError::InvalidMnemonic),
    };
    let keychain = Keychain::new(seed);
    match keychain.private_key(network) {
        Ok(xprv) => {
            let generated_phrase = if generated { Some(phrase) } else { None };
            Ok(MasterKey { xprv, generated_phrase })
        },
        Err(e) => Err(e),
    }
}

/// What bdk's BIP84 template builds on an encoded master private key, for
/// the external chain: the `wpkh` descriptor with its secret, the account
/// key with its origin in secret form, and the same key in public form.
pub uninterp spec fn bip84_of(xprv: Seq<char>) -> Option<(Seq<char>, Seq<char>, Seq<char>)>;

/// Relies on bitcoin's `ExtendedPrivKey::from_str`, then on bdk's
/// `Bip84(key, KeychainKind::External).build()` and the display of the one
/// key of the key map it returns, secret and public.
#[verifier::external_body]
fn bip84_template(xprv: &str) -> (r: Option<(String, String, String)>)
    ensures
        r matches Some((d, s, p)) ==> bip84_of(xprv@) == Some((d@, s@, p@)),
        r is None ==> bip84_of(xprv@) is None,
{
    let key = ExtendedPrivKey::from_str(xprv).ok()?;
    let (desc, keymap, _) = Bip84(key, KeychainKind::External).build().ok()?;
    let (public, secret) = keymap.iter().next()?;
    Some((desc.to_string_with_secret(&keymap), secret.to_string(), public.to_string()))
}

/// The BIP84 keys of the party that `phrase` and `passphrase` give on
/// `network`: descriptor with secret, secret key, public key.
pub open spec fn party_keys_of(phrase: Seq<char>, passphrase: Seq<char>, network: Network) -> Option<
    (Seq<char>, Seq<char>, Seq<char>),
> {
    if !phrase_is_valid(phrase) {
        None
    } else {
        match master_key_of(network_id(network), seed_of(phrase, passphrase)) {
            Some(x) => bip84_of(x),
            None => None,
        }
    }
}

/// The keys of one party: its own `wpkh` descriptor with secret, its BIP84
/// account key in secret and in public form, and the phrase when one was
/// generated for it.
pub struct PartyKey {
    pub descriptor: String,
    pub secret_key: String,
    pub public_key: String,
    pub generated_phrase: Option<String>,
}

/// The BIP84 keys of a party from its mnemonic (generated when absent) and
/// passphrase.
pub fn create_redeemer(mnemonic: Option<String>, passphrase: &str, network: Network) -> (r: Result<
    PartyKey,
    KeyError,
>)
    ensures
        mnemonic matches Some(p) ==> (r == Err::<PartyKey, KeyError>(KeyError::InvalidMnemonic)
            <==> !phrase_is_valid(p@)),
        mnemonic matches Some(p) ==> (r is Ok <==> party_keys_of(p@, passphrase@, network) is Some),
        r is Err ==> mnemonic is None ==> r == Err::<PartyKey, KeyError>(KeyError::Derivation),
        r matches Ok(k) ==> (k.generated_phrase is Some <==> mnemonic is None),
        r matches Ok(k) ==> (mnemonic matches Some(p) ==> party_keys_of(p@, passphrase@, network)
            == Some((k.descriptor@, k.secret_key@, k.public_key@))),
        r matches Ok(k) ==> (k.generated_phrase matches Some(g) ==> space_count(g@) == 11
            && party_keys_of(g@, passphrase@, network) == Some(
            (k.descriptor@, k.secret_key@, k.public_key@),
        )),
{
    let m = match derive_master_key(mnemonic, passphrase, network) {
        Ok(m) => m,
        Err(e) => return Err(e),
    };
    match bip84_template(m.xprv.as_str()) {
        Some((descriptor, secret_key, public_key)) => Ok(
            PartyKey { descriptor, secret_key, public_key, generated_phrase: m.generated_phrase },
        ),
        None => Err(KeyError::Derivation),
    }
}

} // verus!
