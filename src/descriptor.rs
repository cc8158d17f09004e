//! The timelocked move-or-redeem template over an owner key and a
//! redeemer key, compiled to a witness-script-hash descriptor.
use vstd::prelude::*;
use vstd::string::*;
use bdk::bitcoin::secp256k1::Secp256k1;
use bdk::miniscript::{Descriptor, DescriptorPublicKey};
use crate::workflow::{all_aged, redeem_error, total, Branch, Output};
use crate::keychain::{
    create_redeemer, party_keys_of, phrase_is_valid, space_count, KeyError, Network, PartyKey,
};
use crate::policy::{decimal, render, satisfied, signed_by, Policy, TIMELOCK_BLOCKS};

verus! {

/// Why a descriptor could not be compiled.
#[derive(Clone, Copy, PartialEq, Eq, Structural, Debug)]
pub enum DescriptorError {
    /// A key is not a valid descriptor key, or the script breaks a limit.
    PolicyCompilation,
}

/// What parsing a descriptor text gives: its public form and its form with
/// the private keys it holds, both with checksum.
pub uninterp spec fn compiled_descriptor(text: Seq<char>) -> Option<(Seq<char>, Seq<char>)>;

/// Relies on miniscript's `Descriptor::parse_descriptor`, and on
/// `to_string` and `to_string_with_secret` of what it returns.
#[verifier::external_body]
fn parse_descriptor(text: &str) -> (r: Option<(String, String)>)
    ensures
        r matches Some((p, s)) ==> compiled_descriptor(text@) == Some((p@, s@)),
        r is None ==> compiled_descriptor(text@) is None,
{
    let secp = Secp256k1::new();
    match Descriptor::<DescriptorPublicKey>::parse_descriptor(&secp, text) {
        Ok((desc, keymap)) => Some((desc.to_string(), desc.to_string_with_secret(&keymap))),
        Err(_) => None,
    }
}

/// A descriptor text that embeds private keys. It is kept apart from the
/// public form so that code handling only public descriptors cannot take it.
pub struct SecretDescriptor {
    text: String,
}

impl View for SecretDescriptor {
    type V = Seq<char>;

    closed spec fn view(&self) -> Seq<char> {
        self.text@
    }
}

impl SecretDescriptor {
    /// The text with its secrets, to be stored securely and never logged.
    pub fn secret_text(&self) -> (r: &str)
        ensures
            r@ == self@,
    {
        self.text.as_str()
    }
}

/// A compiled descriptor: the public form, which may be shown, and the
/// form with secrets.
pub struct CompiledDescriptor {
    pub public: String,
    pub with_secret: SecretDescriptor,
}

/// The owner (`move_key`) may spend at any time; the redeemer
/// (`redeem_key`) once the spent output has aged past the timelock.
pub struct MoveOrRedeemWithTimeLock {
    pub move_key: String,
    pub redeem_key: String,
}

impl MoveOrRedeemWithTimeLock {
    pub fn new(move_key: String, redeem_key: String) -> (r: Self)
        ensures
            r.move_key == move_key,
            r.redeem_key == redeem_key,
    {
        Self { move_key, redeem_key }
    }

    /// `andor(pk(redeem_key),older(TIMELOCK_BLOCKS),pk(move_key))`.
    pub open spec fn spec_policy(&self) -> Policy {
        Policy::AndOr {
            cond: Box::new(Policy::Pk { key: self.redeem_key }),
            when_true: Box::new(Policy::Older { blocks: TIMELOCK_BLOCKS }),
            when_false: Box::new(Policy::Pk { key: self.move_key }),
        }
    }

    /// The descriptor text: the policy inside a witness script hash.
    pub open spec fn spec_descriptor_text(&self) -> Seq<char> {
        "wsh("@ + render(self.spec_policy()) + ")"@
    }

    /// The spending policy as an expression tree.
    pub fn policy(&self) -> (r: Policy)
        ensures
            r == self.spec_policy(),
    {
        Policy::AndOr {
            cond: Box::new(Policy::Pk { key: self.redeem_key.clone() }),
            when_true: Box::new(Policy::Older { blocks: TIMELOCK_BLOCKS }),
            when_false: Box::new(Policy::Pk { key: self.move_key.clone() }),
        }
    }

    pub fn descriptor_text(&self) -> (r: String)
        ensures
            r@ == self.spec_descriptor_text(),
    {
        let body = self.policy().to_miniscript();
        let mut s = String::from_str("wsh(");
        s.append(body.as_str());
        s.append(")");
        proof {
            reveal_strlit("wsh(");
            reveal_strlit(")");
        }
        s
    }

    /// Compiles the template to a descriptor, in public form and with secrets.
    pub fn build(self) -> (r: Result<CompiledDescriptor, DescriptorError>)
        ensures
            r is Ok <==> compiled_descriptor(self.spec_descriptor_text()) is Some,
            r matches Ok(d) ==> compiled_descriptor(self.spec_descriptor_text()) == Some(
                (d.public@, d.with_secret@),
            ),
            r is Err ==> r == Err::<CompiledDescriptor, DescriptorError>(
                DescriptorError::PolicyCompilation,
            ),
    {
        let text = self.descriptor_text();
        match parse_descriptor(text.as_str()) {
            Some((public, text)) => Ok(
                CompiledDescriptor { public, with_secret: SecretDescriptor { text } },
            ),
            None => Err(DescriptorError::PolicyCompilation),
        }
    }

    /// The key that signs a spend through `branch`.
    pub open spec fn spec_signer(&self, branch: Branch) -> String {
        match branch {
            Branch::Owner => self.move_key,
            Branch::Redeemer => self.redeem_key,
        }
    }

    pub fn signer_for(&self, branch: Branch) -> (r: String)
        ensures
            r == self.spec_signer(branch),
    {
        match branch {
            Branch::Owner => self.move_key.clone(),
            Branch::Redeemer => self.redeem_key.clone(),
        }
    }
}

/// The descriptor text of the template over an owner key and a redeemer key.
pub open spec fn stash_text(move_key: Seq<char>, redeem_key: Seq<char>) -> Seq<char> {
    "wsh("@ + ("andor("@ + ("pk("@ + redeem_key + ")"@) + ","@ + ("older("@ + decimal(
        TIMELOCK_BLOCKS as nat,
    ) + ")"@) + ","@ + ("pk("@ + move_key + ")"@) + ")"@) + ")"@
}

/// The template's descriptor text depends on its two keys' text alone.
pub proof fn lemma_descriptor_text(t: MoveOrRedeemWithTimeLock)
    ensures
        t.spec_descriptor_text() == stash_text(t.move_key@, t.redeem_key@),
{
    reveal_with_fuel(render, 2);
}

/// Why a stash could not be created.
#[derive(Clone, Copy, PartialEq, Eq, Structural, Debug)]
pub enum CreateError {
    Key(KeyError),
    Descriptor(DescriptorError),
}

/// A created stash: its template, over the owner's secret key and the
/// redeemer's public key; the compiled descriptor; the owner's public key;
/// and the owner's phrase when one was generated.
pub struct Stash {
    pub template: MoveOrRedeemWithTimeLock,
    pub descriptor: CompiledDescriptor,
    pub owner_public_key: String,
    pub generated_phrase: Option<String>,
}

/// Whether `s` is the stash of the owner keys `owner` (as `party_keys_of`
/// gives them) and of the redeemer's public key.
pub open spec fn is_stash_of(
    s: Stash,
    owner: (Seq<char>, Seq<char>, Seq<char>),
    redeemer_public: Seq<char>,
) -> bool {
    &&& s.template.move_key@ == owner.1
    &&& s.template.redeem_key@ == redeemer_public
    &&& s.owner_public_key@ == owner.2
    &&& compiled_descriptor(stash_text(owner.1, redeemer_public)) == Some(
        (s.descriptor.public@, s.descriptor.with_secret@),
    )
}

/// Whether the stash of the owner that `phrase` and `passphrase` give and
/// of `redeemer_public` compiles.
pub open spec fn stash_compiles(
    phrase: Seq<char>,
    passphrase: Seq<char>,
    network: Network,
    redeemer_public: Seq<char>,
) -> bool {
    match party_keys_of(phrase, passphrase, network) {
        Some(o) => compiled_descriptor(stash_text(o.1, redeemer_public)) is Some,
        None => false,
    }
}

/// Whether `s` is the stash of the owner that `phrase` and `passphrase`
/// give and of `redeemer_public`.
pub open spec fn is_stash_for(
    s: Stash,
    phrase: Seq<char>,
    passphrase: Seq<char>,
    network: Network,
    redeemer_public: Seq<char>,
) -> bool {
    match party_keys_of(phrase, passphrase, network) {
        Some(o) => is_stash_of(s, o, redeemer_public),
        None => false,
    }
}

/// Creates the stash of an owner, given by mnemonic (generated when absent)
/// and passphrase, and of the redeemer's public key: only the owner's
/// secret goes into the descriptor.
pub fn create_stash(redeemer: &PartyKey, mnemonic: Option<String>, passphrase: &str, network: Network)
    -> (r: Result<Stash, CreateError>)
    ensures
        mnemonic matches Some(p) ==> (r == Err::<Stash, CreateError>(
            CreateError::Key(KeyError::InvalidMnemonic),
        ) <==> !phrase_is_valid(p@)),
        mnemonic matches Some(p) ==> (r is Ok <==> stash_compiles(
            p@,
            passphrase@,
            network,
            redeemer.public_key@,
        )),
        mnemonic matches Some(p) ==> (r matches Ok(s) ==> is_stash_for(
            s,
            p@,
            passphrase@,
            network,
            redeemer.public_key@,
        )),
        mnemonic matches Some(p) ==> (r matches Err(CreateError::Key(e)) ==> (e
            == KeyError::InvalidMnemonic || party_keys_of(p@, passphrase@, network) is None)),
        r matches Err(CreateError::Key(e)) ==> mnemonic is None ==> e == KeyError::Derivation,
        r matches Err(CreateError::Descriptor(e)) ==> e == DescriptorError::PolicyCompilation,
        r matches Ok(s) ==> (s.generated_phrase is Some <==> mnemonic is None),
        r matches Ok(s) ==> (s.generated_phrase matches Some(g) ==> space_count(g@) == 11
            && is_stash_for(s, g@, passphrase@, network, redeemer.public_key@)),
{
    let owner = match create_redeemer(mnemonic, passphrase, network) {
        Ok(k) => k,
        Err(e) => return Err(CreateError::Key(e)),
    };
    let template = MoveOrRedeemWithTimeLock::new(owner.secret_key.clone(), redeemer.public_key.clone());
    let kept = MoveOrRedeemWithTimeLock::new(owner.secret_key, redeemer.public_key.clone());
    proof {
        lemma_descriptor_text(template);
    }
    match template.build() {
        Ok(descriptor) => Ok(
            Stash {
                template: kept,
                descriptor,
                owner_public_key: owner.public_key,
                generated_phrase: owner.generated_phrase,
            },
        ),
        Err(e) => Err(CreateError::Descriptor(e)),
    }
}

/// The owner branch is open as soon as the output is funded, whatever its age.
pub proof fn lemma_owner_branch_immediate(t: MoveOrRedeemWithTimeLock, signers: Seq<String>, age: nat)
    requires
        exists|i: int| 0 <= i < signers.len() && (#[trigger] signers[i])@ == t.move_key@,
    ensures
        satisfied(t.spec_policy(), signers, age),
        satisfied(t.spec_policy(), signers, 0),
{
    reveal_with_fuel(satisfied, 2);
}

/// Signed by the redeemer alone, the policy is met exactly once the spent
/// output has at least `TIMELOCK_BLOCKS` confirmations.
pub proof fn lemma_redeemer_branch_timelocked(t: MoveOrRedeemWithTimeLock, age: nat)
    requires
        t.move_key@ != t.redeem_key@,
    ensures
        satisfied(t.spec_policy(), seq![t.redeem_key], age) <==> age >= TIMELOCK_BLOCKS,
{
    reveal_with_fuel(satisfied, 2);
    let s = seq![t.redeem_key];
    assert(s[0]@ == t.redeem_key@);
    assert(signed_by(s, t.redeem_key@));
    assert(!signed_by(s, t.move_key@));
}

/// The redeemer's own signature meets the policy on an aged output, while
/// the owner's branch has a different signer: a redemption's signature set is
/// not the owner's.
pub proof fn lemma_redeem_signers(t: MoveOrRedeemWithTimeLock, age: nat)
    requires
        t.move_key@ != t.redeem_key@,
        age >= TIMELOCK_BLOCKS,
    ensures
        satisfied(t.spec_policy(), seq![t.spec_signer(Branch::Redeemer)], age),
        t.spec_signer(Branch::Redeemer)@ != t.spec_signer(Branch::Owner)@,
{
    lemma_redeemer_branch_timelocked(t, age);
}

/// A redemption of outputs that have all aged past the timelock, with
/// something to spend, goes through: each output meets the policy with the
/// redeemer's signature alone, none would right after funding, and the
/// signer is not the owner's.
pub proof fn lemma_redeem_aged_outputs(t: MoveOrRedeemWithTimeLock, outs: Seq<Output>)
    requires
        t.move_key@ != t.redeem_key@,
        all_aged(outs),
        total(outs) > 0,
    ensures
        redeem_error(outs) is None,
        forall|i: int|
            0 <= i < outs.len() ==> satisfied(
                t.spec_policy(),
                seq![t.spec_signer(Branch::Redeemer)],
                (#[trigger] outs[i]).age as nat,
            ),
        !satisfied(t.spec_policy(), seq![t.spec_signer(Branch::Redeemer)], 0),
        t.spec_signer(Branch::Redeemer)@ != t.spec_signer(Branch::Owner)@,
{
    assert forall|i: int| 0 <= i < outs.len() implies satisfied(
        t.spec_policy(),
        seq![t.spec_signer(Branch::Redeemer)],
        (#[trigger] outs[i]).age as nat,
    ) by {
        lemma_redeemer_branch_timelocked(t, outs[i].age as nat);
    }
    lemma_redeemer_branch_timelocked(t, 0);
}

} // verus!
