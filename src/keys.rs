//! Wallet keys: implicit-account key pairs, signatures over challenges, and
//! the classification of ledger account identifiers.

use vstd::prelude::*;
use crate::error::UserError;
use crate::password::random_bytes32;
use crate::text::str_eq;
use ed25519_dalek::Verifier;
use near_account_id::AccountType;

verus! {

/// An error of the `ed25519` signature crate, carried through unchanged.
#[verifier::external_type_specification]
#[verifier::external_body]
pub struct ExSignatureError(ed25519_dalek::SignatureError);

/// The 64-byte expanded secret key `ed25519-dalek` derives from a 32-byte secret.
pub uninterp spec fn ed25519_expanded_of(secret: Seq<u8>) -> Seq<u8>;

/// The 32-byte public key `ed25519-dalek` derives from an expanded secret key.
pub uninterp spec fn ed25519_public_of(expanded: Seq<u8>) -> Seq<u8>;

/// The 64-byte signature `ed25519-dalek` makes of a message with an expanded secret key.
pub uninterp spec fn ed25519_signature_of(expanded: Seq<u8>, message: Seq<u8>) -> Seq<u8>;

/// Whether `ed25519-dalek` accepts a signature of a message under a public key.
pub uninterp spec fn ed25519_accepts(public_key: Seq<u8>, message: Seq<u8>, signature: Seq<u8>) -> bool;

/// The text `bs58::encode(..).into_string()` produces for some bytes.
pub uninterp spec fn base58_of(bytes: Seq<u8>) -> Seq<char>;

/// Whether `near-account-id` accepts a text as an account id.
pub uninterp spec fn near_id_valid(id: Seq<char>) -> bool;

/// Relies on `SecretKey::from_bytes` (which only checks the length) and
/// `ExpandedSecretKey::from`: the expanded form of a 32-byte secret.
#[verifier::external_body]
fn expand_secret(secret: &[u8]) -> (r: Vec<u8>)
    requires
        secret@.len() == 32,
    ensures
        r@ == ed25519_expanded_of(secret@),
        r@.len() == 64,
{
    let sk = ed25519_dalek::SecretKey::from_bytes(secret).unwrap();
    ed25519_dalek::ExpandedSecretKey::from(&sk).to_bytes().to_vec()
}

/// Relies on `ExpandedSecretKey::from_bytes` (which only checks the length)
/// and `PublicKey::from`: the public key of an expanded secret key.
#[verifier::external_body]
fn public_of_expanded(expanded: &[u8]) -> (r: Vec<u8>)
    requires
        expanded@.len() == 64,
    ensures
        r@ == ed25519_public_of(expanded@),
        r@.len() == 32,
{
    let esk = ed25519_dalek::ExpandedSecretKey::from_bytes(expanded).unwrap();
    ed25519_dalek::PublicKey::from(&esk).to_bytes().to_vec()
}

/// Relies on `ExpandedSecretKey::sign`, given the key's own public key
/// (which `PublicKey::from_bytes` reads back): a 64-byte signature.
#[verifier::external_body]
fn sign_with(expanded: &[u8], public_key: &[u8], message: &[u8]) -> (r: Vec<u8>)
    requires
        expanded@.len() == 64,
        public_key@ == ed25519_public_of(expanded@),
    ensures
        r@ == ed25519_signature_of(expanded@, message@),
        r@.len() == 64,
{
    let esk = ed25519_dalek::ExpandedSecretKey::from_bytes(expanded).unwrap();
    let pk = ed25519_dalek::PublicKey::from_bytes(public_key).unwrap();
    esk.sign(message, &pk).to_bytes().to_vec()
}

/// Relies on `PublicKey::from_bytes`, `Signature::from_bytes` and
/// `PublicKey::verify`: whether the signature is valid; a signature made with
/// the expanded form of a 32-byte secret (whose scalar `ExpandedSecretKey::from`
/// clamps) verifies under the public key derived from it.
#[verifier::external_body]
fn verify_with(public_key: &[u8], message: &[u8], signature: &[u8]) -> (r: Result<(), ed25519_dalek::SignatureError>)
    ensures
        r is Ok <==> ed25519_accepts(public_key@, message@, signature@),
        r is Ok <== (exists|sk: Seq<u8>| sk.len() == 32 && public_key@ == ed25519_public_of(ed25519_expanded_of(sk))
            && signature@ == #[trigger] ed25519_signature_of(ed25519_expanded_of(sk), message@)),
{
    let pk = ed25519_dalek::PublicKey::from_bytes(public_key)?;
    let sig = ed25519_dalek::Signature::from_bytes(signature)?;
    pk.verify(message, &sig)
}

/// Relies on `bs58::encode(..).into_string()`: the base58 text of some bytes.
#[verifier::external_body]
pub(crate) fn base58(bytes: &[u8]) -> (r: String)
    ensures
        r@ == base58_of(bytes@),
{
    bs58::encode(bytes).into_string()
}

/// The lower-case hexadecimal digit of a value below sixteen.
pub open spec fn hex_digit(n: u8) -> char {
    if n < 10 {
        ((n + 48) as u8) as char
    } else {
        ((n + 87) as u8) as char
    }
}

/// Two lower-case hexadecimal digits per byte, high nibble first.
pub open spec fn hex_text(b: Seq<u8>) -> Seq<char> {
    Seq::new(2 * b.len(), |i: int| if i % 2 == 0 { hex_digit(b[i / 2] / 16) } else { hex_digit(b[i / 2] % 16) })
}

/// Relies on `hex::encode`: two lower-case hexadecimal digits per byte, high nibble first.
#[verifier::external_body]
fn hex_encode(bytes: &[u8]) -> (r: String)
    ensures
        r@ == hex_text(bytes@),
{
    hex::encode(bytes)
}

/// The kinds of ledger account ids.
#[derive(Debug, Clone, Copy, PartialEq, Eq, Structural)]
pub enum AccountClass {
    NearImplicit,
    EthImplicit,
    NearDeterministic,
    Universal,
    Named,
}

pub open spec fn is_lower_hex(c: char) -> bool {
    ('0' <= c <= '9') || ('a' <= c <= 'f')
}

pub open spec fn is_crockford(c: char) -> bool {
    ('0' <= c <= '9') || ('a' <= c <= 'z' && c != 'i' && c != 'l' && c != 'o' && c != 'u')
}

pub open spec fn tagged_hex(id: Seq<char>, tag: char) -> bool {
    &&& id.len() == 42
    &&& id[0] == '0' && id[1] == tag
    &&& forall|i: int| 2 <= i < 42 ==> is_lower_hex(#[trigger] id[i])
}

/// The kind of a valid account id, as `AccountIdRef::get_account_type` decides it.
pub open spec fn account_class_of(id: Seq<char>) -> AccountClass {
    if tagged_hex(id, 'x') {
        AccountClass::EthImplicit
    } else if id.len() == 64 && (forall|i: int| 0 <= i < 64 ==> is_lower_hex(#[trigger] id[i])) {
        AccountClass::NearImplicit
    } else if tagged_hex(id, 's') {
        AccountClass::NearDeterministic
    } else if id.len() == 54 && id[0] == '0' && id[1] == 'u' && (forall|i: int| 2 <= i < 54 ==> is_crockford(#[trigger] id[i])) && (id[53] == '0' || id[53] == 'g') {
        AccountClass::Universal
    } else {
        AccountClass::Named
    }
}

pub open spec fn is_implicit_class(k: AccountClass) -> bool {
    k != AccountClass::Named
}

/// Relies on `str::parse::<near_account_id::AccountId>` and
/// `AccountIdRef::get_account_type`: whether the text is a valid account id
/// (from 2 to 64 ASCII characters), and its kind.
#[verifier::external_body]
fn near_account_class(id: &str) -> (r: Result<AccountClass, near_account_id::ParseAccountError>)
    ensures
        r is Ok <==> near_id_valid(id@),
        r matches Ok(k) ==> k == account_class_of(id@),
        r is Ok ==> 2 <= id@.len() <= 64,
{
    match id.parse::<near_account_id::AccountId>()?.get_account_type() {
        AccountType::NearImplicitAccount => Ok(AccountClass::NearImplicit),
        AccountType::EthImplicitAccount => Ok(AccountClass::EthImplicit),
        AccountType::NearDeterministicAccount => Ok(AccountClass::NearDeterministic),
        AccountType::UniversalAccount => Ok(AccountClass::Universal),
        AccountType::NamedAccount => Ok(AccountClass::Named),
    }
}

/// Whether an account id is an implicit one (derived from key material).
pub fn check_implicit_account(account_id: &str) -> (r: Result<bool, UserError>)
    ensures
        near_id_valid(account_id@) ==> 2 <= account_id@.len() <= 64 && r == Ok::<bool, UserError>(is_implicit_class(account_class_of(account_id@))),
        !near_id_valid(account_id@) ==> r matches Err(UserError::AccountParse(_)),
{
    match near_account_class(account_id) {
        Ok(k) => Ok(k != AccountClass::Named),
        Err(e) => Err(UserError::AccountParse(e)),
    }
}

pub open spec fn system_account_name() -> Seq<char> {
    seq!['s', 'y', 's', 't', 'e', 'm']
}

/// Whether an account id is a normal, human-readable one: neither implicit nor the system account.
pub fn check_normal_account(account_id: &str) -> (r: Result<bool, UserError>)
    ensures
        near_id_valid(account_id@) ==> 2 <= account_id@.len() <= 64 && r == Ok::<bool, UserError>(
            !(account_id@.len() == 0 || is_implicit_class(account_class_of(account_id@)) || account_id@ == system_account_name()),
        ),
        !near_id_valid(account_id@) ==> r matches Err(UserError::AccountParse(_)),
{
    match near_account_class(account_id) {
        Ok(k) => {
            proof {
                reveal_strlit("system");
                assert("system"@ =~= system_account_name());
            }
            Ok(k == AccountClass::Named && !str_eq(account_id, "system"))
        },
        Err(e) => Err(UserError::AccountParse(e)),
    }
}

/// An implicit wallet account: a key pair and the account id derived from
/// its public key. The secret key stays inside; only its base58 text leaves.
pub struct NearAccount {
    public_key: Vec<u8>,
    expanded_secret_key: Vec<u8>,
    account_id: String,
}

impl NearAccount {
    pub closed spec fn public_key(&self) -> Seq<u8> {
        self.public_key@
    }

    pub closed spec fn expanded_secret_key(&self) -> Seq<u8> {
        self.expanded_secret_key@
    }

    pub closed spec fn account_id(&self) -> Seq<char> {
        self.account_id@
    }

    /// The key material is consistent: the 64-byte expanded form of a 32-byte
    /// secret, and its 32-byte public key.
    pub open spec fn wf(&self) -> bool {
        &&& self.expanded_secret_key().len() == 64
        &&& self.public_key().len() == 32
        &&& self.public_key() == ed25519_public_of(self.expanded_secret_key())
        &&& exists|sk: Seq<u8>| sk.len() == 32 && self.expanded_secret_key() == #[trigger] ed25519_expanded_of(sk)
    }

    /// The account generated from a 32-byte secret: its id is the hex text of
    /// its public key, and must classify as an implicit account.
    pub fn from_secret(secret: &[u8]) -> (r: Result<NearAccount, UserError>)
        requires
            secret@.len() == 32,
        ensures
            (match r {
                Ok(a) => {
                    &&& a.expanded_secret_key() == ed25519_expanded_of(secret@)
                    &&& a.public_key() == ed25519_public_of(ed25519_expanded_of(secret@))
                    &&& a.account_id() == hex_text(a.public_key())
                    &&& near_id_valid(a.account_id())
                    &&& account_class_of(a.account_id()) == AccountClass::NearImplicit
                    &&& a.wf()
                },
                Err(e) => e matches UserError::AccountParse(_) && !near_id_valid(
                    hex_text(ed25519_public_of(ed25519_expanded_of(secret@))),
                ),
            }),
    {
        let expanded = expand_secret(secret);
        let public_key = public_of_expanded(expanded.as_slice());
        let account_id = hex_encode(public_key.as_slice());
        proof {
            lemma_hex_of_key_is_near_implicit(public_key@);
        }
        proof {
            assert(expanded@ == ed25519_expanded_of(secret@));
        }
        match check_implicit_account(account_id.as_str()) {
            Ok(true) => Ok(NearAccount { public_key, expanded_secret_key: expanded, account_id }),
            Ok(false) => Err(UserError::BadImplicitAccount),
            Err(e) => Err(e),
        }
    }

    /// A fresh implicit account from a random secret.
    pub fn new_implicit() -> (r: Result<NearAccount, UserError>)
        ensures
            (match r {
                Ok(a) => {
                    &&& a.wf()
                    &&& a.account_id() == hex_text(a.public_key())
                    &&& a.account_id().len() == 64
                    &&& near_id_valid(a.account_id())
                    &&& account_class_of(a.account_id()) == AccountClass::NearImplicit
                },
                Err(e) => e matches UserError::AccountParse(_),
            }),
    {
        let secret = random_bytes32();
        NearAccount::from_secret(secret.as_slice())
    }

    /// The expanded secret key as base58 text.
    pub fn secret_key_b58_encoded(&self) -> (r: String)
        ensures
            r@ == base58_of(self.expanded_secret_key()),
    {
        base58(self.expanded_secret_key.as_slice())
    }

    /// The public key as base58 text.
    pub fn pub_key_b58_encoded(&self) -> (r: String)
        ensures
            r@ == base58_of(self.public_key()),
    {
        base58(self.public_key.as_slice())
    }

    /// Signs a message: the signature's bytes and its base58 text.
    pub fn sign_message(&self, message: &[u8]) -> (r: (Vec<u8>, String))
        requires
            self.wf(),
        ensures
            r.0@ == ed25519_signature_of(self.expanded_secret_key(), message@),
            r.0@.len() == 64,
            r.1@ == base58_of(r.0@),
    {
        let sig = sign_with(self.expanded_secret_key.as_slice(), self.public_key.as_slice(), message);
        let text = base58(sig.as_slice());
        (sig, text)
    }

    /// Checks a signature of a message under this account's public key.
    pub fn verify_signature(&self, message: &[u8], signature_bytes: &[u8]) -> (r: Result<(), ed25519_dalek::SignatureError>)
        requires
            self.wf(),
        ensures
            r is Ok <==> ed25519_accepts(self.public_key(), message@, signature_bytes@),
            signature_bytes@ == ed25519_signature_of(self.expanded_secret_key(), message@) ==> r is Ok,
    {
        let r = verify_signature_with_pub_key(self.public_key.as_slice(), message, signature_bytes);
        proof {
            let sk = choose|sk: Seq<u8>| sk.len() == 32 && self.expanded_secret_key() == #[trigger] ed25519_expanded_of(sk);
            if signature_bytes@ == ed25519_signature_of(self.expanded_secret_key(), message@) {
                assert(signature_bytes@ == ed25519_signature_of(ed25519_expanded_of(sk), message@));
            }
        }
        r
    }

    /// The account id: the hex text of the public key.
    pub fn account_id_hex_encoded(&self) -> (r: &str)
        ensures
            r@ == self.account_id(),
    {
        self.account_id.as_str()
    }
}

/// Checks a signature of a message under a public key; a signature made with
/// the key pair of a 32-byte secret passes under that pair's public key.
pub fn verify_signature_with_pub_key(public_key: &[u8], message: &[u8], signature_bytes: &[u8]) -> (r: Result<(), ed25519_dalek::SignatureError>)
    ensures
        r is Ok <==> ed25519_accepts(public_key@, message@, signature_bytes@),
        forall|sk: Seq<u8>| sk.len() == 32 && public_key@ == ed25519_public_of(ed25519_expanded_of(sk))
            && signature_bytes@ == #[trigger] ed25519_signature_of(ed25519_expanded_of(sk), message@) ==> r is Ok,
{
    verify_with(public_key, message, signature_bytes)
}

proof fn lemma_hex_of_key_is_near_implicit(b: Seq<u8>)
    requires
        b.len() == 32,
    ensures
        account_class_of(hex_text(b)) == AccountClass::NearImplicit,
{
    let h = hex_text(b);
    assert forall|i: int| 0 <= i < 64 implies is_lower_hex(#[trigger] h[i]) by {
        let n: u8 = if i % 2 == 0 { b[i / 2] / 16 } else { b[i / 2] % 16 };
        assert(n < 16);
        assert(h[i] == hex_digit(n));
    }
}

} // verus!
