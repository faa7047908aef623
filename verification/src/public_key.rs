//! Public keys and signatures of NEAR accounts, held as a curve and raw bytes.
use vstd::prelude::*;
use crate::account_id::{AccountId, AccountType, account_type_of, hex_decoded, is_valid_account_id};

verus! {

/// The error that the NEAR public key parser reports.
#[verifier::external_type_specification]
#[verifier::external_body]
pub struct ExParseKeyError(near_crypto::ParseKeyError);

/// The signature schemes of NEAR keys.
#[derive(Clone, Copy, Debug, PartialEq, Eq, Structural)]
pub enum KeyType {
    Ed25519,
    Secp256k1,
    MlDsa65,
}

/// The number of bytes of a public key of each scheme.
pub open spec fn key_length(key_type: KeyType) -> nat {
    match key_type {
        KeyType::Ed25519 => 32,
        KeyType::Secp256k1 => 64,
        KeyType::MlDsa65 => 1952,
    }
}

/// The name of a scheme in the text form of a key: `ed25519`, `secp256k1`, `ml-dsa-65`.
pub open spec fn key_type_name(key_type: KeyType) -> Seq<char> {
    match key_type {
        KeyType::Ed25519 => "ed25519"@,
        KeyType::Secp256k1 => "secp256k1"@,
        KeyType::MlDsa65 => "ml-dsa-65"@,
    }
}

/// The base58 (Bitcoin alphabet) encoding of a byte string.
pub uninterp spec fn base58_text(data: Seq<u8>) -> Seq<char>;

/// What `near_crypto::PublicKey::from_str` makes of a text: the scheme and the key
/// bytes, or nothing when the text is not a key.
pub uninterp spec fn parsed_public_key(text: Seq<char>) -> Option<(KeyType, Seq<u8>)>;

/// A public key: its scheme and its bytes, as many as the scheme has.
#[derive(Debug, PartialEq, Eq)]
pub struct PublicKey {
    key_type: KeyType,
    data: Vec<u8>,
}

impl View for PublicKey {
    type V = (KeyType, Seq<u8>);

    closed spec fn view(&self) -> (KeyType, Seq<u8>) {
        (self.key_type, self.data@)
    }
}

/// `near_crypto::PublicKey::from_str`: claimed to succeed exactly when
/// [`parsed_public_key`] gives a key for the text, and then to give that key.
/// The format it reads (an optional scheme prefix and base58 data of the
/// scheme's length) and the error it reports are left unsaid.
#[verifier::external_body]
fn near_parse_public_key(text: &str) -> (r: Result<PublicKey, near_crypto::ParseKeyError>)
    ensures
        r is Ok <==> parsed_public_key(text@) is Some,
        r matches Ok(key) ==> parsed_public_key(text@) == Some(key@),
{
    let key = text.parse::<near_crypto::PublicKey>()?;
    let key_type = match key.key_type() {
        near_crypto::KeyType::ED25519 => KeyType::Ed25519,
        near_crypto::KeyType::SECP256K1 => KeyType::Secp256k1,
        near_crypto::KeyType::MLDSA65 => KeyType::MlDsa65,
    };
    Ok(PublicKey { key_type, data: key.key_data().to_vec() })
}

/// `Display` of `near_crypto::PublicKey` (through `to_string`), on a key whose
/// bytes fit its scheme: claimed to write the scheme's name, a colon and the
/// base58 form of the key bytes.
#[verifier::external_body]
fn near_public_key_text(key: &PublicKey) -> (r: String)
    requires
        key.data@.len() == key_length(key.key_type),
    ensures
        r@ == key_type_name(key.key_type) + ":"@ + base58_text(key.data@),
{
    let d = key.data.as_slice();
    let near_key = match key.key_type {
        KeyType::Ed25519 => near_crypto::PublicKey::ED25519(d.try_into().unwrap()),
        KeyType::Secp256k1 => near_crypto::PublicKey::SECP256K1(d.try_into().unwrap()),
        KeyType::MlDsa65 => near_crypto::PublicKey::MLDSA65(
            near_crypto::MlDsa65PublicKey(Box::new(d.try_into().unwrap())),
        ),
    };
    near_key.to_string()
}

/// `near_crypto::PublicKey::from_near_implicit_account`, on a valid account ID:
/// claimed to succeed exactly on NEAR-implicit IDs and then to give the ED25519
/// key whose bytes the ID's 64 hexadecimal digits encode.
#[verifier::external_body]
fn near_implicit_account_key(account_id: &str) -> (r: Option<PublicKey>)
    requires
        is_valid_account_id(account_id@),
    ensures
        r is Some <==> account_type_of(account_id@) == AccountType::NearImplicitAccount,
        r matches Some(key) ==> key@ == (KeyType::Ed25519, hex_decoded(account_id@)),
{
    let id: near_primitives::types::AccountId = account_id.parse().unwrap();
    match near_crypto::PublicKey::from_near_implicit_account(&id) {
        Ok(key) => Some(PublicKey { key_type: KeyType::Ed25519, data: key.key_data().to_vec() }),
        Err(_) => None,
    }
}

impl PublicKey {
    #[verifier::type_invariant]
    spec fn has_scheme_length(&self) -> bool {
        self.data@.len() == key_length(self.key_type)
    }

    /// Makes a key from its scheme and bytes; none when the number of bytes
    /// does not fit the scheme.
    pub fn from_parts(key_type: KeyType, data: Vec<u8>) -> (r: Option<PublicKey>)
        ensures
            r is Some <==> data@.len() == key_length(key_type),
            r matches Some(key) ==> key@ == (key_type, data@),
    {
        let expected: usize = match key_type {
            KeyType::Ed25519 => 32,
            KeyType::Secp256k1 => 64,
            KeyType::MlDsa65 => 1952,
        };
        if data.len() == expected {
            Some(PublicKey { key_type, data })
        } else {
            None
        }
    }

    /// Reads the text form of a key (`ed25519:<base58>` and the like).
    pub fn parse(text: &str) -> (r: Result<PublicKey, near_crypto::ParseKeyError>)
        ensures
            r is Ok <==> parsed_public_key(text@) is Some,
            r matches Ok(key) ==> parsed_public_key(text@) == Some(key@),
    {
        near_parse_public_key(text)
    }

    /// The text form of the key: the scheme's name, a colon and the base58 form of the bytes.
    pub fn to_text(&self) -> (r: String)
        ensures
            r@ == key_type_name(self@.0) + ":"@ + base58_text(self@.1),
    {
        proof {
            use_type_invariant(self);
        }
        near_public_key_text(self)
    }

    /// The key of a NEAR-implicit account: the ED25519 key whose bytes the 64
    /// hexadecimal digits of the ID encode; none for any other kind of account.
    pub fn from_near_implicit_account(account_id: &AccountId) -> (r: Option<PublicKey>)
        ensures
            r is Some <==> account_type_of(account_id@) == AccountType::NearImplicitAccount,
            r matches Some(key) ==> key@ == (KeyType::Ed25519, hex_decoded(account_id@)),
    {
        near_implicit_account_key(account_id.as_str())
    }

    /// The scheme of the key.
    pub fn key_type(&self) -> (r: KeyType)
        ensures
            r == self@.0,
    {
        self.key_type
    }

    /// The bytes of the key.
    pub fn data(&self) -> (r: &[u8])
        ensures
            r@ == self@.1,
            r@.len() == key_length(self@.0),
    {
        proof {
            use_type_invariant(self);
        }
        self.data.as_slice()
    }

    /// A copy of the key.
    pub fn duplicate(&self) -> (r: PublicKey)
        ensures
            r@ == self@,
    {
        proof {
            use_type_invariant(self);
        }
        PublicKey { key_type: self.key_type, data: vstd::slice::slice_to_vec(self.data.as_slice()) }
    }
}

/// A signature: its scheme and its raw bytes.
#[derive(Debug, PartialEq, Eq)]
pub struct Signature {
    pub key_type: KeyType,
    pub data: Vec<u8>,
}

impl View for Signature {
    type V = (KeyType, Seq<u8>);

    open spec fn view(&self) -> (KeyType, Seq<u8>) {
        (self.key_type, self.data@)
    }
}

impl Signature {
    /// A copy of the signature.
    pub fn duplicate(&self) -> (r: Signature)
        ensures
            r@ == self@,
    {
        Signature { key_type: self.key_type, data: vstd::slice::slice_to_vec(self.data.as_slice()) }
    }
}

} // verus!
