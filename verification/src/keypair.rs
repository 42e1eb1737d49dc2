use crate::base58::{base58_decode, base58_decoded};
use crate::error::{Error, KeyFault};
use crate::pubkey::PubkeyWrapper;
use solana_sdk::signer::keypair::Keypair;
use solana_sdk::signer::Signer;
use vstd::prelude::*;

verus! {

/// Whether 64 bytes are a key pair: a secret key followed by the public key
/// that belongs to it.
pub uninterp spec fn keypair_accepted(bytes: Seq<u8>) -> bool;

/// The Ed25519 signature that a key pair gives to a message.
pub uninterp spec fn ed25519_signature(keypair: Seq<u8>, message: Seq<u8>) -> Seq<u8>;

/// Whether `Keypair::from_bytes` of solana-sdk accepts the bytes.
/// Trusted: it accepts exactly what `keypair_accepted` names.
#[verifier::external_body]
fn accepts_keypair(bytes: &[u8; 64]) -> (accepted: bool)
    ensures
        accepted == keypair_accepted(bytes@),
{
    Keypair::from_bytes(bytes).is_ok()
}

/// `Keypair::from_bytes` and then `Signer::sign_message` of solana-sdk.
/// Trusted: there is a signature exactly for the bytes that
/// `keypair_accepted` names, and it is the one that `ed25519_signature` names.
#[verifier::external_body]
fn sign_with(bytes: &[u8; 64], message: &Vec<u8>) -> (signature: Option<[u8; 64]>)
    ensures
        signature is Some <==> keypair_accepted(bytes@),
        signature is Some ==> signature->0@ == ed25519_signature(bytes@, message@),
{
    Keypair::from_bytes(bytes).ok().map(|pair| pair.sign_message(message).into())
}

/// The identity that 64 bytes of key pair sign for: the last 32 bytes.
pub open spec fn public_half(keypair: Seq<u8>) -> Seq<u8> {
    keypair.subrange(32, 64)
}

/// A signing key as the caller hands it over.
#[derive(Clone, Debug, PartialEq, Eq)]
pub enum KeyEncoding {
    /// The key pair itself: the secret key and then the public key.
    Raw(Vec<u8>),
    /// The base-58 text of the key pair.
    Base58(String),
}

/// The bytes that an encoding holds, before anything is known of their
/// length: `None` for a text that is not base 58.
pub open spec fn key_material(encoding: KeyEncoding) -> Option<Seq<u8>> {
    match encoding {
        KeyEncoding::Raw(bytes) => Some(bytes@),
        KeyEncoding::Base58(text) => base58_decoded(text@),
    }
}

/// The key pair that an encoding stands for, or what is wrong with it.
pub open spec fn decoded_key(encoding: KeyEncoding) -> Result<Seq<u8>, KeyFault> {
    match key_material(encoding) {
        None => Err(KeyFault::NotBase58),
        Some(bytes) => if bytes.len() != 64 {
            Err(KeyFault::WrongLength)
        } else if !keypair_accepted(bytes) {
            Err(KeyFault::RejectedKey)
        } else {
            Ok(bytes)
        },
    }
}

/// A key pair that signs transactions: 64 bytes, the secret key and then the
/// public key. Every value of this type has passed validation.
pub struct KeypairWrapper {
    bytes: [u8; 64],
}

impl View for KeypairWrapper {
    type V = Seq<u8>;

    closed spec fn view(&self) -> Seq<u8> {
        self.bytes@
    }
}

impl KeypairWrapper {
    #[verifier::type_invariant]
    spec fn validated(self) -> bool {
        keypair_accepted(self.bytes@)
    }

    /// Reads a signing key from either of its two encodings.
    ///
    /// Fails with `InvalidKeyEncoding` exactly when the text is not base 58,
    /// when the key material is not 64 bytes long, or when the 64 bytes are
    /// not a key pair; the fault says which.
    pub fn decode(encoding: &KeyEncoding) -> (key: Result<KeypairWrapper, Error>)
        ensures
            match decoded_key(*encoding) {
                Ok(bytes) => key is Ok && key->Ok_0@ == bytes,
                Err(fault) => key == Err::<KeypairWrapper, Error>(
                    Error::InvalidKeyEncoding(fault),
                ),
            },
    {
        match encoding {
            KeyEncoding::Raw(bytes) => Self::from_material(bytes),
            KeyEncoding::Base58(text) => match base58_decode(text.as_str()) {
                Some(bytes) => Self::from_material(&bytes),
                None => Err(Error::InvalidKeyEncoding(KeyFault::NotBase58)),
            },
        }
    }

    /// Validates key material of any length.
    fn from_material(material: &Vec<u8>) -> (key: Result<KeypairWrapper, Error>)
        ensures
            material@.len() != 64 ==> key == Err::<KeypairWrapper, Error>(
                Error::InvalidKeyEncoding(KeyFault::WrongLength),
            ),
            material@.len() == 64 && !keypair_accepted(material@) ==> key == Err::<
                KeypairWrapper,
                Error,
            >(Error::InvalidKeyEncoding(KeyFault::RejectedKey)),
            material@.len() == 64 && keypair_accepted(material@) ==> key is Ok && key->Ok_0@
                == material@,
    {
        if material.len() != 64 {
            return Err(Error::InvalidKeyEncoding(KeyFault::WrongLength));
        }
        let mut bytes: [u8; 64] = [0u8; 64];
        let mut i: usize = 0;
        while i < 64
            invariant
                i <= 64,
                material@.len() == 64,
                forall|j: int| 0 <= j < i ==> bytes@[j] == material@[j],
            decreases 64 - i,
        {
            bytes[i] = material[i];
            i += 1;
        }
        assert(bytes@ =~= material@);
        if accepts_keypair(&bytes) {
            Ok(KeypairWrapper { bytes })
        } else {
            Err(Error::InvalidKeyEncoding(KeyFault::RejectedKey))
        }
    }

    /// The identity that the key pair signs for.
    pub fn pubkey(&self) -> (key: PubkeyWrapper)
        ensures
            key@ == public_half(self@),
    {
        let mut public: [u8; 32] = [0u8; 32];
        let mut i: usize = 0;
        while i < 32
            invariant
                i <= 32,
                forall|j: int| 0 <= j < i ==> public@[j] == self.bytes@[32 + j],
            decreases 32 - i,
        {
            public[i] = self.bytes[32 + i];
            i += 1;
        }
        assert(public@ =~= public_half(self.bytes@));
        PubkeyWrapper(public)
    }

    /// Signs a message.
    pub fn sign(&self, message: &Vec<u8>) -> (signature: [u8; 64])
        ensures
            signature@ == ed25519_signature(self@, message@),
    {
        proof {
            use_type_invariant(self);
        }
        match sign_with(&self.bytes, message) {
            Some(signature) => signature,
            None => [0u8; 64],
        }
    }
}

} // verus!
