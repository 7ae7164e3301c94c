//! Ed25519 keypairs: the offline signing pair, the trusted public half that
//! hosts hold, and the text forms both are stored in.

use vstd::prelude::*;
use crate::crypto::{base64_decode, base64_decoded, base64_encode, base64_of, ed25519_public_key, public_key_of};
use crate::text::same_text;

verus! {

/// The only key algorithm this release pipeline accepts.
pub const KEY_ALGORITHM: &'static str = "ed25519";

/// A signing keypair held as raw key bytes.
pub struct SigningKeypair {
    pub private_key: Vec<u8>,
    pub public_key: Vec<u8>,
}

/// The verification key a host trusts, as raw key bytes.
pub struct TrustedPublicKey {
    pub public_key: Vec<u8>,
}

/// The stored form of a signing keypair: both halves in base64.
pub struct SerializedPrivateKey {
    pub algorithm: String,
    pub private_key: String,
    pub public_key: String,
}

/// The stored form of a trusted public key, in base64.
pub struct SerializedPublicKey {
    pub algorithm: String,
    pub public_key: String,
}

/// Why a stored key was refused.
#[derive(Debug, Clone, Copy, PartialEq, Eq, Structural)]
pub enum KeyError {
    /// The `algorithm` tag is not [`KEY_ALGORITHM`].
    UnsupportedAlgorithm,
    /// The key text is not well-formed base64.
    InvalidEncoding,
    /// The key does not hold exactly 32 bytes.
    InvalidLength,
}

/// The 32 key bytes that a stored key text stands for, or why it has none.
pub open spec fn decoded_key(text: Seq<char>) -> Result<Seq<u8>, KeyError> {
    match base64_decoded(text) {
        Some(b) => if b.len() == 32 {
            Ok(b)
        } else {
            Err(KeyError::InvalidLength)
        },
        None => Err(KeyError::InvalidEncoding),
    }
}

/// What loading a stored key yields: the algorithm tag is checked first.
pub open spec fn loaded_key(algorithm: Seq<char>, text: Seq<char>) -> Result<Seq<u8>, KeyError> {
    if algorithm != KEY_ALGORITHM@ {
        Err(KeyError::UnsupportedAlgorithm)
    } else {
        decoded_key(text)
    }
}

impl SigningKeypair {
    /// A 32-byte secret key with its own public half.
    pub open spec fn wf(&self) -> bool {
        &&& self.private_key@.len() == 32
        &&& self.public_key@.len() == 32
        &&& self.public_key@ == public_key_of(self.private_key@)
    }

    /// The keypair whose secret half is `secret` (fresh random bytes, when a
    /// new key is generated).
    pub fn from_secret(secret: &[u8]) -> (r: Result<SigningKeypair, KeyError>)
        ensures
            match r {
                Ok(kp) => secret@.len() == 32 && kp.wf() && kp.private_key@ == secret@,
                Err(e) => secret@.len() != 32 && e == KeyError::InvalidLength,
            },
    {
        if secret.len() != 32 {
            return Err(KeyError::InvalidLength);
        }
        let public_key = ed25519_public_key(secret);
        Ok(SigningKeypair { private_key: vstd::slice::slice_to_vec(secret), public_key })
    }

    /// The public half, as a host would trust it.
    pub fn public_of(&self) -> (r: TrustedPublicKey)
        ensures
            r.public_key@ == self.public_key@,
    {
        TrustedPublicKey { public_key: vstd::slice::slice_to_vec(self.public_key.as_slice()) }
    }

    /// The stored form of the whole keypair, which loads back to the same key.
    pub fn to_serialized(&self) -> (r: SerializedPrivateKey)
        ensures
            r.algorithm@ == KEY_ALGORITHM@,
            r.private_key@ == base64_of(self.private_key@),
            r.public_key@ == base64_of(self.public_key@),
            self.wf() ==> loaded_key(r.algorithm@, r.private_key@) == Ok::<Seq<u8>, KeyError>(
                self.private_key@,
            ),
    {
        let private_key = base64_encode(self.private_key.as_slice());
        let public_key = base64_encode(self.public_key.as_slice());
        SerializedPrivateKey { algorithm: String::from_str(KEY_ALGORITHM), private_key, public_key }
    }

    /// The stored form of the public half, which loads back to the same key.
    pub fn to_serialized_public(&self) -> (r: SerializedPublicKey)
        ensures
            r.algorithm@ == KEY_ALGORITHM@,
            r.public_key@ == base64_of(self.public_key@),
            self.wf() ==> loaded_key(r.algorithm@, r.public_key@) == Ok::<Seq<u8>, KeyError>(
                self.public_key@,
            ),
    {
        let public_key = base64_encode(self.public_key.as_slice());
        SerializedPublicKey { algorithm: String::from_str(KEY_ALGORITHM), public_key }
    }
}

fn decode_key(text: &str) -> (r: Result<Vec<u8>, KeyError>)
    ensures
        match r {
            Ok(b) => decoded_key(text@) == Ok::<Seq<u8>, KeyError>(b@),
            Err(e) => decoded_key(text@) == Err::<Seq<u8>, KeyError>(e),
        },
{
    match base64_decode(text) {
        Some(b) => if b.len() == 32 {
            Ok(b)
        } else {
            Err(KeyError::InvalidLength)
        },
        None => Err(KeyError::InvalidEncoding),
    }
}

/// Loads a stored signing keypair. Only the secret half is read; the public
/// half is derived from it again.
pub fn load_signing_key(data: &SerializedPrivateKey) -> (r: Result<SigningKeypair, KeyError>)
    ensures
        match r {
            Ok(kp) => kp.wf() && loaded_key(data.algorithm@, data.private_key@) == Ok::<
                Seq<u8>,
                KeyError,
            >(kp.private_key@),
            Err(e) => loaded_key(data.algorithm@, data.private_key@) == Err::<Seq<u8>, KeyError>(
                e,
            ),
        },
{
    if !same_text(data.algorithm.as_str(), KEY_ALGORITHM) {
        return Err(KeyError::UnsupportedAlgorithm);
    }
    let secret = decode_key(data.private_key.as_str())?;
    let public_key = ed25519_public_key(secret.as_slice());
    Ok(SigningKeypair { private_key: secret, public_key })
}

/// Loads a stored trusted public key.
pub fn load_public_key(data: &SerializedPublicKey) -> (r: Result<TrustedPublicKey, KeyError>)
    ensures
        match r {
            Ok(k) => loaded_key(data.algorithm@, data.public_key@) == Ok::<Seq<u8>, KeyError>(
                k.public_key@,
            ),
            Err(e) => loaded_key(data.algorithm@, data.public_key@) == Err::<Seq<u8>, KeyError>(
                e,
            ),
        },
{
    if !same_text(data.algorithm.as_str(), KEY_ALGORITHM) {
        return Err(KeyError::UnsupportedAlgorithm);
    }
    let public_key = decode_key(data.public_key.as_str())?;
    Ok(TrustedPublicKey { public_key })
}

} // verus!
