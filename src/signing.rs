//! Digests, detached signature records, and the signer and verifier that
//! bind a release tag and an artifact's digest under an Ed25519 key.

use vstd::prelude::*;
use vstd::utf8::encode_utf8;
use crate::crypto::{
    base64_decode, base64_decoded, base64_encode, base64_of, blake3_hash, blake3_of,
    ed25519_accepts, ed25519_sign, ed25519_signature, ed25519_verify, hex_of, public_key_of,
    to_hex,
};
use crate::keys::{SigningKeypair, TrustedPublicKey};
use crate::text::same_text;

verus! {

/// The one signature-record format this verifier understands.
pub const RELEASE_SIG_VERSION: u32 = 1;

/// Literal that opens every signed message, so that release signatures
/// cannot be confused with other uses of the same key.
pub const RELEASE_SIG_PREFIX: &'static str = "viewtube-release";

/// The separator and format tag between the prefix and the release tag
/// (`|v` followed by [`RELEASE_SIG_VERSION`] and `|`).
pub const RELEASE_SIG_FORMAT_TAG: &'static str = "|v1|";

/// The detached signature record that travels next to an artifact.
pub struct ReleaseSignature {
    pub format: u32,
    pub version: String,
    pub digest: String,
    pub signature: String,
}

/// The contents of a [`ReleaseSignature`] as plain values.
pub struct SignatureView {
    pub format: u32,
    pub version: Seq<char>,
    pub digest: Seq<char>,
    pub signature: Seq<char>,
}

impl View for ReleaseSignature {
    type V = SignatureView;

    open spec fn view(&self) -> SignatureView {
        SignatureView {
            format: self.format,
            version: self.version@,
            digest: self.digest@,
            signature: self.signature@,
        }
    }
}

/// Why an artifact was refused.
#[derive(Debug, Clone, Copy, PartialEq, Eq, Structural)]
pub enum VerificationError {
    /// The record's `format` is not [`RELEASE_SIG_VERSION`].
    UnsupportedFormat,
    /// The artifact's digest differs from the one in the record.
    ChecksumMismatch,
    /// The signature is malformed or does not check out under the trusted key.
    SignatureInvalid,
    /// The record is genuine but names another release than the one expected.
    VersionMismatch,
}

/// Content digest of an artifact: the lower-case hex of its BLAKE3 hash.
pub open spec fn digest_of(artifact: Seq<u8>) -> Seq<char> {
    hex_of(blake3_of(artifact))
}

/// The canonical message text `<prefix>|v<format>|<version>|<digest>`.
pub open spec fn message_text(version: Seq<char>, digest: Seq<char>) -> Seq<char> {
    RELEASE_SIG_PREFIX@ + RELEASE_SIG_FORMAT_TAG@ + version + "|"@ + digest
}

/// The bytes that are signed: the UTF-8 encoding of the canonical message.
pub open spec fn message_bytes(version: Seq<char>, digest: Seq<char>) -> Seq<u8> {
    encode_utf8(message_text(version, digest))
}

/// The record that signing `artifact` as `version` with `secret` produces.
pub open spec fn signed_record(artifact: Seq<u8>, version: Seq<char>, secret: Seq<u8>) -> SignatureView {
    SignatureView {
        format: RELEASE_SIG_VERSION,
        version: version,
        digest: digest_of(artifact),
        signature: base64_of(
            ed25519_signature(secret, message_bytes(version, digest_of(artifact))),
        ),
    }
}

/// Whether the record's signature field decodes to 64 bytes that strict
/// Ed25519 verification accepts over the record's own message.
pub open spec fn signature_checks_out(record: SignatureView, public: Seq<u8>) -> bool {
    match base64_decoded(record.signature) {
        Some(raw) => raw.len() == 64 && public.len() == 32 && ed25519_accepts(
            public,
            message_bytes(record.version, record.digest),
            raw,
        ),
        None => false,
    }
}

/// The verdict on an artifact and its record under a trusted key: format
/// first, then the digest, then the signature, then the expected version.
pub open spec fn verdict(
    artifact: Seq<u8>,
    record: SignatureView,
    public: Seq<u8>,
    expected: Option<Seq<char>>,
) -> Result<(), VerificationError> {
    if record.format != RELEASE_SIG_VERSION {
        Err(VerificationError::UnsupportedFormat)
    } else if digest_of(artifact) != record.digest {
        Err(VerificationError::ChecksumMismatch)
    } else if !signature_checks_out(record, public) {
        Err(VerificationError::SignatureInvalid)
    } else {
        match expected {
            Some(e) => if e == record.version {
                Ok(())
            } else {
                Err(VerificationError::VersionMismatch)
            },
            None => Ok(()),
        }
    }
}

/// The content digest of `artifact`: 64 lower-case hex digits.
pub fn compute_digest(artifact: &[u8]) -> (r: String)
    ensures
        r@ == digest_of(artifact@),
        r@.len() == 64,
{
    let hash = blake3_hash(artifact);
    to_hex(hash.as_slice())
}

/// The exact bytes that are signed for `version` and `digest_hex`.
pub fn signature_message(version: &str, digest_hex: &str) -> (r: Vec<u8>)
    ensures
        r@ == message_bytes(version@, digest_hex@),
{
    let mut text = String::from_str(RELEASE_SIG_PREFIX);
    text.append(RELEASE_SIG_FORMAT_TAG);
    text.append(version);
    text.append("|");
    text.append(digest_hex);
    let bytes = text.as_str().as_bytes();
    vstd::slice::slice_to_vec(bytes)
}

/// Signs `artifact` as release `version`. When strict verification accepts
/// the key's own signature, verifying the record against the artifact and the
/// key's public half succeeds with that very version.
pub fn sign_release(artifact: &[u8], version: &str, keypair: &SigningKeypair) -> (r: ReleaseSignature)
    requires
        keypair.wf(),
    ensures
        r@ == signed_record(artifact@, version@, keypair.private_key@),
        ed25519_accepts(
            keypair.public_key@,
            message_bytes(version@, digest_of(artifact@)),
            ed25519_signature(keypair.private_key@, message_bytes(version@, digest_of(artifact@))),
        ) ==> verdict(artifact@, r@, keypair.public_key@, Some(version@)) == Ok::<
            (),
            VerificationError,
        >(()),
{
    let digest = compute_digest(artifact);
    let message = signature_message(version, digest.as_str());
    let raw = ed25519_sign(keypair.private_key.as_slice(), message.as_slice());
    let encoded = base64_encode(raw.as_slice());
    ReleaseSignature {
        format: RELEASE_SIG_VERSION,
        version: String::from_str(version),
        digest,
        signature: encoded,
    }
}

/// Checks `artifact` against its detached `record` under the trusted key and,
/// when given, the version the caller asked for. On success the record comes
/// back unchanged.
pub fn verify_release(
    artifact: &[u8],
    record: &ReleaseSignature,
    key: &TrustedPublicKey,
    expected_version: Option<&str>,
) -> (r: Result<ReleaseSignature, VerificationError>)
    ensures
        match r {
            Ok(s) => verdict(
                artifact@,
                record@,
                key.public_key@,
                match expected_version {
                    Some(e) => Some(e@),
                    None => None,
                },
            ) is Ok && s@ == record@,
            Err(e) => verdict(
                artifact@,
                record@,
                key.public_key@,
                match expected_version {
                    Some(e) => Some(e@),
                    None => None,
                },
            ) == Err::<(), VerificationError>(e),
        },
{
    if record.format != RELEASE_SIG_VERSION {
        return Err(VerificationError::UnsupportedFormat);
    }
    let digest = compute_digest(artifact);
    if digest != record.digest {
        return Err(VerificationError::ChecksumMismatch);
    }
    let raw = match base64_decode(record.signature.as_str()) {
        Some(raw) => raw,
        None => {
            return Err(VerificationError::SignatureInvalid);
        },
    };
    if raw.len() != 64 || key.public_key.len() != 32 {
        return Err(VerificationError::SignatureInvalid);
    }
    let message = signature_message(record.version.as_str(), record.digest.as_str());
    if !ed25519_verify(key.public_key.as_slice(), message.as_slice(), raw.as_slice()) {
        return Err(VerificationError::SignatureInvalid);
    }
    if let Some(expected) = expected_version {
        if !same_text(expected, record.version.as_str()) {
            return Err(VerificationError::VersionMismatch);
        }
    }
    Ok(ReleaseSignature {
        format: record.format,
        version: record.version.clone(),
        digest: record.digest.clone(),
        signature: record.signature.clone(),
    })
}

/// Verifying a signed artifact against its own record, the signer's public
/// key and the signed tag succeeds, and the record names that tag and the
/// artifact's digest, whenever the record's signature checks out under the
/// key (which `sign_release` shows follows from strict verification
/// accepting the key's own signature of the message).
pub proof fn lemma_round_trip(artifact: Seq<u8>, tag: Seq<char>, secret: Seq<u8>)
    requires
        signature_checks_out(signed_record(artifact, tag, secret), public_key_of(secret)),
    ensures
        verdict(artifact, signed_record(artifact, tag, secret), public_key_of(secret), Some(tag))
            == Ok::<(), VerificationError>(()),
        signed_record(artifact, tag, secret).version == tag,
        signed_record(artifact, tag, secret).digest == digest_of(artifact),
{
}

/// A signed artifact with one byte changed is refused as a checksum mismatch,
/// never as a bad signature, whenever the change alters its digest.
pub proof fn lemma_content_tamper_detected(
    artifact: Seq<u8>,
    index: int,
    byte: u8,
    version: Seq<char>,
    secret: Seq<u8>,
    public: Seq<u8>,
    expected: Option<Seq<char>>,
)
    requires
        0 <= index < artifact.len(),
        artifact[index] != byte,
        digest_of(artifact.update(index, byte)) != digest_of(artifact),
    ensures
        verdict(artifact.update(index, byte), signed_record(artifact, version, secret), public, expected)
            == Err::<(), VerificationError>(VerificationError::ChecksumMismatch),
{
}

/// A signature record whose signature text has one character changed still
/// matches the artifact's digest, and is refused as an invalid signature
/// unless the changed text decodes to another signature that checks out.
pub proof fn lemma_signature_tamper_detected(
    artifact: Seq<u8>,
    version: Seq<char>,
    secret: Seq<u8>,
    index: int,
    ch: char,
    public: Seq<u8>,
    expected: Option<Seq<char>>,
)
    requires
        0 <= index < signed_record(artifact, version, secret).signature.len(),
        signed_record(artifact, version, secret).signature[index] != ch,
        !signature_checks_out(
            SignatureView {
                signature: signed_record(artifact, version, secret).signature.update(index, ch),
                ..signed_record(artifact, version, secret)
            },
            public,
        ),
    ensures
        ({
            let tampered = SignatureView {
                signature: signed_record(artifact, version, secret).signature.update(index, ch),
                ..signed_record(artifact, version, secret)
            };
            &&& tampered.digest == digest_of(artifact)
            &&& verdict(artifact, tampered, public, expected) == Err::<(), VerificationError>(
                VerificationError::SignatureInvalid,
            )
        }),
{
}

/// A record signed for one artifact does not carry over to another artifact
/// with a different digest, even under the version the caller expects.
pub proof fn lemma_replay_other_artifact_rejected(
    signed: Seq<u8>,
    other: Seq<u8>,
    version: Seq<char>,
    secret: Seq<u8>,
    public: Seq<u8>,
)
    requires
        digest_of(other) != digest_of(signed),
    ensures
        verdict(other, signed_record(signed, version, secret), public, Some(version)) == Err::<
            (),
            VerificationError,
        >(VerificationError::ChecksumMismatch),
{
}

/// A valid record for one release presented where another release is
/// expected is refused as a version mismatch.
pub proof fn lemma_replay_other_version_rejected(
    artifact: Seq<u8>,
    version: Seq<char>,
    claimed: Seq<char>,
    secret: Seq<u8>,
    public: Seq<u8>,
)
    requires
        signature_checks_out(signed_record(artifact, version, secret), public),
        claimed != version,
    ensures
        verdict(artifact, signed_record(artifact, version, secret), public, Some(claimed)) == Err::<
            (),
            VerificationError,
        >(VerificationError::VersionMismatch),
{
}

} // verus!
