use std::io::Write;

use newtube_tools::keys::{
    load_public_key, load_signing_key, KeyError, SerializedPrivateKey, SerializedPublicKey,
    SigningKeypair,
};
use newtube_tools::signing::{
    compute_digest, sign_release, signature_message, verify_release, ReleaseSignature,
    VerificationError,
};

fn keypair(seed: u8) -> SigningKeypair {
    SigningKeypair::from_secret(&[seed; 32]).unwrap()
}

fn copy(sig: &ReleaseSignature) -> ReleaseSignature {
    ReleaseSignature {
        format: sig.format,
        version: sig.version.clone(),
        digest: sig.digest.clone(),
        signature: sig.signature.clone(),
    }
}

fn source_archive(files: &[(&str, &[u8])]) -> Vec<u8> {
    let encoder = flate2::write::GzEncoder::new(Vec::new(), flate2::Compression::best());
    let mut builder = tar::Builder::new(encoder);
    for (name, data) in files {
        let mut header = tar::Header::new_gnu();
        header.set_size(data.len() as u64);
        header.set_mode(0o644);
        header.set_mtime(0);
        header.set_cksum();
        builder.append_data(&mut header, format!("source/{name}"), *data).unwrap();
    }
    let encoder = builder.into_inner().unwrap();
    let mut out = encoder.finish().unwrap();
    out.flush().unwrap();
    out
}

#[test]
fn digest_of_empty_input_is_known_blake3() {
    assert_eq!(
        compute_digest(b""),
        "af1349b9f5f9a1a6a0404dea36dcc9499bcb25c9adc112b7cc9a93cae41f3262"
    );
    assert_eq!(compute_digest(b"abc").len(), 64);
    assert_ne!(compute_digest(b"abc"), compute_digest(b"abd"));
}

#[test]
fn signature_message_is_canonical() {
    assert_eq!(
        signature_message("v0.2.0", "ab12"),
        b"viewtube-release|v1|v0.2.0|ab12".to_vec()
    );
}

#[test]
fn public_key_matches_rfc8032_vector() {
    let secret: Vec<u8> = (0..32)
        .map(|i| {
            u8::from_str_radix(
                &"9d61b19deffd5a60ba844af492ec2cc44449c5697b326919703bac031cae7f60"[2 * i..2 * i + 2],
                16,
            )
            .unwrap()
        })
        .collect();
    let kp = SigningKeypair::from_secret(&secret).unwrap();
    let hex: String = kp.public_key.iter().map(|b| format!("{b:02x}")).collect();
    assert_eq!(hex, "d75a980182b10ab7d54bfed3c964073a0ee172f3daa62325af021a68f707511a");
    assert_eq!(
        SigningKeypair::from_secret(&[1u8; 31]).err(),
        Some(KeyError::InvalidLength)
    );
}

#[test]
fn sign_then_verify_round_trips() {
    let kp = keypair(3);
    let artifact = b"some artifact bytes".to_vec();
    let sig = sign_release(&artifact, "v1.2.0", &kp);
    assert_eq!(sig.format, 1);
    assert_eq!(sig.version, "v1.2.0");
    assert_eq!(sig.digest, compute_digest(&artifact));
    let verified = verify_release(&artifact, &sig, &kp.public_of(), Some("v1.2.0")).unwrap();
    assert_eq!(verified.version, "v1.2.0");
    assert_eq!(verified.digest, sig.digest);
    assert!(verify_release(&artifact, &sig, &kp.public_of(), None).is_ok());
}

#[test]
fn flipped_artifact_byte_is_checksum_mismatch() {
    let kp = keypair(4);
    let artifact = vec![0u8, 1, 2, 3, 4, 5, 6, 7];
    let sig = sign_release(&artifact, "v1", &kp);
    for i in 0..artifact.len() {
        let mut tampered = artifact.clone();
        tampered[i] ^= 0x01;
        assert_eq!(
            verify_release(&tampered, &sig, &kp.public_of(), Some("v1")).err(),
            Some(VerificationError::ChecksumMismatch)
        );
    }
}

#[test]
fn flipped_signature_character_is_signature_invalid() {
    let kp = keypair(5);
    let artifact = b"payload".to_vec();
    let sig = sign_release(&artifact, "v1", &kp);
    let chars: Vec<char> = sig.signature.chars().collect();
    for i in 0..chars.len() {
        let mut c = chars.clone();
        c[i] = if c[i] == 'A' { 'B' } else { 'A' };
        let mut tampered = copy(&sig);
        tampered.signature = c.into_iter().collect();
        assert_eq!(compute_digest(&artifact), tampered.digest);
        assert_eq!(
            verify_release(&artifact, &tampered, &kp.public_of(), Some("v1")).err(),
            Some(VerificationError::SignatureInvalid)
        );
    }
}

#[test]
fn wrong_key_and_bad_format_are_refused() {
    let artifact = b"payload".to_vec();
    let sig = sign_release(&artifact, "v1", &keypair(6));
    assert_eq!(
        verify_release(&artifact, &sig, &keypair(7).public_of(), None).err(),
        Some(VerificationError::SignatureInvalid)
    );
    let mut other = copy(&sig);
    other.format = 2;
    assert_eq!(
        verify_release(&artifact, &other, &keypair(6).public_of(), None).err(),
        Some(VerificationError::UnsupportedFormat)
    );
}

#[test]
fn cross_version_replay_is_rejected() {
    let kp = keypair(8);
    let a = b"artifact A".to_vec();
    let b = b"artifact B".to_vec();
    let sig = sign_release(&a, "v1.0.0", &kp);
    assert_eq!(
        verify_release(&b, &sig, &kp.public_of(), Some("v1.0.0")).err(),
        Some(VerificationError::ChecksumMismatch)
    );
    assert_eq!(
        verify_release(&a, &sig, &kp.public_of(), Some("v2.0.0")).err(),
        Some(VerificationError::VersionMismatch)
    );
    let mut relabelled = copy(&sig);
    relabelled.version = "v2.0.0".to_string();
    assert_eq!(
        verify_release(&a, &relabelled, &kp.public_of(), Some("v2.0.0")).err(),
        Some(VerificationError::SignatureInvalid)
    );
}

#[test]
fn concrete_release_scenario() {
    let kp = keypair(9);
    let archive = source_archive(&[
        ("Cargo.toml", b"[package]\nname = \"demo\"\n"),
        ("src/main.rs", b"fn main() {}\n"),
        ("README.md", b"demo\n"),
    ]);
    let d1 = compute_digest(&archive);
    let sig = sign_release(&archive, "v0.1.0", &kp);
    let ok = verify_release(&archive, &sig, &kp.public_of(), None).unwrap();
    assert_eq!(ok.version, "v0.1.0");
    assert_eq!(ok.digest, d1);
    let mut mutated = archive.clone();
    let mid = mutated.len() / 2;
    mutated[mid] ^= 0xff;
    assert_eq!(
        verify_release(&mutated, &sig, &kp.public_of(), None).err(),
        Some(VerificationError::ChecksumMismatch)
    );
}

#[test]
fn truncated_archive_fails_closed() {
    let kp = keypair(10);
    let archive = source_archive(&[("a.txt", b"alpha"), ("b.txt", b"beta")]);
    let sig = sign_release(&archive, "v0.3.0", &kp);
    let truncated = &archive[..archive.len() - 10];
    assert_eq!(
        verify_release(truncated, &sig, &kp.public_of(), Some("v0.3.0")).err(),
        Some(VerificationError::ChecksumMismatch)
    );
}

#[test]
fn stored_keys_load_back() {
    let kp = keypair(11);
    let stored = kp.to_serialized();
    assert_eq!(stored.algorithm, "ed25519");
    let loaded = load_signing_key(&stored).unwrap();
    assert_eq!(loaded.private_key, kp.private_key);
    assert_eq!(loaded.public_key, kp.public_key);
    let public = load_public_key(&kp.to_serialized_public()).unwrap();
    assert_eq!(public.public_key, kp.public_key);
    assert_eq!(stored.private_key, "CwsLCwsLCwsLCwsLCwsLCwsLCwsLCwsLCwsLCwsLCws=");
}

#[test]
fn stored_keys_report_each_error() {
    let bad_alg = SerializedPublicKey { algorithm: "rsa".into(), public_key: "AAAA".into() };
    assert_eq!(load_public_key(&bad_alg).err(), Some(KeyError::UnsupportedAlgorithm));
    let bad_text = SerializedPublicKey { algorithm: "ed25519".into(), public_key: "!!".into() };
    assert_eq!(load_public_key(&bad_text).err(), Some(KeyError::InvalidEncoding));
    let short = SerializedPrivateKey {
        algorithm: "ed25519".into(),
        private_key: "AAAA".into(),
        public_key: String::new(),
    };
    assert_eq!(load_signing_key(&short).err(), Some(KeyError::InvalidLength));
}
