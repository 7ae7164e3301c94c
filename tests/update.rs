use newtube_tools::keys::SigningKeypair;
use newtube_tools::signing::{sign_release, ReleaseSignature};
use newtube_tools::update::{Action, Applier, Event, Stage, UpdateError, UpdateState};

fn keypair() -> SigningKeypair {
    SigningKeypair::from_secret(&[21u8; 32]).unwrap()
}

fn assets(tag: &str) -> Vec<String> {
    vec![
        format!("viewtube-src-{tag}.tar.gz"),
        format!("viewtube-src-{tag}.tar.gz.sig"),
        format!("viewtube-bin-{tag}.tar.gz"),
    ]
}

fn started(applier: &mut Applier, installed: Option<&str>) {
    let a = applier.step(Event::Start {
        lock_acquired: true,
        installed_version: installed.map(|s| s.to_string()),
    });
    assert!(matches!(a, Action::QueryLatestRelease));
}

fn failed_with(applier: &Applier) -> Option<(Stage, UpdateError)> {
    match applier.state {
        UpdateState::Failed { stage, error } => Some((stage, error)),
        _ => None,
    }
}

fn fetch_to_verify(applier: &mut Applier, tag: &str) {
    started(applier, Some("v0.0.9"));
    let a = applier.step(Event::LatestRelease { tag: tag.to_string(), asset_names: assets(tag) });
    match a {
        Action::Download { tag: t } => assert_eq!(t, tag),
        _ => panic!("expected a download"),
    }
}

#[test]
fn full_update_runs_in_order() {
    let kp = keypair();
    let artifact = b"release source".to_vec();
    let sig = sign_release(&artifact, "v0.1.0", &kp);
    let mut applier = Applier::new(Some(kp.public_of()));
    fetch_to_verify(&mut applier, "v0.1.0");
    assert!(matches!(applier.step(Event::Fetched { artifact, signature: sig }), Action::Unpack));
    assert!(matches!(applier.step(Event::Unpacked { has_source_root: true }), Action::Build));
    match applier.step(Event::Built { success: true }) {
        Action::Install { version } => assert_eq!(version, "v0.1.0"),
        _ => panic!("expected install"),
    }
    assert!(matches!(applier.step(Event::Installed), Action::Restart));
    assert!(matches!(applier.step(Event::Restarted), Action::Finish));
    assert!(matches!(applier.state, UpdateState::Done));
    assert!(applier.is_finished());
    assert_eq!(applier.exit_code(), 0);
}

#[test]
fn up_to_date_host_does_nothing() {
    let mut applier = Applier::new(Some(keypair().public_of()));
    started(&mut applier, Some("v0.1.0"));
    let a = applier.step(Event::LatestRelease {
        tag: "v0.1.0".to_string(),
        asset_names: assets("v0.1.0"),
    });
    assert!(matches!(a, Action::Finish));
    assert!(matches!(applier.state, UpdateState::Done));
    assert_eq!(applier.exit_code(), 0);
}

#[test]
fn truncated_download_stops_before_unpacking() {
    let kp = keypair();
    let artifact = b"a complete release archive".to_vec();
    let sig = sign_release(&artifact, "v0.2.0", &kp);
    let mut applier = Applier::new(Some(kp.public_of()));
    fetch_to_verify(&mut applier, "v0.2.0");
    let truncated = artifact[..10].to_vec();
    let a = applier.step(Event::Fetched { artifact: truncated, signature: sig });
    assert!(matches!(a, Action::Finish));
    assert_eq!(failed_with(&applier), Some((Stage::Verifying, UpdateError::ChecksumMismatch)));
    assert_eq!(applier.exit_code(), 1);
    assert!(matches!(applier.step(Event::Unpacked { has_source_root: true }), Action::Finish));
}

#[test]
fn signature_for_other_release_is_version_mismatch() {
    let kp = keypair();
    let artifact = b"old release".to_vec();
    let sig = sign_release(&artifact, "v0.1.0", &kp);
    let mut applier = Applier::new(Some(kp.public_of()));
    fetch_to_verify(&mut applier, "v0.2.0");
    applier.step(Event::Fetched { artifact, signature: sig });
    assert_eq!(failed_with(&applier), Some((Stage::Verifying, UpdateError::VersionMismatch)));
}

#[test]
fn host_without_key_fails_closed() {
    let kp = keypair();
    let artifact = b"release".to_vec();
    let sig = sign_release(&artifact, "v0.3.0", &kp);
    let mut applier = Applier::new(None);
    fetch_to_verify(&mut applier, "v0.3.0");
    applier.step(Event::Fetched { artifact, signature: sig });
    assert_eq!(failed_with(&applier), Some((Stage::Verifying, UpdateError::NoTrustedKey)));
}

#[test]
fn held_lock_exits_cleanly() {
    let mut applier = Applier::new(None);
    let a = applier.step(Event::Start { lock_acquired: false, installed_version: None });
    assert!(matches!(a, Action::Finish));
    assert_eq!(failed_with(&applier), Some((Stage::Idle, UpdateError::LockHeld)));
    assert_eq!(applier.exit_code(), 0);
}

#[test]
fn missing_assets_and_failures_are_reported() {
    let mut applier = Applier::new(None);
    started(&mut applier, None);
    applier.step(Event::LatestRelease {
        tag: "v1".to_string(),
        asset_names: vec!["viewtube-src-v1.tar.gz".to_string()],
    });
    assert_eq!(failed_with(&applier), Some((Stage::Checking, UpdateError::MissingAsset)));

    let kp = keypair();
    let artifact = b"src".to_vec();
    let sig = sign_release(&artifact, "v2", &kp);
    let mut applier = Applier::new(Some(kp.public_of()));
    fetch_to_verify(&mut applier, "v2");
    applier.step(Event::Fetched { artifact, signature: sig });
    applier.step(Event::Unpacked { has_source_root: true });
    applier.step(Event::Built { success: false });
    assert_eq!(failed_with(&applier), Some((Stage::Building, UpdateError::BuildFailure)));

    let mut applier = Applier::new(None);
    started(&mut applier, None);
    applier.step(Event::ActionFailed);
    assert_eq!(failed_with(&applier), Some((Stage::Checking, UpdateError::Io)));

    let mut applier = Applier::new(None);
    applier.step(Event::Installed);
    assert_eq!(failed_with(&applier), Some((Stage::Idle, UpdateError::UnexpectedEvent)));
}

#[test]
fn unpacked_tree_without_source_dir_fails() {
    let kp = keypair();
    let artifact = b"src".to_vec();
    let sig: ReleaseSignature = sign_release(&artifact, "v3", &kp);
    let mut applier = Applier::new(Some(kp.public_of()));
    fetch_to_verify(&mut applier, "v3");
    applier.step(Event::Fetched { artifact, signature: sig });
    applier.step(Event::Unpacked { has_source_root: false });
    assert_eq!(failed_with(&applier), Some((Stage::Unpacking, UpdateError::MissingSourceRoot)));
}

#[test]
fn offline_archive_is_verified_before_unpacking() {
    let kp = keypair();
    let artifact = b"offline release".to_vec();
    let sig = sign_release(&artifact, "v0.4.0", &kp);
    let mut tampered = artifact.clone();
    tampered[0] ^= 1;
    let mut applier = Applier::offline(Some(kp.public_of()), "v0.4.0".to_string());
    assert!(matches!(applier.step(Event::Fetched { artifact: tampered, signature: sig }), Action::Finish));
    assert_eq!(failed_with(&applier), Some((Stage::Verifying, UpdateError::ChecksumMismatch)));

    let sig = sign_release(&artifact, "v0.4.0", &kp);
    let mut applier = Applier::offline(Some(kp.public_of()), "v0.4.0".to_string());
    assert!(matches!(applier.step(Event::Fetched { artifact, signature: sig }), Action::Unpack));
}
