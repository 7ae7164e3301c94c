use newtube_tools::archive::{
    binary_archive_name, should_skip_source_entry, signature_path_for, source_archive_name,
};

#[test]
fn artifact_names_follow_convention() {
    assert_eq!(source_archive_name("v0.2.0"), "viewtube-src-v0.2.0.tar.gz");
    assert_eq!(binary_archive_name("v0.2.0"), "viewtube-bin-v0.2.0.tar.gz");
    assert_eq!(
        signature_path_for("out/viewtube-src-v0.2.0.tar.gz"),
        "out/viewtube-src-v0.2.0.tar.gz.sig"
    );
}

#[test]
fn source_entries_skip_build_and_vcs_dirs() {
    assert!(should_skip_source_entry(".git"));
    assert!(should_skip_source_entry(".git/config"));
    assert!(should_skip_source_entry("target/release/backend"));
    assert!(should_skip_source_entry("node_modules/x/index.js"));
    assert!(should_skip_source_entry("coverage"));
    assert!(!should_skip_source_entry("src/target/mod.rs"));
    assert!(!should_skip_source_entry("targets"));
    assert!(!should_skip_source_entry("src/main.rs"));
    assert!(!should_skip_source_entry(""));
}
