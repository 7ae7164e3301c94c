use newtube_tools::normalize::{
    canonicalize_channel_url, normalize_domain, normalize_lowered_domain, normalize_release_repo,
    sanitize_format_id, DomainError, RepoError,
};

#[test]
fn normalize_domain_strips_protocols() {
    assert_eq!(
        normalize_domain("https://Example.com/").unwrap(),
        "example.com"
    );
}

#[test]
fn normalize_domain_rejects_whitespace() {
    assert!(normalize_domain("foo bar").is_err());
}

#[test]
fn normalize_domain_reports_each_error() {
    assert_eq!(normalize_domain("   "), Err(DomainError::Empty));
    assert_eq!(normalize_domain("http:///"), Err(DomainError::Empty));
    assert_eq!(normalize_domain("example.com/path"), Err(DomainError::PathSegment));
    assert_eq!(normalize_domain("foo bar"), Err(DomainError::Whitespace));
    assert_eq!(normalize_domain("  HTTP://Ünï.Example/ ").unwrap(), "ünï.example");
}

#[test]
fn normalize_lowered_domain_keeps_case() {
    assert_eq!(normalize_lowered_domain("http://A.b//").unwrap(), "A.b");
}

#[test]
fn normalize_release_repo_cases() {
    assert_eq!(normalize_release_repo(" owner/repo ").unwrap(), "owner/repo");
    assert_eq!(normalize_release_repo("/owner//repo/").unwrap(), "owner/repo");
    assert_eq!(normalize_release_repo(""), Err(RepoError::Empty));
    assert_eq!(normalize_release_repo("owner"), Err(RepoError::NotOwnerRepo));
    assert_eq!(normalize_release_repo("a/b/c"), Err(RepoError::NotOwnerRepo));
    assert_eq!(normalize_release_repo("//"), Err(RepoError::MissingOwner));
    assert_eq!(normalize_release_repo("owner/"), Err(RepoError::MissingName));
}

#[test]
fn canonicalize_channel_url_strips_trailing_slash() {
    assert_eq!(
        canonicalize_channel_url("HTTPS://Example.com/Channel/"),
        "https://example.com/channel"
    );
}

#[test]
fn canonicalize_channel_url_trims_and_keeps_non_ascii() {
    assert_eq!(canonicalize_channel_url("  HTTPS://YouTube.com/@Test//  "), "https://youtube.com/@test");
    assert_eq!(canonicalize_channel_url("Ä/"), "Ä");
}

#[test]
fn sanitize_format_id_replaces_delimiters() {
    assert_eq!(sanitize_format_id("http/1080p:60"), "http_1080p_60");
    assert_eq!(sanitize_format_id("abc def"), "abc_def");
}
