use newtube_tools::config::{
    load_runtime_paths, load_runtime_paths_from, parse_env_config, set_app_version, ConfigError,
    DEFAULT_NEWTUBE_HOST, DEFAULT_NEWTUBE_PORT, DEFAULT_RELEASE_REPO,
};

#[test]
fn read_env_config_extracts_port() {
    let parsed =
        parse_env_config("MEDIA_ROOT=\"/yt\"\nWWW_ROOT=\"/www\"\nNEWTUBE_PORT=\"4242\"\n").unwrap();
    assert_eq!(parsed.newtube_port, Some(4242));
}

#[test]
fn read_env_config_parses_values() {
    let cfg = parse_env_config(
        "MEDIA_ROOT=\"/yt\"\nWWW_ROOT=\"/www\"\nAPP_VERSION=\"1.2.3\"\nDOMAIN_NAME=\"demo.example\"\n\n",
    )
    .unwrap();
    assert_eq!(cfg.media_root.unwrap(), "/yt");
    assert_eq!(cfg.www_root.unwrap(), "/www");
    assert_eq!(cfg.app_version.unwrap(), "1.2.3");
    assert_eq!(cfg.domain_name.unwrap(), "demo.example");
}

#[test]
fn load_runtime_paths_defaults_missing_port() {
    let runtime = load_runtime_paths_from(Some("MEDIA_ROOT=\"/m\"\nWWW_ROOT=\"/w\"\n")).unwrap();
    assert_eq!(runtime.newtube_port, DEFAULT_NEWTUBE_PORT);
    assert_eq!(runtime.media_root, "/m");
    assert_eq!(runtime.www_root, "/w");
    assert_eq!(runtime.newtube_host, DEFAULT_NEWTUBE_HOST);
    assert_eq!(runtime.release_repo, DEFAULT_RELEASE_REPO);
}

#[test]
fn load_runtime_paths_reads_host() {
    let runtime = load_runtime_paths_from(Some(
        "MEDIA_ROOT=\"/m\"\nWWW_ROOT=\"/w\"\nNEWTUBE_HOST=\"0.0.0.0\"\n",
    ))
    .unwrap();
    assert_eq!(runtime.newtube_host, "0.0.0.0");
}

#[test]
fn env_config_skips_comments_and_unknown_keys() {
    let cfg = parse_env_config(
        "# comment\r\n  OTHER=1\nnot a setting\n MEDIA_ROOT = \"/x\" \nRELEASE_REPO=\"\"\nNEWTUBE_HOST=\r\n",
    )
    .unwrap();
    assert_eq!(cfg.media_root, None);
    assert_eq!(cfg.release_repo, None);
    assert_eq!(cfg.newtube_host, None);
    let cfg = parse_env_config("MEDIA_ROOT= \"/x\" \r\nRELEASE_REPO=o/r").unwrap();
    assert_eq!(cfg.media_root.as_deref(), Some("/x"));
    assert_eq!(cfg.release_repo.as_deref(), Some("o/r"));
}

#[test]
fn env_config_port_bounds() {
    assert_eq!(parse_env_config("NEWTUBE_PORT=65535").unwrap().newtube_port, Some(65535));
    assert_eq!(parse_env_config("NEWTUBE_PORT=+0080").unwrap().newtube_port, Some(80));
    assert_eq!(parse_env_config("NEWTUBE_PORT=65536").err(), Some(ConfigError::InvalidPort));
    assert_eq!(parse_env_config("NEWTUBE_PORT=").err(), Some(ConfigError::InvalidPort));
    assert_eq!(parse_env_config("NEWTUBE_PORT=-1").err(), Some(ConfigError::InvalidPort));
    assert_eq!(
        parse_env_config("NEWTUBE_PORT=99999999999999999999").err(),
        Some(ConfigError::InvalidPort)
    );
}

#[test]
fn runtime_paths_report_each_error() {
    assert_eq!(load_runtime_paths(None).err(), Some(ConfigError::MissingConfig));
    assert_eq!(
        load_runtime_paths(Some("WWW_ROOT=/w\n")).err(),
        Some(ConfigError::MissingMediaRoot)
    );
    assert_eq!(
        load_runtime_paths(Some("MEDIA_ROOT=/m\n")).err(),
        Some(ConfigError::MissingWwwRoot)
    );
    assert_eq!(
        load_runtime_paths(Some("MEDIA_ROOT=/m\nWWW_ROOT=/w\nNEWTUBE_PORT=x\n")).err(),
        Some(ConfigError::InvalidPort)
    );
}

#[test]
fn app_version_is_rewritten_in_place() {
    assert_eq!(
        set_app_version("MEDIA_ROOT=\"/m\"\nAPP_VERSION=\"v0.1.0\"\nWWW_ROOT=\"/w\"\n", "v0.2.0"),
        "MEDIA_ROOT=\"/m\"\nAPP_VERSION=\"v0.2.0\"\nWWW_ROOT=\"/w\"\n"
    );
    assert_eq!(set_app_version("MEDIA_ROOT=/m", "v1"), "MEDIA_ROOT=/m\nAPP_VERSION=\"v1\"\n");
    assert_eq!(set_app_version("MEDIA_ROOT=/m\n", "v1"), "MEDIA_ROOT=/m\nAPP_VERSION=\"v1\"\n");
    assert_eq!(set_app_version("", "v1"), "APP_VERSION=\"v1\"\n");
    let updated = set_app_version("# APP_VERSION=\"x\"\n  APP_VERSION = \"old\"\n", "v3");
    assert_eq!(updated, "# APP_VERSION=\"x\"\n  APP_VERSION = \"old\"\nAPP_VERSION=\"v3\"\n");
    assert_eq!(
        parse_env_config(&updated).unwrap().app_version.as_deref(),
        Some("v3")
    );
}
