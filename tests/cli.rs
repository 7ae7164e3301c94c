use newtube_tools::cli::{ArgError, DownloaderArgs, RoutineArgs, DEFAULT_MEDIA_ROOT, DEFAULT_WWW_ROOT};

#[test]
fn downloader_args_use_defaults() {
    let args = DownloaderArgs::from_slice(&["https://www.youtube.com/@Channel"]).unwrap();
    assert_eq!(args.channel_url, "https://www.youtube.com/@Channel");
    assert_eq!(args.media_root, DEFAULT_MEDIA_ROOT);
    assert_eq!(args.www_root, DEFAULT_WWW_ROOT);
}

#[test]
fn downloader_args_override_roots() {
    let args = DownloaderArgs::from_slice(&[
        "--media-root",
        "/data/media",
        "--www-root",
        "/srv/www",
        "https://www.youtube.com/@Channel",
    ])
    .unwrap();

    assert_eq!(args.media_root, "/data/media");
}

#[test]
fn downloader_args_accept_inline_values() {
    let args = DownloaderArgs::from_slice(&["--media-root=/m", "--www-root=/w", "chan"]).unwrap();
    assert_eq!(args.media_root, "/m");
    assert_eq!(args.www_root, "/w");
    assert_eq!(args.channel_url, "chan");
}

#[test]
fn downloader_args_after_double_dash_take_channel() {
    let args = DownloaderArgs::from_slice(&["--", "-odd-channel"]).unwrap();
    assert_eq!(args.channel_url, "-odd-channel");
    let err = DownloaderArgs::from_slice(&["--", "a", "b"]).err().unwrap();
    assert_eq!(err, ArgError::DuplicateChannel);
}

#[test]
fn downloader_args_report_each_error() {
    assert_eq!(DownloaderArgs::from_slice(&[]).err().unwrap(), ArgError::MissingChannel);
    assert_eq!(
        DownloaderArgs::from_slice(&["chan", "--media-root"]).err().unwrap(),
        ArgError::MissingValue
    );
    assert_eq!(
        DownloaderArgs::from_slice(&["--verbose", "chan"]).err().unwrap(),
        ArgError::UnknownArgument
    );
    assert_eq!(
        DownloaderArgs::from_slice(&["one", "two"]).err().unwrap(),
        ArgError::DuplicateChannel
    );
}

#[test]
fn set_channel_refuses_second_value() {
    let mut slot: Option<String> = None;
    assert!(DownloaderArgs::set_channel(&mut slot, "a".to_string()).is_ok());
    assert_eq!(slot.as_deref(), Some("a"));
    assert_eq!(
        DownloaderArgs::set_channel(&mut slot, "b".to_string()),
        Err(ArgError::DuplicateChannel)
    );
    assert_eq!(slot.as_deref(), Some("a"));
}

#[test]
fn routine_args_default_paths() {
    let args = RoutineArgs::from_slice(&[]).unwrap();
    assert_eq!(args.media_root, DEFAULT_MEDIA_ROOT);
    assert_eq!(args.www_root, DEFAULT_WWW_ROOT);
}

#[test]
fn routine_args_override_paths() {
    let args =
        RoutineArgs::from_slice(&["--media-root", "/data/yt", "--www-root", "/srv/site"]).unwrap();

    assert_eq!(args.media_root, "/data/yt");
    assert_eq!(args.www_root, "/srv/site");
}

#[test]
fn routine_args_refuse_positional_arguments() {
    assert_eq!(
        RoutineArgs::from_slice(&["channel"]).err().unwrap(),
        ArgError::UnknownArgument
    );
    assert_eq!(
        RoutineArgs::from_slice(&["--www-root"]).err().unwrap(),
        ArgError::MissingValue
    );
}
