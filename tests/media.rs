use newtube_tools::cli::format_command;
use newtube_tools::media::{
    format_duration, format_quality_label, media_kind_slug, mime_from_extension, timestamp_to_iso,
    upload_date_to_iso, MediaKind, Paths,
};

#[test]
fn format_helpers_cover_edge_cases() {
    assert_eq!(
        format_quality_label(Some(2160), Some("HDR")),
        Some("2160p HDR".into())
    );
    assert_eq!(format_quality_label(None, None), None);
    assert_eq!(mime_from_extension("webm"), "video/webm");
    assert_eq!(mime_from_extension("foo"), "video/foo");
    assert_eq!(
        upload_date_to_iso("20240102"),
        Some("2024-01-02T00:00:00Z".into())
    );
    assert!(upload_date_to_iso("2024").is_none());
    assert_eq!(
        timestamp_to_iso(0).as_deref(),
        Some("1970-01-01T00:00:00+00:00")
    );
    assert_eq!(format_duration(65), "1:05");
    assert_eq!(format_duration(3725), "1:02:05");
}

#[test]
fn quality_labels_and_mime_types() {
    assert_eq!(format_quality_label(Some(720), None), Some("720p".into()));
    assert_eq!(format_quality_label(None, Some("HDR")), Some("HDR".into()));
    assert_eq!(format_quality_label(None, Some("")), None);
    assert_eq!(format_quality_label(Some(-1), Some("")), Some("-1p".into()));
    assert_eq!(mime_from_extension("mp4"), "video/mp4");
    assert_eq!(mime_from_extension("mkv"), "video/x-matroska");
    assert_eq!(media_kind_slug(MediaKind::Video), "videos");
    assert_eq!(media_kind_slug(MediaKind::Short), "shorts");
}

#[test]
fn durations_match_integer_formatting() {
    for d in [0i64, 5, 59, 60, 61, 599, 3599, 3600, 3661, 86399, 360000, -1, -65, -3725, i64::MIN, i64::MAX] {
        let hours = d / 3600;
        let minutes = (d % 3600) / 60;
        let seconds = d % 60;
        let expected = if hours > 0 {
            format!("{hours}:{minutes:02}:{seconds:02}")
        } else {
            format!("{minutes}:{seconds:02}")
        };
        assert_eq!(format_duration(d), expected, "duration {d}");
    }
}

#[test]
fn paths_follow_library_layout() {
    let p = Paths::with_roots("/data/media", "/srv/www");
    assert_eq!(p.videos, "/data/media/videos");
    assert_eq!(p.archive, "/data/media/download-archive.txt");
    assert_eq!(p.metadata_db, "/data/media/metadata.db");
    assert_eq!(p.www_root, "/srv/www");
    assert_eq!(p.media_dir(MediaKind::Short), "/data/media/shorts");
    let q = Paths::from_base("/tmp/lib/");
    assert_eq!(q.www_root, "/tmp/lib/www");
    assert_eq!(q.media_dir(MediaKind::Video), "/tmp/lib/videos");
}

#[test]
fn commands_are_rendered_with_spaces() {
    assert_eq!(format_command("cargo", &["build", "--release"]), "cargo build --release");
    assert_eq!(format_command("ls", &[]), "ls");
}

#[test]
fn upload_dates_follow_the_calendar() {
    assert_eq!(upload_date_to_iso("20240229").as_deref(), Some("2024-02-29T00:00:00Z"));
    assert_eq!(upload_date_to_iso("20230229"), None);
    assert_eq!(upload_date_to_iso("21000229"), None);
    assert_eq!(upload_date_to_iso("20000229").as_deref(), Some("2000-02-29T00:00:00Z"));
    assert_eq!(upload_date_to_iso("20241301"), None);
    assert_eq!(upload_date_to_iso("20240431"), None);
    assert_eq!(upload_date_to_iso("2024010a"), None);
    assert_eq!(upload_date_to_iso("00990101").as_deref(), Some("0099-01-01T00:00:00Z"));
    assert_eq!(upload_date_to_iso("-0010101").as_deref(), Some("-0001-01-01T00:00:00Z"));
    assert_eq!(upload_date_to_iso("+999+1+1").as_deref(), Some("0999-01-01T00:00:00Z"));
    assert_eq!(timestamp_to_iso(86400 + 3661).as_deref(), Some("1970-01-02T01:01:01+00:00"));
    assert_eq!(timestamp_to_iso(i64::MAX), None);
}
