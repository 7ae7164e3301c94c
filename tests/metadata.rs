use newtube_tools::metadata::{CommentRecord, MetadataReader, SubtitleCollection, SubtitleTrack};

#[test]
fn reader_keeps_database_path() {
    let reader = MetadataReader::new("/yt/metadata.db");
    assert_eq!(reader.db_path(), "/yt/metadata.db");
}

#[test]
fn records_hold_their_fields() {
    let track = SubtitleTrack {
        code: "en".into(),
        name: "English".into(),
        url: "/api/videos/alpha/subtitles/en".into(),
        path: None,
    };
    let collection = SubtitleCollection { videoid: "alpha".into(), languages: vec![track] };
    assert_eq!(collection.languages[0].name, "English");
    let comment = CommentRecord {
        id: "c1".into(),
        videoid: "alpha".into(),
        author: String::new(),
        text: "hello".into(),
        likes: Some(2),
        time_posted: None,
        parent_comment_id: None,
        status_likedbycreator: false,
        reply_count: None,
    };
    assert_eq!(comment.likes, Some(2));
}
