//! Records of the media metadata store that the backend serves, and the
//! handle that names the store.

use vstd::prelude::*;

verus! {

/// One subtitle track of a video.
pub struct SubtitleTrack {
    pub code: String,
    pub name: String,
    pub url: String,
    pub path: Option<String>,
}

/// All subtitle tracks that belong to a video id.
pub struct SubtitleCollection {
    pub videoid: String,
    pub languages: Vec<SubtitleTrack>,
}

/// A comment on a video, as the frontend shows it.
pub struct CommentRecord {
    pub id: String,
    pub videoid: String,
    pub author: String,
    pub text: String,
    pub likes: Option<i64>,
    pub time_posted: Option<String>,
    pub parent_comment_id: Option<String>,
    pub status_likedbycreator: bool,
    pub reply_count: Option<i64>,
}

/// A reader of the metadata store at a given database path; every query
/// opens a connection of its own.
pub struct MetadataReader {
    db_path: String,
}

impl MetadataReader {
    /// The path of the database this reader queries.
    pub closed spec fn path(&self) -> Seq<char> {
        self.db_path@
    }

    /// A reader of the database at `path`; nothing is opened yet.
    pub fn new(path: &str) -> (r: MetadataReader)
        ensures
            r.path() == path@,
    {
        MetadataReader { db_path: String::from_str(path) }
    }

    /// The path of the database this reader queries.
    pub fn db_path(&self) -> (r: &str)
        ensures
            r@ == self.path(),
    {
        self.db_path.as_str()
    }
}

} // verus!
