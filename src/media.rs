//! Naming and labelling of downloaded media: library layout, quality labels,
//! MIME types and durations.

use vstd::prelude::*;
use crate::text::{chars_of, same_text};

verus! {

/// Subdirectory of the media root holding regular videos.
pub const VIDEOS_SUBDIR: &'static str = "videos";

/// Subdirectory of the media root holding Shorts.
pub const SHORTS_SUBDIR: &'static str = "shorts";

/// Subdirectory of the media root holding subtitle files.
pub const SUBTITLES_SUBDIR: &'static str = "subtitles";

/// Subdirectory of the media root holding thumbnails.
pub const THUMBNAILS_SUBDIR: &'static str = "thumbnails";

/// Subdirectory of the media root holding comment dumps.
pub const COMMENTS_SUBDIR: &'static str = "comments";

/// File listing the ids already downloaded.
pub const ARCHIVE_FILE: &'static str = "download-archive.txt";

/// Cookie jar handed to the extractor.
pub const COOKIES_FILE: &'static str = "cookies.txt";

/// The metadata database inside the media root.
pub const METADATA_DB_FILE: &'static str = "metadata.db";

/// The two kinds of media the library keeps apart.
#[derive(Debug, Clone, Copy, PartialEq, Eq, Structural)]
pub enum MediaKind {
    Video,
    Short,
}

/// The path segment that names a media kind in URLs and on disk.
pub open spec fn kind_slug(kind: MediaKind) -> Seq<char> {
    match kind {
        MediaKind::Video => VIDEOS_SUBDIR@,
        MediaKind::Short => SHORTS_SUBDIR@,
    }
}

/// The path segment that names a media kind in URLs and on disk.
pub fn media_kind_slug(kind: MediaKind) -> (r: &'static str)
    ensures
        r@ == kind_slug(kind),
{
    match kind {
        MediaKind::Video => VIDEOS_SUBDIR,
        MediaKind::Short => SHORTS_SUBDIR,
    }
}

/// The MIME type of a video file with extension `ext`.
pub open spec fn mime_of(ext: Seq<char>) -> Seq<char> {
    if ext == "mkv"@ {
        "video/x-matroska"@
    } else {
        "video/"@ + ext
    }
}

/// The MIME type of a video file with extension `ext`.
pub fn mime_from_extension(ext: &str) -> (r: String)
    ensures
        r@ == mime_of(ext@),
{
    if same_text(ext, "mkv") {
        String::from_str("video/x-matroska")
    } else {
        let mut s = String::from_str("video/");
        s.append(ext);
        s
    }
}

/// The decimal digit for `d < 10`.
pub open spec fn digit_char(d: nat) -> char {
    (d + 48) as char
}

/// Decimal text of `n`, without leading zeros.
pub open spec fn decimal(n: nat) -> Seq<char>
    decreases n,
{
    if n < 10 {
        seq![digit_char(n)]
    } else {
        decimal(n / 10) + seq![digit_char(n % 10)]
    }
}

/// Decimal text of `i`, with a leading `-` when it is negative.
pub open spec fn signed_decimal(i: int) -> Seq<char> {
    if i < 0 {
        "-"@ + decimal((-i) as nat)
    } else {
        decimal(i as nat)
    }
}

fn push_decimal(out: &mut String, n: u64)
    ensures
        final(out)@ == old(out)@ + decimal(n as nat),
    decreases n,
{
    if n >= 10 {
        push_decimal(out, n / 10);
    }
    let d = (n % 10) as u8;
    out.push((d + 48) as char);
    assert(final(out)@ =~= old(out)@ + decimal(n as nat));
}

fn push_signed(out: &mut String, i: i64)
    ensures
        final(out)@ == old(out)@ + signed_decimal(i as int),
{
    if i < 0 {
        out.append("-");
        let m = (0i128 - i as i128) as u64;
        push_decimal(out, m);
        assert(final(out)@ =~= old(out)@ + signed_decimal(i as int));
    } else {
        push_decimal(out, i as u64);
    }
}

/// A quality label such as `1080p HDR`: the height, then the dynamic range
/// when one is named, separated by a space.
pub open spec fn quality_label(height: Option<i64>, range: Option<Seq<char>>) -> Option<Seq<char>> {
    let h = match height {
        Some(v) => Some(signed_decimal(v as int) + "p"@),
        None => None,
    };
    let r = match range {
        Some(s) => if s.len() > 0 {
            Some(s)
        } else {
            None
        },
        None => None,
    };
    match (h, r) {
        (Some(a), Some(b)) => Some(a + " "@ + b),
        (Some(a), None) => Some(a),
        (None, Some(b)) => Some(b),
        (None, None) => None,
    }
}

/// Builds the label of a source from its height and dynamic range.
pub fn format_quality_label(height: Option<i64>, dynamic_range: Option<&str>) -> (r: Option<String>)
    ensures
        match r {
            Some(s) => quality_label(
                height,
                match dynamic_range {
                    Some(d) => Some(d@),
                    None => None,
                },
            ) == Some(s@),
            None => quality_label(
                height,
                match dynamic_range {
                    Some(d) => Some(d@),
                    None => None,
                },
            ) is None,
        },
{
    let mut label = String::new();
    let mut any = false;
    if let Some(h) = height {
        push_signed(&mut label, h);
        label.append("p");
        any = true;
    }
    if let Some(range) = dynamic_range {
        if range.unicode_len() > 0 {
            if any {
                label.append(" ");
            }
            label.append(range);
            any = true;
        }
    }
    if any {
        Some(label)
    } else {
        None
    }
}

/// A minutes or seconds field: two digits when it is from 0 to 9.
pub open spec fn two_digits(x: int) -> Seq<char> {
    if 0 <= x < 10 {
        "0"@ + decimal(x as nat)
    } else {
        signed_decimal(x)
    }
}

/// Apply the sign of `d` to a non-negative part `p` of its magnitude.
pub open spec fn with_sign(d: int, p: int) -> int {
    if d < 0 {
        -p
    } else {
        p
    }
}

/// `h:mm:ss` when there is a whole hour, else `m:ss`; hours, minutes and
/// seconds are truncated towards zero and keep the sign of `d`.
pub open spec fn duration_text(d: int) -> Seq<char> {
    let m = if d < 0 {
        -d
    } else {
        d
    };
    let hours = with_sign(d, m / 3600);
    let minutes = with_sign(d, (m % 3600) / 60);
    let seconds = with_sign(d, m % 60);
    if hours > 0 {
        signed_decimal(hours) + ":"@ + two_digits(minutes) + ":"@ + two_digits(seconds)
    } else {
        signed_decimal(minutes) + ":"@ + two_digits(seconds)
    }
}

fn push_two_digits(out: &mut String, x: i64)
    ensures
        final(out)@ == old(out)@ + two_digits(x as int),
{
    if 0 <= x && x < 10 {
        out.append("0");
        push_decimal(out, x as u64);
        assert(final(out)@ =~= old(out)@ + two_digits(x as int));
    } else {
        push_signed(out, x);
    }
}

/// Renders a duration in seconds as `h:mm:ss` or `m:ss`.
pub fn format_duration(duration: i64) -> (r: String)
    ensures
        r@ == duration_text(duration as int),
{
    let m: u64 = if duration < 0 {
        (0i128 - duration as i128) as u64
    } else {
        duration as u64
    };
    let neg = duration < 0;
    let h = (m / 3600) as i64;
    let mi = ((m % 3600) / 60) as i64;
    let s = (m % 60) as i64;
    let hours: i64 = if neg { -h } else { h };
    let minutes: i64 = if neg { -mi } else { mi };
    let seconds: i64 = if neg { -s } else { s };
    let mut out = String::new();
    if hours > 0 {
        push_signed(&mut out, hours);
        out.append(":");
        push_two_digits(&mut out, minutes);
        out.append(":");
        push_two_digits(&mut out, seconds);
    } else {
        push_signed(&mut out, minutes);
        out.append(":");
        push_two_digits(&mut out, seconds);
    }
    out
}

/// `name` appended to `base` as a path component.
pub open spec fn join_path(base: Seq<char>, name: Seq<char>) -> Seq<char> {
    if base.len() == 0 {
        name
    } else if base.last() == '/' {
        base + name
    } else {
        base + "/"@ + name
    }
}

/// `name` appended to `base` as a path component.
pub fn join(base: &str, name: &str) -> (r: String)
    ensures
        r@ == join_path(base@, name@),
{
    let cs = crate::text::chars_of(base);
    let mut out = String::from_str(base);
    if cs.len() > 0 && cs[cs.len() - 1] != '/' {
        out.append("/");
    }
    out.append(name);
    out
}

/// The on-disk layout of a media library.
pub struct Paths {
    pub base: String,
    pub videos: String,
    pub shorts: String,
    pub subtitles: String,
    pub thumbnails: String,
    pub comments: String,
    pub archive: String,
    pub cookies: String,
    pub www_root: String,
    pub metadata_db: String,
}

impl Paths {
    /// The layout under `media_root`, serving the web UI from `www_root`.
    pub open spec fn laid_out(&self, media_root: Seq<char>, www_root: Seq<char>) -> bool {
        &&& self.base@ == media_root
        &&& self.videos@ == join_path(media_root, VIDEOS_SUBDIR@)
        &&& self.shorts@ == join_path(media_root, SHORTS_SUBDIR@)
        &&& self.subtitles@ == join_path(media_root, SUBTITLES_SUBDIR@)
        &&& self.thumbnails@ == join_path(media_root, THUMBNAILS_SUBDIR@)
        &&& self.comments@ == join_path(media_root, COMMENTS_SUBDIR@)
        &&& self.archive@ == join_path(media_root, ARCHIVE_FILE@)
        &&& self.cookies@ == join_path(media_root, COOKIES_FILE@)
        &&& self.www_root@ == www_root
        &&& self.metadata_db@ == join_path(media_root, METADATA_DB_FILE@)
    }

    /// The layout under `media_root`, serving the web UI from `www_root`.
    pub fn with_roots(media_root: &str, www_root: &str) -> (r: Paths)
        ensures
            r.laid_out(media_root@, www_root@),
    {
        Paths {
            base: String::from_str(media_root),
            videos: join(media_root, VIDEOS_SUBDIR),
            shorts: join(media_root, SHORTS_SUBDIR),
            subtitles: join(media_root, SUBTITLES_SUBDIR),
            thumbnails: join(media_root, THUMBNAILS_SUBDIR),
            comments: join(media_root, COMMENTS_SUBDIR),
            archive: join(media_root, ARCHIVE_FILE),
            cookies: join(media_root, COOKIES_FILE),
            www_root: String::from_str(www_root),
            metadata_db: join(media_root, METADATA_DB_FILE),
        }
    }

    /// The layout of a self-contained library whose web root is `www` inside it.
    pub fn from_base(base: &str) -> (r: Paths)
        ensures
            r.laid_out(base@, join_path(base@, "www"@)),
    {
        let www_root = join(base, "www");
        Self::with_roots(base, www_root.as_str())
    }

    /// The directory that holds media of `kind`.
    pub fn media_dir(&self, kind: MediaKind) -> (r: &str)
        ensures
            r@ == match kind {
                MediaKind::Video => self.videos@,
                MediaKind::Short => self.shorts@,
            },
    {
        match kind {
            MediaKind::Video => self.videos.as_str(),
            MediaKind::Short => self.shorts.as_str(),
        }
    }
}

/// Whether `y` is a leap year of the proleptic Gregorian calendar.
pub open spec fn is_leap(y: int) -> bool {
    (y % 4 == 0 && y % 100 != 0) || y % 400 == 0
}

/// Number of days of month `m` of year `y`.
pub open spec fn days_in_month(y: int, m: int) -> int {
    if m == 2 {
        if is_leap(y) {
            29
        } else {
            28
        }
    } else if m == 4 || m == 6 || m == 9 || m == 11 {
        30
    } else {
        31
    }
}

/// Whether year `y`, month `m`, day `d` is a date that the calendar library
/// represents (years -262143 to 262142).
pub open spec fn is_calendar_date(y: int, m: int, d: int) -> bool {
    -262143 <= y <= 262142 && 1 <= m <= 12 && 1 <= d <= days_in_month(y, m)
}

/// `s` padded on the left with `'0'` to at least `w` characters.
pub open spec fn zero_pad(s: Seq<char>, w: nat) -> Seq<char> {
    if s.len() < w {
        Seq::new((w - s.len()) as nat, |i: int| '0') + s
    } else {
        s
    }
}

/// The year as ISO 8601 writes it: four digits from 0 to 9999, otherwise
/// a sign and at least four digits.
pub open spec fn year_text(y: int) -> Seq<char> {
    if 0 <= y < 10000 {
        zero_pad(decimal(y as nat), 4)
    } else if y < 0 {
        "-"@ + zero_pad(decimal((-y) as nat), 4)
    } else {
        "+"@ + zero_pad(decimal(y as nat), 4)
    }
}

/// `YYYY-MM-DDT00:00:00` for the date `y`-`m`-`d`.
pub open spec fn midnight_text(y: int, m: int, d: int) -> Seq<char> {
    year_text(y) + "-"@ + zero_pad(decimal(m as nat), 2) + "-"@ + zero_pad(decimal(d as nat), 2)
        + "T00:00:00"@
}

/// Relies on chrono's `NaiveDate::from_ymd_opt`, `and_hms_opt(0, 0, 0)` and
/// `format("%Y-%m-%dT%H:%M:%S")`: midnight of the date, when it exists.
#[verifier::external_body]
fn midnight_of(y: i32, m: u32, d: u32) -> (r: Option<String>)
    ensures
        r is Some <==> is_calendar_date(y as int, m as int, d as int),
        r matches Some(s) ==> s@ == midnight_text(y as int, m as int, d as int),
{
    chrono::NaiveDate::from_ymd_opt(y, m, d)
        .and_then(|date| date.and_hms_opt(0, 0, 0))
        .map(|t| t.format("%Y-%m-%dT%H:%M:%S").to_string())
}

/// An unsigned field as integer parsing reads it: an optional `+`, then at
/// least one decimal digit.
pub open spec fn unsigned_field(s: Seq<char>) -> Option<int> {
    let d = if s.len() > 0 && s[0] == '+' {
        s.drop_first()
    } else {
        s
    };
    if d.len() > 0 && crate::config::all_digits(d) {
        Some(crate::config::digits_value(d))
    } else {
        None
    }
}

/// A signed field as integer parsing reads it: an optional `+` or `-`, then
/// at least one decimal digit.
pub open spec fn signed_field(s: Seq<char>) -> Option<int> {
    if s.len() > 0 && s[0] == '-' {
        let d = s.drop_first();
        if d.len() > 0 && crate::config::all_digits(d) {
            Some(-crate::config::digits_value(d))
        } else {
            None
        }
    } else {
        unsigned_field(s)
    }
}

/// Reads a short run of decimal digits.
fn digits_of(s: &[char]) -> (r: Option<u32>)
    requires
        s@.len() <= 4,
    ensures
        match r {
            Some(v) => s@.len() > 0 && crate::config::all_digits(s@) && v as int
                == crate::config::digits_value(s@) && v < 10000,
            None => !(s@.len() > 0 && crate::config::all_digits(s@)),
        },
{
    if s.len() == 0 {
        return None;
    }
    let mut acc: u32 = 0;
    let mut i: usize = 0;
    while i < s.len()
        invariant
            i <= s@.len() <= 4,
            crate::config::all_digits(s@.take(i as int)),
            acc as int == crate::config::digits_value(s@.take(i as int)),
            acc < 10000,
            i < 4 ==> acc < 1000,
            i < 3 ==> acc < 100,
            i < 2 ==> acc < 10,
            i < 1 ==> acc == 0,
        decreases s@.len() - i,
    {
        let c = s[i];
        if !('0' <= c && c <= '9') {
            assert(!('0' <= s@[i as int] <= '9'));
            return None;
        }
        assert(s@.take(i + 1).drop_last() =~= s@.take(i as int));
        acc = acc * 10 + ((c as u32) - ('0' as u32));
        assert(crate::config::all_digits(s@.take(i + 1))) by {
            assert forall|k: int| 0 <= k < i + 1 implies '0' <= #[trigger] s@.take(i + 1)[k] <= '9' by {
                if k < i {
                    assert(s@.take(i + 1)[k] == s@.take(i as int)[k]);
                }
            }
        }
        i = i + 1;
    }
    assert(s@.take(i as int) =~= s@);
    Some(acc)
}

fn unsigned_field_exec(s: &[char]) -> (r: Option<u32>)
    requires
        s@.len() <= 4,
    ensures
        match r {
            Some(v) => unsigned_field(s@) == Some(v as int) && v < 10000,
            None => unsigned_field(s@) is None,
        },
{
    if s.len() > 0 && s[0] == '+' {
        let d = vstd::slice::slice_subrange(s, 1, s.len());
        assert(d@ =~= s@.drop_first());
        digits_of(d)
    } else {
        digits_of(s)
    }
}

fn signed_field_exec(s: &[char]) -> (r: Option<i32>)
    requires
        s@.len() <= 4,
    ensures
        match r {
            Some(v) => signed_field(s@) == Some(v as int),
            None => signed_field(s@) is None,
        },
{
    if s.len() > 0 && s[0] == '-' {
        let d = vstd::slice::slice_subrange(s, 1, s.len());
        assert(d@ =~= s@.drop_first());
        match digits_of(d) {
            Some(v) => Some(0 - (v as i32)),
            None => None,
        }
    } else {
        match unsigned_field_exec(s) {
            Some(v) => Some(v as i32),
            None => None,
        }
    }
}

/// The ISO 8601 timestamp (midnight, UTC) of an eight-character `YYYYMMDD`
/// upload date, when the fields read as numbers and name a real date.
pub open spec fn upload_date_iso(value: Seq<char>) -> Option<Seq<char>> {
    if value.len() != 8 {
        None
    } else {
        match (
            signed_field(value.subrange(0, 4)),
            unsigned_field(value.subrange(4, 6)),
            unsigned_field(value.subrange(6, 8)),
        ) {
            (Some(y), Some(m), Some(d)) => if is_calendar_date(y, m, d) {
                Some(midnight_text(y, m, d) + "Z"@)
            } else {
                None
            },
            _ => None,
        }
    }
}

/// Converts an upload date such as `20240102` to `2024-01-02T00:00:00Z`.
pub fn upload_date_to_iso(value: &str) -> (r: Option<String>)
    ensures
        match r {
            Some(s) => upload_date_iso(value@) == Some(s@),
            None => upload_date_iso(value@) is None,
        },
{
    let cs = chars_of(value);
    if cs.len() != 8 {
        return None;
    }
    let y = signed_field_exec(vstd::slice::slice_subrange(cs.as_slice(), 0, 4));
    let m = unsigned_field_exec(vstd::slice::slice_subrange(cs.as_slice(), 4, 6));
    let d = unsigned_field_exec(vstd::slice::slice_subrange(cs.as_slice(), 6, 8));
    match (y, m, d) {
        (Some(y), Some(m), Some(d)) => match midnight_of(y, m, d) {
            Some(mut text) => {
                text.append("Z");
                Some(text)
            },
            None => None,
        },
        _ => None,
    }
}

/// The RFC 3339 text of the UTC instant `secs` seconds after the Unix
/// epoch, or `None` where the calendar library cannot represent it.
pub uninterp spec fn utc_rfc3339(secs: i64) -> Option<Seq<char>>;

/// Relies on chrono's `DateTime::<Utc>::from_timestamp(secs, 0)` and
/// `to_rfc3339`: the instant as RFC 3339 text, when it is in range.
#[verifier::external_body]
fn rfc3339_of(secs: i64) -> (r: Option<String>)
    ensures
        match r {
            Some(s) => utc_rfc3339(secs) == Some(s@),
            None => utc_rfc3339(secs) is None,
        },
{
    chrono::DateTime::<chrono::Utc>::from_timestamp(secs, 0).map(|t| t.to_rfc3339())
}

/// Converts epoch seconds into an RFC 3339 timestamp.
pub fn timestamp_to_iso(timestamp: i64) -> (r: Option<String>)
    ensures
        match r {
            Some(s) => utc_rfc3339(timestamp) == Some(s@),
            None => utc_rfc3339(timestamp) is None,
        },
{
    rfc3339_of(timestamp)
}

} // verus!
