//! The installed-state record: a plain `KEY="value"` text file that holds
//! the install paths, the installed release tag and where releases come from.

use vstd::prelude::*;
use crate::text::{chars_of, same_text, string_of, trim_char, trim_end_chars, trim_start_chars, trim_ws};

verus! {

/// Where the installed-state record lives.
pub const DEFAULT_CONFIG_PATH: &'static str = "/etc/newtube-env";

/// Port the backend listens on when the record names none.
pub const DEFAULT_NEWTUBE_PORT: u16 = 8080;

/// Address the backend listens on when the record names none.
pub const DEFAULT_NEWTUBE_HOST: &'static str = "127.0.0.1";

/// Release repository polled when the record names none.
pub const DEFAULT_RELEASE_REPO: &'static str = "Pingasmaster/newtube";

/// Why an installed-state record was refused.
#[derive(Debug, Clone, Copy, PartialEq, Eq, Structural)]
pub enum ConfigError {
    /// `NEWTUBE_PORT` is not a number from 0 to 65535.
    InvalidPort,
    /// There is no record at all.
    MissingConfig,
    /// The record has no `MEDIA_ROOT`.
    MissingMediaRoot,
    /// The record has no `WWW_ROOT`.
    MissingWwwRoot,
}

/// The settings an installed-state record may hold.
pub struct EnvConfig {
    pub media_root: Option<String>,
    pub www_root: Option<String>,
    pub app_version: Option<String>,
    pub domain_name: Option<String>,
    pub newtube_port: Option<u16>,
    pub newtube_host: Option<String>,
    pub release_repo: Option<String>,
}

/// [`EnvConfig`] as plain values.
pub struct EnvView {
    pub media_root: Option<Seq<char>>,
    pub www_root: Option<Seq<char>>,
    pub app_version: Option<Seq<char>>,
    pub domain_name: Option<Seq<char>>,
    pub newtube_port: Option<u16>,
    pub newtube_host: Option<Seq<char>>,
    pub release_repo: Option<Seq<char>>,
}

/// The characters of an optional string.
pub open spec fn opt_str(o: Option<String>) -> Option<Seq<char>> {
    match o {
        Some(s) => Some(s@),
        None => None,
    }
}

impl View for EnvConfig {
    type V = EnvView;

    open spec fn view(&self) -> EnvView {
        EnvView {
            media_root: opt_str(self.media_root),
            www_root: opt_str(self.www_root),
            app_version: opt_str(self.app_version),
            domain_name: opt_str(self.domain_name),
            newtube_port: self.newtube_port,
            newtube_host: opt_str(self.newtube_host),
            release_repo: opt_str(self.release_repo),
        }
    }
}

/// The paths and settings the services run with.
pub struct RuntimePaths {
    pub media_root: String,
    pub www_root: String,
    pub newtube_port: u16,
    pub newtube_host: String,
    pub release_repo: String,
}

/// A record with nothing set.
pub open spec fn empty_env() -> EnvView {
    EnvView {
        media_root: None,
        www_root: None,
        app_version: None,
        domain_name: None,
        newtube_port: None,
        newtube_host: None,
        release_repo: None,
    }
}

/// Whether every character of `s` is an ASCII digit.
pub open spec fn all_digits(s: Seq<char>) -> bool {
    forall|i: int| 0 <= i < s.len() ==> '0' <= #[trigger] s[i] <= '9'
}

/// The number that the decimal digits `s` spell.
pub open spec fn digits_value(s: Seq<char>) -> int
    decreases s.len(),
{
    if s.len() == 0 {
        0
    } else {
        digits_value(s.drop_last()) * 10 + (s.last() as int - '0' as int)
    }
}

/// A port number as `u16` parsing reads it: an optional `+`, then at least
/// one decimal digit, with a value that fits.
pub open spec fn parsed_port(s: Seq<char>) -> Option<u16> {
    let d = if s.len() > 0 && s[0] == '+' {
        s.drop_first()
    } else {
        s
    };
    if d.len() > 0 && all_digits(d) && digits_value(d) <= 65535 {
        Some(digits_value(d) as u16)
    } else {
        None
    }
}

/// Reads a port number.
pub fn parse_port(s: &[char]) -> (r: Option<u16>)
    ensures
        r == parsed_port(s@),
{
    let start: usize = if s.len() > 0 && s[0] == '+' {
        1
    } else {
        0
    };
    let d = vstd::slice::slice_subrange(s, start, s.len());
    assert(start == 1 ==> d@ =~= s@.drop_first());
    assert(start == 0 ==> d@ =~= s@);
    let ghost dd = if s@.len() > 0 && s@[0] == '+' {
        s@.drop_first()
    } else {
        s@
    };
    assert(dd == d@);
    if d.len() == 0 {
        return None;
    }
    let mut acc: u32 = 0;
    let mut i: usize = 0;
    while i < d.len()
        invariant
            dd == d@,
            dd.len() > 0 && all_digits(dd) && digits_value(dd) <= 65535 ==> parsed_port(s@) == Some(
                digits_value(dd) as u16,
            ),
            !(dd.len() > 0 && all_digits(dd) && digits_value(dd) <= 65535) ==> parsed_port(s@) is None,
            i <= d@.len(),
            all_digits(d@.take(i as int)),
            acc == if digits_value(d@.take(i as int)) > 65535 {
                65536
            } else {
                digits_value(d@.take(i as int))
            },
            digits_value(d@.take(i as int)) >= 0,
        decreases d@.len() - i,
    {
        let c = d[i];
        if !('0' <= c && c <= '9') {
            assert(!('0' <= d@[i as int] <= '9'));
            assert(!all_digits(d@));
            return None;
        }
        let v = (c as u32) - ('0' as u32);
        assert(d@.take(i + 1).drop_last() =~= d@.take(i as int));
        let ghost prev = digits_value(d@.take(i as int));
        assert(digits_value(d@.take(i + 1)) == prev * 10 + v);
        if acc > 65535 {
            assert(prev * 10 + v > 65535) by (nonlinear_arith)
                requires
                    prev > 65535,
                    v >= 0,
            ;
            acc = 65536;
        } else {
            acc = acc * 10 + v;
            if acc > 65535 {
                acc = 65536;
            }
        }
        assert(all_digits(d@.take(i + 1))) by {
            assert forall|k: int| 0 <= k < i + 1 implies '0' <= #[trigger] d@.take(i + 1)[k] <= '9' by {
                if k < i {
                    assert(d@.take(i + 1)[k] == d@.take(i as int)[k]);
                }
            }
        }
        i = i + 1;
    }
    assert(d@.take(i as int) =~= d@);
    if acc > 65535 {
        None
    } else {
        Some(acc as u16)
    }
}

/// Index of the first `c` in `s` at or after `from`, or `s.len()`.
pub open spec fn index_from(s: Seq<char>, c: char, from: int) -> int
    decreases s.len() - from,
{
    if from < 0 || from >= s.len() {
        from
    } else if s[from] == c {
        from
    } else {
        index_from(s, c, from + 1)
    }
}

/// The record after reading one line: blank lines, comments and lines
/// without `=` change nothing; otherwise the text before the first `=` names
/// the setting and the rest, trimmed and without surrounding quotes, is its
/// value. Unknown settings are ignored; an empty host or repository leaves
/// the setting as it was.
pub open spec fn apply_line(cfg: EnvView, line: Seq<char>) -> Result<EnvView, ConfigError> {
    let t = trim_ws(line);
    if t.len() == 0 || t[0] == '#' || !t.contains('=') {
        Ok(cfg)
    } else {
        let k = index_from(t, '=', 0);
        let key = t.take(k);
        let value = trim_char(trim_ws(t.skip(k + 1)), '"');
        if key == "MEDIA_ROOT"@ {
            Ok(EnvView { media_root: Some(value), ..cfg })
        } else if key == "WWW_ROOT"@ {
            Ok(EnvView { www_root: Some(value), ..cfg })
        } else if key == "APP_VERSION"@ {
            Ok(EnvView { app_version: Some(value), ..cfg })
        } else if key == "DOMAIN_NAME"@ {
            Ok(EnvView { domain_name: Some(value), ..cfg })
        } else if key == "NEWTUBE_PORT"@ {
            match parsed_port(value) {
                Some(p) => Ok(EnvView { newtube_port: Some(p), ..cfg }),
                None => Err(ConfigError::InvalidPort),
            }
        } else if key == "NEWTUBE_HOST"@ {
            if value.len() > 0 {
                Ok(EnvView { newtube_host: Some(value), ..cfg })
            } else {
                Ok(cfg)
            }
        } else if key == "RELEASE_REPO"@ {
            if value.len() > 0 {
                Ok(EnvView { release_repo: Some(value), ..cfg })
            } else {
                Ok(cfg)
            }
        } else {
            Ok(cfg)
        }
    }
}

/// Reads `content` from index `i` on, where `cur` is the part of the current
/// line read so far; lines end at `'\n'`.
pub open spec fn scan(content: Seq<char>, i: int, cfg: EnvView, cur: Seq<char>) -> Result<
    EnvView,
    ConfigError,
>
    decreases content.len() - i,
{
    if i < 0 || i >= content.len() {
        apply_line(cfg, cur)
    } else if content[i] == '\n' {
        match apply_line(cfg, cur) {
            Ok(c) => scan(content, i + 1, c, Seq::empty()),
            Err(e) => Err(e),
        }
    } else {
        scan(content, i + 1, cfg, cur.push(content[i]))
    }
}

/// The settings that the record text `content` holds.
pub open spec fn env_of(content: Seq<char>) -> Result<EnvView, ConfigError> {
    scan(content, 0, empty_env(), Seq::empty())
}

fn set_value(slot: &mut Option<String>, value: &[char])
    ensures
        opt_str(*final(slot)) == Some(value@),
{
    *slot = Some(string_of(value));
}

fn apply_line_exec(cfg: &mut EnvConfig, line: &[char]) -> (r: Result<(), ConfigError>)
    ensures
        match r {
            Ok(()) => apply_line(old(cfg)@, line@) == Ok::<EnvView, ConfigError>(final(cfg)@),
            Err(e) => apply_line(old(cfg)@, line@) == Err::<EnvView, ConfigError>(e),
        },
{
    let a = trim_start_chars(line, true, ' ');
    let t = trim_end_chars(a.as_slice(), true, ' ');
    if t.len() == 0 || t[0] == '#' {
        return Ok(());
    }
    let n = t.len();
    let mut k: usize = 0;
    while k < n && t[k] != '='
        invariant
            n == t@.len(),
            k <= n,
            index_from(t@, '=', 0) == index_from(t@, '=', k as int),
            forall|j: int| 0 <= j < k ==> t@[j] != '=',
        decreases n - k,
    {
        k = k + 1;
    }
    if k == n {
        assert(!t@.contains('='));
        return Ok(());
    }
    assert(t@.contains('='));
    let key = string_of(vstd::slice::slice_subrange(t.as_slice(), 0, k));
    let raw = vstd::slice::slice_subrange(t.as_slice(), k + 1, n);
    assert(raw@ =~= t@.skip(k + 1));
    let rs = trim_start_chars(raw, true, ' ');
    let rt = trim_end_chars(rs.as_slice(), true, ' ');
    let vs = trim_start_chars(rt.as_slice(), false, '"');
    let value = trim_end_chars(vs.as_slice(), false, '"');
    let key = key.as_str();
    if same_text(key, "MEDIA_ROOT") {
        set_value(&mut cfg.media_root, value.as_slice());
    } else if same_text(key, "WWW_ROOT") {
        set_value(&mut cfg.www_root, value.as_slice());
    } else if same_text(key, "APP_VERSION") {
        set_value(&mut cfg.app_version, value.as_slice());
    } else if same_text(key, "DOMAIN_NAME") {
        set_value(&mut cfg.domain_name, value.as_slice());
    } else if same_text(key, "NEWTUBE_PORT") {
        match parse_port(value.as_slice()) {
            Some(p) => {
                cfg.newtube_port = Some(p);
            },
            None => {
                return Err(ConfigError::InvalidPort);
            },
        }
    } else if same_text(key, "NEWTUBE_HOST") {
        if value.len() > 0 {
            set_value(&mut cfg.newtube_host, value.as_slice());
        }
    } else if same_text(key, "RELEASE_REPO") {
        if value.len() > 0 {
            set_value(&mut cfg.release_repo, value.as_slice());
        }
    }
    Ok(())
}

/// Reads the text of an installed-state record.
pub fn parse_env_config(content: &str) -> (r: Result<EnvConfig, ConfigError>)
    ensures
        match r {
            Ok(c) => env_of(content@) == Ok::<EnvView, ConfigError>(c@),
            Err(e) => env_of(content@) == Err::<EnvView, ConfigError>(e),
        },
{
    let cs = chars_of(content);
    let mut cfg = EnvConfig {
        media_root: None,
        www_root: None,
        app_version: None,
        domain_name: None,
        newtube_port: None,
        newtube_host: None,
        release_repo: None,
    };
    let mut cur: Vec<char> = Vec::new();
    let mut i: usize = 0;
    while i < cs.len()
        invariant
            cs@ == content@,
            i <= cs@.len(),
            env_of(content@) == scan(content@, i as int, cfg@, cur@),
        decreases cs@.len() - i,
    {
        if cs[i] == '\n' {
            apply_line_exec(&mut cfg, cur.as_slice())?;
            cur = Vec::new();
        } else {
            cur.push(cs[i]);
        }
        i = i + 1;
    }
    apply_line_exec(&mut cfg, cur.as_slice())?;
    Ok(cfg)
}

/// [`RuntimePaths`] as plain values.
pub struct RuntimeView {
    pub media_root: Seq<char>,
    pub www_root: Seq<char>,
    pub newtube_port: u16,
    pub newtube_host: Seq<char>,
    pub release_repo: Seq<char>,
}

/// The runtime settings that a record (if there is one) gives: both roots
/// are required, the rest fall back to their defaults.
pub open spec fn runtime_of(content: Option<Seq<char>>) -> Result<RuntimeView, ConfigError> {
    match content {
        None => Err(ConfigError::MissingConfig),
        Some(text) => match env_of(text) {
            Err(e) => Err(e),
            Ok(cfg) => if cfg.media_root is None {
                Err(ConfigError::MissingMediaRoot)
            } else if cfg.www_root is None {
                Err(ConfigError::MissingWwwRoot)
            } else {
                Ok(
                    RuntimeView {
                        media_root: cfg.media_root->Some_0,
                        www_root: cfg.www_root->Some_0,
                        newtube_port: match cfg.newtube_port {
                            Some(p) => p,
                            None => DEFAULT_NEWTUBE_PORT,
                        },
                        newtube_host: match cfg.newtube_host {
                            Some(h) => h,
                            None => DEFAULT_NEWTUBE_HOST@,
                        },
                        release_repo: match cfg.release_repo {
                            Some(r) => r,
                            None => DEFAULT_RELEASE_REPO@,
                        },
                    },
                )
            },
        },
    }
}

/// The characters of an optional text.
pub open spec fn opt_text(content: Option<&str>) -> Option<Seq<char>> {
    match content {
        Some(t) => Some(t@),
        None => None,
    }
}

/// The runtime settings from the text of a record, `None` where the record
/// does not exist.
pub fn load_runtime_paths_from(content: Option<&str>) -> (r: Result<RuntimePaths, ConfigError>)
    ensures
        match r {
            Ok(p) => runtime_of(opt_text(content)) == Ok::<RuntimeView, ConfigError>(
                RuntimeView {
                    media_root: p.media_root@,
                    www_root: p.www_root@,
                    newtube_port: p.newtube_port,
                    newtube_host: p.newtube_host@,
                    release_repo: p.release_repo@,
                },
            ),
            Err(e) => runtime_of(opt_text(content)) == Err::<RuntimeView, ConfigError>(e),
        },
{
    let text = match content {
        Some(t) => t,
        None => {
            return Err(ConfigError::MissingConfig);
        },
    };
    let cfg = parse_env_config(text)?;
    let media_root = match cfg.media_root {
        Some(m) => m,
        None => {
            return Err(ConfigError::MissingMediaRoot);
        },
    };
    let www_root = match cfg.www_root {
        Some(w) => w,
        None => {
            return Err(ConfigError::MissingWwwRoot);
        },
    };
    let newtube_port = match cfg.newtube_port {
        Some(p) => p,
        None => DEFAULT_NEWTUBE_PORT,
    };
    let newtube_host = match cfg.newtube_host {
        Some(h) => h,
        None => String::from_str(DEFAULT_NEWTUBE_HOST),
    };
    let release_repo = match cfg.release_repo {
        Some(r) => r,
        None => String::from_str(DEFAULT_RELEASE_REPO),
    };
    Ok(RuntimePaths { media_root, www_root, newtube_port, newtube_host, release_repo })
}

/// The runtime settings from the text of the record at
/// [`DEFAULT_CONFIG_PATH`], `None` where it does not exist.
pub fn load_runtime_paths(content: Option<&str>) -> (r: Result<RuntimePaths, ConfigError>)
    ensures
        match r {
            Ok(p) => runtime_of(opt_text(content)) == Ok::<RuntimeView, ConfigError>(
                RuntimeView {
                    media_root: p.media_root@,
                    www_root: p.www_root@,
                    newtube_port: p.newtube_port,
                    newtube_host: p.newtube_host@,
                    release_repo: p.release_repo@,
                },
            ),
            Err(e) => runtime_of(opt_text(content)) == Err::<RuntimeView, ConfigError>(e),
        },
{
    load_runtime_paths_from(content)
}

/// The setting a record line assigns, if it assigns one.
pub open spec fn line_key(line: Seq<char>) -> Option<Seq<char>> {
    let t = trim_ws(line);
    if t.len() == 0 || t[0] == '#' || !t.contains('=') {
        None
    } else {
        Some(t.take(index_from(t, '=', 0)))
    }
}

/// Whether a record line assigns the installed version.
pub open spec fn is_version_line(line: Seq<char>) -> bool {
    line_key(line) == Some("APP_VERSION"@)
}

/// The record line that assigns `version` as the installed version.
pub open spec fn version_line(version: Seq<char>) -> Seq<char> {
    "APP_VERSION=\""@ + version + "\""@
}

/// A record line with the installed version replaced by `version`.
pub open spec fn updated_line(line: Seq<char>, version: Seq<char>) -> Seq<char> {
    if is_version_line(line) {
        version_line(version)
    } else {
        line
    }
}

/// Rewrites `content` from index `i` on, where `cur` is the current line so
/// far and `out` what has been written; also tells whether a version line was
/// seen.
pub open spec fn rewrite_scan(
    content: Seq<char>,
    version: Seq<char>,
    i: int,
    cur: Seq<char>,
    out: Seq<char>,
    found: bool,
) -> (Seq<char>, bool)
    decreases content.len() - i,
{
    if i < 0 || i >= content.len() {
        (out + updated_line(cur, version), found || is_version_line(cur))
    } else if content[i] == '\n' {
        rewrite_scan(
            content,
            version,
            i + 1,
            Seq::empty(),
            out + updated_line(cur, version) + "\n"@,
            found || is_version_line(cur),
        )
    } else {
        rewrite_scan(content, version, i + 1, cur.push(content[i]), out, found)
    }
}

/// The record with every line that assigns the installed version set to
/// `version`, every other line as it was; where no line assigns it, one is
/// added at the end.
pub open spec fn with_version(content: Seq<char>, version: Seq<char>) -> Seq<char> {
    let (out, found) = rewrite_scan(content, version, 0, Seq::empty(), Seq::empty(), false);
    if found {
        out
    } else if content.len() == 0 {
        version_line(version) + "\n"@
    } else if content.last() == '\n' {
        out + version_line(version) + "\n"@
    } else {
        out + "\n"@ + version_line(version) + "\n"@
    }
}

fn is_version_line_exec(line: &[char]) -> (r: bool)
    ensures
        r == is_version_line(line@),
{
    let a = trim_start_chars(line, true, ' ');
    let t = trim_end_chars(a.as_slice(), true, ' ');
    if t.len() == 0 || t[0] == '#' {
        return false;
    }
    let n = t.len();
    let mut k: usize = 0;
    while k < n && t[k] != '='
        invariant
            n == t@.len(),
            k <= n,
            index_from(t@, '=', 0) == index_from(t@, '=', k as int),
            forall|j: int| 0 <= j < k ==> t@[j] != '=',
        decreases n - k,
    {
        k = k + 1;
    }
    if k == n {
        assert(!t@.contains('='));
        return false;
    }
    assert(t@.contains('='));
    let key = string_of(vstd::slice::slice_subrange(t.as_slice(), 0, k));
    same_text(key.as_str(), "APP_VERSION")
}

fn append_line(out: &mut String, line: &[char], version: &str)
    ensures
        final(out)@ == old(out)@ + updated_line(line@, version@),
{
    if is_version_line_exec(line) {
        out.append("APP_VERSION=\"");
        out.append(version);
        out.append("\"");
    } else {
        out.append(string_of(line).as_str());
    }
}

/// The record text `content` with the installed version set to `version`;
/// nothing else changes.
pub fn set_app_version(content: &str, version: &str) -> (r: String)
    ensures
        r@ == with_version(content@, version@),
{
    let cs = chars_of(content);
    let mut out = String::new();
    let mut cur: Vec<char> = Vec::new();
    let mut found = false;
    let mut i: usize = 0;
    while i < cs.len()
        invariant
            cs@ == content@,
            i <= cs@.len(),
            rewrite_scan(content@, version@, 0, Seq::empty(), Seq::empty(), false) == rewrite_scan(
                content@,
                version@,
                i as int,
                cur@,
                out@,
                found,
            ),
        decreases cs@.len() - i,
    {
        if cs[i] == '\n' {
            found = found || is_version_line_exec(cur.as_slice());
            append_line(&mut out, cur.as_slice(), version);
            out.append("\n");
            cur = Vec::new();
        } else {
            cur.push(cs[i]);
        }
        i = i + 1;
    }
    found = found || is_version_line_exec(cur.as_slice());
    append_line(&mut out, cur.as_slice(), version);
    if found {
        return out;
    }
    if cs.len() > 0 && cs[cs.len() - 1] != '\n' {
        out.append("\n");
    }
    out.append("APP_VERSION=\"");
    out.append(version);
    out.append("\"");
    out.append("\n");
    out
}

} // verus!
