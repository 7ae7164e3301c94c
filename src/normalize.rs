//! Normalisation of the text operators and tools hand in: domain names,
//! release repositories, channel URLs and format ids.

use vstd::prelude::*;
use crate::text::{
    any_whitespace, ascii_lowercase, chars_of, contains_char, is_ws, starts_with_text, string_of,
    to_ascii_lowercase, trim, trim_char, trim_end_by, trim_end_chars, trim_start_chars, trim_ws,
};

verus! {

/// The lower-case form of `s` under Unicode case mapping.
pub uninterp spec fn lower_of(s: Seq<char>) -> Seq<char>;

/// Relies on `str::to_lowercase`: full Unicode lower-casing, which depends
/// on the characters alone.
#[verifier::external_body]
fn lowercase(s: &str) -> (r: String)
    ensures
        r@ == lower_of(s@),
{
    s.to_lowercase()
}

/// Why a domain name was refused.
#[derive(Debug, Clone, Copy, PartialEq, Eq, Structural)]
pub enum DomainError {
    Empty,
    PathSegment,
    Whitespace,
}

/// Why a release repository was refused.
#[derive(Debug, Clone, Copy, PartialEq, Eq, Structural)]
pub enum RepoError {
    Empty,
    NotOwnerRepo,
    MissingOwner,
    MissingName,
}

/// `s` without a leading `https://`, or else without a leading `http://`.
pub open spec fn strip_scheme(s: Seq<char>) -> Seq<char> {
    if "https://"@.len() <= s.len() && s.take("https://"@.len() as int) == "https://"@ {
        s.skip("https://"@.len() as int)
    } else if "http://"@.len() <= s.len() && s.take("http://"@.len() as int) == "http://"@ {
        s.skip("http://"@.len() as int)
    } else {
        s
    }
}

/// The domain that an already lower-cased input names, or why it names none.
pub open spec fn domain_of_lowered(lower: Seq<char>) -> Result<Seq<char>, DomainError> {
    let stripped = trim_char(strip_scheme(lower), '/');
    if stripped.len() == 0 {
        Err(DomainError::Empty)
    } else if stripped.contains('/') {
        Err(DomainError::PathSegment)
    } else if exists|k: int| 0 <= k < stripped.len() && is_ws(#[trigger] stripped[k]) {
        Err(DomainError::Whitespace)
    } else {
        Ok(stripped)
    }
}

/// The domain that `input` names: trimmed, lower-cased, without scheme or
/// surrounding slashes.
pub open spec fn domain_of(input: Seq<char>) -> Result<Seq<char>, DomainError> {
    if trim_ws(input).len() == 0 {
        Err(DomainError::Empty)
    } else {
        domain_of_lowered(lower_of(trim_ws(input)))
    }
}

/// Normalises an input that is already lower-cased to a bare domain name.
pub fn normalize_lowered_domain(lower: &str) -> (r: Result<String, DomainError>)
    ensures
        match r {
            Ok(d) => domain_of_lowered(lower@) == Ok::<Seq<char>, DomainError>(d@),
            Err(e) => domain_of_lowered(lower@) == Err::<Seq<char>, DomainError>(e),
        },
{
    let cs = chars_of(lower);
    let rest: Vec<char> = if starts_with_text(cs.as_slice(), "https://") {
        let n: usize = "https://".unicode_len();
        vstd::slice::slice_to_vec(vstd::slice::slice_subrange(cs.as_slice(), n, cs.len()))
    } else if starts_with_text(cs.as_slice(), "http://") {
        let n: usize = "http://".unicode_len();
        vstd::slice::slice_to_vec(vstd::slice::slice_subrange(cs.as_slice(), n, cs.len()))
    } else {
        cs
    };
    let a = trim_start_chars(rest.as_slice(), false, '/');
    let stripped = trim_end_chars(a.as_slice(), false, '/');
    if stripped.len() == 0 {
        return Err(DomainError::Empty);
    }
    if contains_char(stripped.as_slice(), '/') {
        return Err(DomainError::PathSegment);
    }
    if any_whitespace(stripped.as_slice()) {
        return Err(DomainError::Whitespace);
    }
    Ok(string_of(stripped.as_slice()))
}

/// Normalises a domain name as an operator may type it
/// (`https://Example.com/` becomes `example.com`).
pub fn normalize_domain(input: &str) -> (r: Result<String, DomainError>)
    ensures
        match r {
            Ok(d) => domain_of(input@) == Ok::<Seq<char>, DomainError>(d@),
            Err(e) => domain_of(input@) == Err::<Seq<char>, DomainError>(e),
        },
{
    let trimmed = trim(input);
    if trimmed.len() == 0 {
        return Err(DomainError::Empty);
    }
    let lower = lowercase(string_of(trimmed.as_slice()).as_str());
    normalize_lowered_domain(lower.as_str())
}

/// A channel URL reduced for comparison: trimmed, without trailing slashes,
/// ASCII letters in lower case.
pub open spec fn canonical_channel(url: Seq<char>) -> Seq<char> {
    ascii_lowercase(trim_end_by(trim_ws(url), false, '/'))
}

/// The form of a channel URL under which duplicates are recognised.
pub fn canonicalize_channel_url(url: &str) -> (r: String)
    ensures
        r@ == canonical_channel(url@),
{
    let trimmed = trim(url);
    let without_slash = trim_end_chars(trimmed.as_slice(), false, '/');
    string_of(to_ascii_lowercase(without_slash.as_slice()).as_slice())
}

/// A format id with `/`, `:` and spaces replaced by `_`.
pub open spec fn sanitized_char(c: char) -> char {
    if c == '/' || c == ':' || c == ' ' {
        '_'
    } else {
        c
    }
}

/// Makes a format id safe to use inside a file name.
pub fn sanitize_format_id(format_id: &str) -> (r: String)
    ensures
        r@ == format_id@.map_values(|c: char| sanitized_char(c)),
{
    let cs = chars_of(format_id);
    let mut out = String::new();
    let mut i: usize = 0;
    while i < cs.len()
        invariant
            cs@ == format_id@,
            i <= cs@.len(),
            out@ == cs@.take(i as int).map_values(|c: char| sanitized_char(c)),
        decreases cs@.len() - i,
    {
        let c = cs[i];
        let d = if c == '/' || c == ':' || c == ' ' {
            '_'
        } else {
            c
        };
        out.push(d);
        assert(cs@.take(i + 1).map_values(|c: char| sanitized_char(c)) =~= cs@.take(
            i as int,
        ).map_values(|c: char| sanitized_char(c)).push(d));
        i = i + 1;
    }
    assert(cs@.take(i as int) =~= cs@);
    out
}

/// Splitting `s` at `'/'`: the non-empty pieces completed so far, and the
/// piece still open at the end.
pub open spec fn split_state(s: Seq<char>) -> (Seq<Seq<char>>, Seq<char>)
    decreases s.len(),
{
    if s.len() == 0 {
        (Seq::empty(), Seq::empty())
    } else {
        let (done, cur) = split_state(s.drop_last());
        if s.last() == '/' {
            if cur.len() > 0 {
                (done.push(cur), Seq::empty())
            } else {
                (done, Seq::empty())
            }
        } else {
            (done, cur.push(s.last()))
        }
    }
}

/// The non-empty pieces of `s` between `'/'` characters, in order.
pub open spec fn path_segments(s: Seq<char>) -> Seq<Seq<char>> {
    let (done, cur) = split_state(s);
    if cur.len() > 0 {
        done.push(cur)
    } else {
        done
    }
}

/// The `owner/repo` that `input` names, or why it names none.
pub open spec fn release_repo_of(input: Seq<char>) -> Result<Seq<char>, RepoError> {
    let trimmed = trim_ws(input);
    let parts = path_segments(trimmed);
    if trimmed.len() == 0 {
        Err(RepoError::Empty)
    } else if !trimmed.contains('/') {
        Err(RepoError::NotOwnerRepo)
    } else if parts.len() == 0 {
        Err(RepoError::MissingOwner)
    } else if parts.len() == 1 {
        Err(RepoError::MissingName)
    } else if parts.len() > 2 {
        Err(RepoError::NotOwnerRepo)
    } else {
        Ok(parts[0] + "/"@ + parts[1])
    }
}

fn segments(cs: &[char]) -> (r: Vec<Vec<char>>)
    ensures
        r@.map_values(|p: Vec<char>| p@) == path_segments(cs@),
{
    let mut done: Vec<Vec<char>> = Vec::new();
    let mut cur: Vec<char> = Vec::new();
    let mut i: usize = 0;
    while i < cs.len()
        invariant
            i <= cs@.len(),
            (done@.map_values(|p: Vec<char>| p@), cur@) == split_state(cs@.take(i as int)),
        decreases cs@.len() - i,
    {
        let c = cs[i];
        assert(cs@.take(i + 1).drop_last() =~= cs@.take(i as int));
        if c == '/' {
            if cur.len() > 0 {
                let piece = cur;
                cur = Vec::new();
                let ghost before = done@.map_values(|p: Vec<char>| p@);
                done.push(piece);
                assert(done@.map_values(|p: Vec<char>| p@) =~= before.push(piece@));
            } else {
                cur = Vec::new();
            }
        } else {
            cur.push(c);
        }
        i = i + 1;
    }
    assert(cs@.take(i as int) =~= cs@);
    if cur.len() > 0 {
        let ghost before = done@.map_values(|p: Vec<char>| p@);
        done.push(cur);
        assert(done@.map_values(|p: Vec<char>| p@) =~= before.push(done@[done@.len() - 1]@));
    }
    done
}

/// Normalises a release repository to `owner/repo`.
pub fn normalize_release_repo(input: &str) -> (r: Result<String, RepoError>)
    ensures
        match r {
            Ok(s) => release_repo_of(input@) == Ok::<Seq<char>, RepoError>(s@),
            Err(e) => release_repo_of(input@) == Err::<Seq<char>, RepoError>(e),
        },
{
    let trimmed = trim(input);
    if trimmed.len() == 0 {
        return Err(RepoError::Empty);
    }
    if !contains_char(trimmed.as_slice(), '/') {
        return Err(RepoError::NotOwnerRepo);
    }
    let parts = segments(trimmed.as_slice());
    proof {
        assert(parts@.len() == path_segments(trimmed@).len());
    }
    if parts.len() == 0 {
        return Err(RepoError::MissingOwner);
    }
    if parts.len() == 1 {
        return Err(RepoError::MissingName);
    }
    if parts.len() > 2 {
        return Err(RepoError::NotOwnerRepo);
    }
    let mut out = string_of(parts[0].as_slice());
    out.append("/");
    out.append(string_of(parts[1].as_slice()).as_str());
    proof {
        assert(parts@[0]@ == path_segments(trimmed@)[0]);
        assert(parts@[1]@ == path_segments(trimmed@)[1]);
    }
    Ok(out)
}

} // verus!
