//! Character-level helpers over `str` and `String`.

use vstd::prelude::*;
use vstd::std_specs::iter::IteratorSpec;

verus! {

/// Relies on `String::push`: the character is appended at the end.
pub assume_specification[ String::push ](s: &mut String, ch: char)
    ensures
        final(s)@ == old(s)@.push(ch),
;

/// The characters of `s`, in order.
pub fn chars_of(s: &str) -> (r: Vec<char>)
    ensures
        r@ == s@,
{
    broadcast use {vstd::string::axiom_spec_iter, vstd::string::next_postcondition};

    let mut v: Vec<char> = Vec::new();
    let mut it = s.chars();
    loop
        invariant
            v@ + it.remaining() == s@,
            it.decrease() is Some,
        ensures
            v@ == s@,
        decreases it.decrease()->0,
    {
        match it.next() {
            Some(c) => {
                v.push(c);
            },
            None => {
                assert(v@ =~= s@);
                break ;
            },
        }
    }
    v
}

/// A `String` holding exactly the characters of `cs`.
pub fn string_of(cs: &[char]) -> (r: String)
    ensures
        r@ == cs@,
{
    let mut s = String::new();
    let mut i: usize = 0;
    while i < cs.len()
        invariant
            i <= cs@.len(),
            s@ == cs@.take(i as int),
        decreases cs@.len() - i,
    {
        s.push(cs[i]);
        i = i + 1;
        assert(s@ =~= cs@.take(i as int));
    }
    assert(cs@.take(i as int) =~= cs@);
    s
}

/// Whether `a` and `b` hold the same characters.
pub fn same_text(a: &str, b: &str) -> (r: bool)
    ensures
        r == (a@ == b@),
{
    let x = chars_of(a);
    let y = chars_of(b);
    if x.len() != y.len() {
        return false;
    }
    let mut i: usize = 0;
    while i < x.len()
        invariant
            x@ == a@,
            y@ == b@,
            x@.len() == y@.len(),
            i <= x@.len(),
            x@.take(i as int) == y@.take(i as int),
        decreases x@.len() - i,
    {
        if x[i] != y[i] {
            assert(a@[i as int] != b@[i as int]);
            return false;
        }
        assert(x@.take(i + 1) =~= x@.take(i as int).push(x@[i as int]));
        assert(y@.take(i + 1) =~= y@.take(i as int).push(y@[i as int]));
        i = i + 1;
    }
    assert(x@.take(i as int) =~= x@);
    assert(y@.take(i as int) =~= y@);
    true
}

/// Characters with the Unicode `White_Space` property.
pub open spec fn is_ws(c: char) -> bool {
    let n = c as u32;
    (9 <= n <= 13) || n == 32 || n == 0x85 || n == 0xA0 || n == 0x1680 || (0x2000 <= n <= 0x200A)
        || n == 0x2028 || n == 0x2029 || n == 0x202F || n == 0x205F || n == 0x3000
}

/// Whether `c` has the Unicode `White_Space` property.
pub fn is_whitespace(c: char) -> (r: bool)
    ensures
        r == is_ws(c),
{
    let n = c as u32;
    (9 <= n && n <= 13) || n == 32 || n == 0x85 || n == 0xA0 || n == 0x1680 || (0x2000 <= n && n
        <= 0x200A) || n == 0x2028 || n == 0x2029 || n == 0x202F || n == 0x205F || n == 0x3000
}

/// The characters a trim removes: whitespace, or else the one character `ch`.
pub open spec fn trims(ws: bool, ch: char, c: char) -> bool {
    if ws {
        is_ws(c)
    } else {
        c == ch
    }
}

fn trims_exec(ws: bool, ch: char, c: char) -> (r: bool)
    ensures
        r == trims(ws, ch, c),
{
    if ws {
        is_whitespace(c)
    } else {
        c == ch
    }
}

/// `s` without the leading characters that `trims(ws, ch, _)` removes.
pub open spec fn trim_start_by(s: Seq<char>, ws: bool, ch: char) -> Seq<char>
    decreases s.len(),
{
    if s.len() > 0 && trims(ws, ch, s[0]) {
        trim_start_by(s.drop_first(), ws, ch)
    } else {
        s
    }
}

/// `s` without the trailing characters that `trims(ws, ch, _)` removes.
pub open spec fn trim_end_by(s: Seq<char>, ws: bool, ch: char) -> Seq<char>
    decreases s.len(),
{
    if s.len() > 0 && trims(ws, ch, s.last()) {
        trim_end_by(s.drop_last(), ws, ch)
    } else {
        s
    }
}

/// `s` without leading or trailing whitespace.
pub open spec fn trim_ws(s: Seq<char>) -> Seq<char> {
    trim_end_by(trim_start_by(s, true, ' '), true, ' ')
}

/// `s` without leading or trailing copies of `ch`.
pub open spec fn trim_char(s: Seq<char>, ch: char) -> Seq<char> {
    trim_end_by(trim_start_by(s, false, ch), false, ch)
}

/// Drops leading characters that `trims(ws, ch, _)` removes.
pub fn trim_start_chars(cs: &[char], ws: bool, ch: char) -> (r: Vec<char>)
    ensures
        r@ == trim_start_by(cs@, ws, ch),
{
    let n = cs.len();
    let mut i: usize = 0;
    assert(cs@.subrange(0, n as int) =~= cs@);
    while i < n && trims_exec(ws, ch, cs[i])
        invariant
            n == cs@.len(),
            i <= n,
            trim_start_by(cs@, ws, ch) == trim_start_by(cs@.subrange(i as int, n as int), ws, ch),
        decreases n - i,
    {
        assert(cs@.subrange(i as int, n as int).drop_first() =~= cs@.subrange(i + 1, n as int));
        i = i + 1;
    }
    vstd::slice::slice_to_vec(vstd::slice::slice_subrange(cs, i, n))
}

/// Drops trailing characters that `trims(ws, ch, _)` removes.
pub fn trim_end_chars(cs: &[char], ws: bool, ch: char) -> (r: Vec<char>)
    ensures
        r@ == trim_end_by(cs@, ws, ch),
{
    let n = cs.len();
    let mut j: usize = n;
    assert(cs@.subrange(0, n as int) =~= cs@);
    while j > 0 && trims_exec(ws, ch, cs[j - 1])
        invariant
            n == cs@.len(),
            j <= n,
            trim_end_by(cs@, ws, ch) == trim_end_by(cs@.subrange(0, j as int), ws, ch),
        decreases j,
    {
        assert(cs@.subrange(0, j as int).drop_last() =~= cs@.subrange(0, j - 1));
        j = j - 1;
    }
    vstd::slice::slice_to_vec(vstd::slice::slice_subrange(cs, 0, j))
}

/// `s` without leading or trailing whitespace.
pub fn trim(s: &str) -> (r: Vec<char>)
    ensures
        r@ == trim_ws(s@),
{
    let cs = chars_of(s);
    let a = trim_start_chars(cs.as_slice(), true, ' ');
    trim_end_chars(a.as_slice(), true, ' ')
}

/// ASCII upper-case letters become lower-case; everything else stays.
pub open spec fn ascii_lower(c: char) -> char {
    if 'A' <= c <= 'Z' {
        ((c as u8) + 32) as char
    } else {
        c
    }
}

/// `s` with ASCII letters turned to lower case.
pub open spec fn ascii_lowercase(s: Seq<char>) -> Seq<char> {
    s.map_values(|c: char| ascii_lower(c))
}

/// `cs` with ASCII letters turned to lower case.
pub fn to_ascii_lowercase(cs: &[char]) -> (r: Vec<char>)
    ensures
        r@ == ascii_lowercase(cs@),
{
    let mut out: Vec<char> = Vec::new();
    let mut i: usize = 0;
    while i < cs.len()
        invariant
            i <= cs@.len(),
            out@ == ascii_lowercase(cs@.take(i as int)),
        decreases cs@.len() - i,
    {
        let c = cs[i];
        let l = if 'A' <= c && c <= 'Z' {
            ((c as u8) + 32) as char
        } else {
            c
        };
        out.push(l);
        assert(ascii_lowercase(cs@.take(i + 1)) =~= ascii_lowercase(cs@.take(i as int)).push(l));
        i = i + 1;
    }
    assert(cs@.take(i as int) =~= cs@);
    out
}

/// Whether `cs` holds the character `c`.
pub fn contains_char(cs: &[char], c: char) -> (r: bool)
    ensures
        r == cs@.contains(c),
{
    let mut i: usize = 0;
    while i < cs.len()
        invariant
            i <= cs@.len(),
            forall|k: int| 0 <= k < i ==> cs@[k] != c,
        decreases cs@.len() - i,
    {
        if cs[i] == c {
            return true;
        }
        i = i + 1;
    }
    false
}

/// Whether `cs` begins with the characters of `prefix`.
pub fn starts_with_text(cs: &[char], prefix: &str) -> (r: bool)
    ensures
        r == (prefix@.len() <= cs@.len() && cs@.take(prefix@.len() as int) == prefix@),
{
    let p = chars_of(prefix);
    if p.len() > cs.len() {
        return false;
    }
    let mut i: usize = 0;
    while i < p.len()
        invariant
            p@ == prefix@,
            p@.len() <= cs@.len(),
            i <= p@.len(),
            cs@.take(i as int) == p@.take(i as int),
        decreases p@.len() - i,
    {
        if cs[i] != p[i] {
            assert(cs@.take(p@.len() as int)[i as int] != p@[i as int]);
            return false;
        }
        assert(cs@.take(i + 1) =~= cs@.take(i as int).push(cs@[i as int]));
        assert(p@.take(i + 1) =~= p@.take(i as int).push(p@[i as int]));
        i = i + 1;
    }
    assert(p@.take(i as int) =~= p@);
    true
}

/// Whether some character of `cs` is whitespace.
pub fn any_whitespace(cs: &[char]) -> (r: bool)
    ensures
        r == (exists|k: int| 0 <= k < cs@.len() && is_ws(#[trigger] cs@[k])),
{
    let mut i: usize = 0;
    while i < cs.len()
        invariant
            i <= cs@.len(),
            forall|k: int| 0 <= k < i ==> !is_ws(#[trigger] cs@[k]),
        decreases cs@.len() - i,
    {
        if is_whitespace(cs[i]) {
            return true;
        }
        i = i + 1;
    }
    false
}

} // verus!
