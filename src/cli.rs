//! Command-line arguments of the downloader and of the nightly refresh.

use vstd::prelude::*;
use crate::text::{chars_of, same_text, starts_with_text, string_of};

verus! {

/// Media library root used when none is given.
pub const DEFAULT_MEDIA_ROOT: &'static str = "/yt";

/// Web root used when none is given.
pub const DEFAULT_WWW_ROOT: &'static str = "/www/newtube.com";

/// Why a command line was refused.
#[derive(Debug, Clone, Copy, PartialEq, Eq, Structural)]
pub enum ArgError {
    /// `--media-root` or `--www-root` came last, without its value.
    MissingValue,
    /// An option that is not known.
    UnknownArgument,
    /// More than one channel URL.
    DuplicateChannel,
    /// No channel URL at all.
    MissingChannel,
}

/// Parsed arguments as plain values.
pub struct ArgsView {
    pub media_root: Seq<char>,
    pub www_root: Seq<char>,
    pub channel: Option<Seq<char>>,
}

/// Whether `a` begins with `p`.
pub open spec fn has_prefix(a: Seq<char>, p: Seq<char>) -> bool {
    p.len() <= a.len() && a.take(p.len() as int) == p
}

/// The arguments before any is read.
pub open spec fn default_args() -> ArgsView {
    ArgsView { media_root: DEFAULT_MEDIA_ROOT@, www_root: DEFAULT_WWW_ROOT@, channel: None }
}

/// `st` with the channel set to `c`, unless one is already set.
pub open spec fn with_channel(st: ArgsView, c: Seq<char>) -> Result<ArgsView, ArgError> {
    if st.channel is Some {
        Err(ArgError::DuplicateChannel)
    } else {
        Ok(ArgsView { channel: Some(c), ..st })
    }
}

/// After `--`, every remaining argument is a channel URL.
pub open spec fn parse_rest(args: Seq<Seq<char>>, i: int, st: ArgsView) -> Result<ArgsView, ArgError>
    decreases args.len() - i,
{
    if i < 0 || i >= args.len() {
        Ok(st)
    } else {
        match with_channel(st, args[i]) {
            Ok(next) => parse_rest(args, i + 1, next),
            Err(e) => Err(e),
        }
    }
}

/// Reads `args` from index `i` on. Options take their value either after `=`
/// or as the next argument; when `channels` is false no positional argument
/// is accepted.
pub open spec fn parse_from(args: Seq<Seq<char>>, i: int, st: ArgsView, channels: bool) -> Result<
    ArgsView,
    ArgError,
>
    decreases args.len() - i,
{
    if i < 0 || i >= args.len() {
        Ok(st)
    } else {
        let a = args[i];
        if channels && a == "--"@ {
            parse_rest(args, i + 1, st)
        } else if has_prefix(a, "--media-root="@) {
            parse_from(
                args,
                i + 1,
                ArgsView { media_root: a.skip("--media-root="@.len() as int), ..st },
                channels,
            )
        } else if has_prefix(a, "--www-root="@) {
            parse_from(
                args,
                i + 1,
                ArgsView { www_root: a.skip("--www-root="@.len() as int), ..st },
                channels,
            )
        } else if a == "--media-root"@ {
            if i + 1 < args.len() {
                parse_from(args, i + 2, ArgsView { media_root: args[i + 1], ..st }, channels)
            } else {
                Err(ArgError::MissingValue)
            }
        } else if a == "--www-root"@ {
            if i + 1 < args.len() {
                parse_from(args, i + 2, ArgsView { www_root: args[i + 1], ..st }, channels)
            } else {
                Err(ArgError::MissingValue)
            }
        } else if !channels || (a.len() > 0 && a[0] == '-') {
            Err(ArgError::UnknownArgument)
        } else {
            match with_channel(st, a) {
                Ok(next) => parse_from(args, i + 1, next, channels),
                Err(e) => Err(e),
            }
        }
    }
}

/// The views of a list of arguments.
pub open spec fn arg_views(args: Seq<String>) -> Seq<Seq<char>> {
    args.map_values(|s: String| s@)
}

/// What the downloader makes of its arguments: a channel URL is required.
pub open spec fn downloader_args_of(args: Seq<Seq<char>>) -> Result<ArgsView, ArgError> {
    match parse_from(args, 0, default_args(), true) {
        Ok(st) => if st.channel is Some {
            Ok(st)
        } else {
            Err(ArgError::MissingChannel)
        },
        Err(e) => Err(e),
    }
}

/// What the nightly refresh makes of its arguments.
pub open spec fn routine_args_of(args: Seq<Seq<char>>) -> Result<ArgsView, ArgError> {
    parse_from(args, 0, default_args(), false)
}

/// Mutable parse state.
struct ArgsState {
    media_root: String,
    www_root: String,
    channel: Option<String>,
}

impl ArgsState {
    spec fn view_of(&self) -> ArgsView {
        ArgsView {
            media_root: self.media_root@,
            www_root: self.www_root@,
            channel: match self.channel {
                Some(c) => Some(c@),
                None => None,
            },
        }
    }
}

fn rest_after(a: &str, prefix: &str) -> (r: Option<String>)
    ensures
        match r {
            Some(v) => has_prefix(a@, prefix@) && v@ == a@.skip(prefix@.len() as int),
            None => !has_prefix(a@, prefix@),
        },
{
    let cs = chars_of(a);
    if starts_with_text(cs.as_slice(), prefix) {
        let n = prefix.unicode_len();
        let rest = vstd::slice::slice_subrange(cs.as_slice(), n, cs.len());
        assert(rest@ =~= a@.skip(prefix@.len() as int));
        Some(string_of(rest))
    } else {
        None
    }
}

fn parse_args(args: &Vec<String>, channels: bool) -> (r: Result<ArgsState, ArgError>)
    ensures
        match r {
            Ok(st) => parse_from(arg_views(args@), 0, default_args(), channels) == Ok::<
                ArgsView,
                ArgError,
            >(st.view_of()),
            Err(e) => parse_from(arg_views(args@), 0, default_args(), channels) == Err::<
                ArgsView,
                ArgError,
            >(e),
        },
{
    let ghost views = arg_views(args@);
    let mut st = ArgsState {
        media_root: String::from_str(DEFAULT_MEDIA_ROOT),
        www_root: String::from_str(DEFAULT_WWW_ROOT),
        channel: None,
    };
    let n = args.len();
    let mut i: usize = 0;
    while i < n
        invariant
            n == args@.len(),
            views == arg_views(args@),
            i <= n,
            parse_from(views, 0, default_args(), channels) == parse_from(
                views,
                i as int,
                st.view_of(),
                channels,
            ),
        decreases n - i,
    {
        let a = args[i].as_str();
        assert(views[i as int] == a@);
        if channels && same_text(a, "--") {
            let mut j: usize = i + 1;
            while j < n
                invariant
                    n == args@.len(),
                    views == arg_views(args@),
                    i < j <= n,
                    parse_from(views, 0, default_args(), channels) == parse_rest(
                        views,
                        j as int,
                        st.view_of(),
                    ),
                decreases n - j,
            {
                assert(views[j as int] == args@[j as int]@);
                if st.channel.is_some() {
                    return Err(ArgError::DuplicateChannel);
                }
                st.channel = Some(args[j].clone());
                j = j + 1;
            }
            return Ok(st);
        }
        if let Some(v) = rest_after(a, "--media-root=") {
            st.media_root = v;
            i = i + 1;
        } else if let Some(v) = rest_after(a, "--www-root=") {
            st.www_root = v;
            i = i + 1;
        } else if same_text(a, "--media-root") {
            if i + 1 < n {
                assert(views[i + 1] == args@[i + 1]@);
                st.media_root = args[i + 1].clone();
                i = i + 2;
            } else {
                return Err(ArgError::MissingValue);
            }
        } else if same_text(a, "--www-root") {
            if i + 1 < n {
                assert(views[i + 1] == args@[i + 1]@);
                st.www_root = args[i + 1].clone();
                i = i + 2;
            } else {
                return Err(ArgError::MissingValue);
            }
        } else {
            let cs = chars_of(a);
            if !channels || (cs.len() > 0 && cs[0] == '-') {
                return Err(ArgError::UnknownArgument);
            }
            if st.channel.is_some() {
                return Err(ArgError::DuplicateChannel);
            }
            st.channel = Some(args[i].clone());
            i = i + 1;
        }
    }
    Ok(st)
}

fn to_strings(values: &[&str]) -> (r: Vec<String>)
    ensures
        arg_views(r@) == values@.map_values(|s: &str| s@),
{
    let mut out: Vec<String> = Vec::new();
    let mut i: usize = 0;
    while i < values.len()
        invariant
            i <= values@.len(),
            arg_views(out@) == values@.take(i as int).map_values(|s: &str| s@),
        decreases values@.len() - i,
    {
        let ghost before = out@;
        out.push(String::from_str(values[i]));
        assert(arg_views(out@) =~= arg_views(before).push(values@[i as int]@));
        assert(values@.take(i + 1).map_values(|s: &str| s@) =~= values@.take(i as int).map_values(
            |s: &str| s@,
        ).push(values@[i as int]@));
        i = i + 1;
    }
    assert(values@.take(i as int) =~= values@);
    out
}

/// Arguments of the channel downloader.
pub struct DownloaderArgs {
    pub channel_url: String,
    pub media_root: String,
    pub www_root: String,
}

impl DownloaderArgs {
    /// Parses the downloader's arguments (without the program name).
    pub fn from_iter(args: Vec<String>) -> (r: Result<DownloaderArgs, ArgError>)
        ensures
            match r {
                Ok(d) => downloader_args_of(arg_views(args@)) == Ok::<ArgsView, ArgError>(
                    ArgsView {
                        media_root: d.media_root@,
                        www_root: d.www_root@,
                        channel: Some(d.channel_url@),
                    },
                ),
                Err(e) => downloader_args_of(arg_views(args@)) == Err::<ArgsView, ArgError>(e),
            },
    {
        let st = parse_args(&args, true)?;
        match st.channel {
            Some(channel_url) => Ok(
                DownloaderArgs { channel_url, media_root: st.media_root, www_root: st.www_root },
            ),
            None => Err(ArgError::MissingChannel),
        }
    }

    /// Parses arguments given as string slices.
    pub fn from_slice(values: &[&str]) -> (r: Result<DownloaderArgs, ArgError>)
        ensures
            match r {
                Ok(d) => downloader_args_of(values@.map_values(|s: &str| s@)) == Ok::<
                    ArgsView,
                    ArgError,
                >(
                    ArgsView {
                        media_root: d.media_root@,
                        www_root: d.www_root@,
                        channel: Some(d.channel_url@),
                    },
                ),
                Err(e) => downloader_args_of(values@.map_values(|s: &str| s@)) == Err::<
                    ArgsView,
                    ArgError,
                >(e),
            },
    {
        Self::from_iter(to_strings(values))
    }

    /// Records the channel URL, refusing a second one.
    pub fn set_channel(target: &mut Option<String>, value: String) -> (r: Result<(), ArgError>)
        ensures
            match r {
                Ok(()) => (*old(target)) is None && *final(target) == Some(value),
                Err(e) => (*old(target)) is Some && e == ArgError::DuplicateChannel && *final(target)
                    == *old(target),
            },
    {
        if target.is_some() {
            return Err(ArgError::DuplicateChannel);
        }
        *target = Some(value);
        Ok(())
    }
}

/// Arguments of the nightly refresh.
pub struct RoutineArgs {
    pub media_root: String,
    pub www_root: String,
}

impl RoutineArgs {
    /// Parses the refresh's arguments (without the program name).
    pub fn from_iter(args: Vec<String>) -> (r: Result<RoutineArgs, ArgError>)
        ensures
            match r {
                Ok(a) => routine_args_of(arg_views(args@)) is Ok && routine_args_of(
                    arg_views(args@),
                )->Ok_0.media_root == a.media_root@ && routine_args_of(
                    arg_views(args@),
                )->Ok_0.www_root == a.www_root@,
                Err(e) => routine_args_of(arg_views(args@)) == Err::<ArgsView, ArgError>(e),
            },
    {
        let st = parse_args(&args, false)?;
        Ok(RoutineArgs { media_root: st.media_root, www_root: st.www_root })
    }

    /// Parses arguments given as string slices.
    pub fn from_slice(values: &[&str]) -> (r: Result<RoutineArgs, ArgError>)
        ensures
            match r {
                Ok(a) => routine_args_of(values@.map_values(|s: &str| s@)) is Ok && routine_args_of(
                    values@.map_values(|s: &str| s@),
                )->Ok_0.media_root == a.media_root@ && routine_args_of(
                    values@.map_values(|s: &str| s@),
                )->Ok_0.www_root == a.www_root@,
                Err(e) => routine_args_of(values@.map_values(|s: &str| s@)) == Err::<
                    ArgsView,
                    ArgError,
                >(e),
            },
    {
        Self::from_iter(to_strings(values))
    }
}

/// A command line as it is shown to the operator: the program, then each
/// argument after a space.
pub open spec fn command_text(cmd: Seq<char>, args: Seq<Seq<char>>) -> Seq<char>
    decreases args.len(),
{
    if args.len() == 0 {
        cmd
    } else {
        command_text(cmd, args.drop_last()) + " "@ + args.last()
    }
}

/// Renders a command line for logs and error messages.
pub fn format_command(cmd: &str, args: &[&str]) -> (r: String)
    ensures
        r@ == command_text(cmd@, args@.map_values(|a: &str| a@)),
{
    let mut printable = String::from_str(cmd);
    let mut i: usize = 0;
    while i < args.len()
        invariant
            i <= args@.len(),
            printable@ == command_text(cmd@, args@.take(i as int).map_values(|a: &str| a@)),
        decreases args@.len() - i,
    {
        printable.append(" ");
        printable.append(args[i]);
        assert(args@.take(i + 1).map_values(|a: &str| a@).drop_last() =~= args@.take(
            i as int,
        ).map_values(|a: &str| a@));
        i = i + 1;
    }
    assert(args@.take(i as int) =~= args@);
    printable
}

} // verus!
