use vstd::prelude::*;
use vstd::string::StrSliceExecFns;
use crate::text::framed;

verus! {

/// What a path names on the filesystem, as probed by the caller.
#[derive(Clone, Copy, Debug, PartialEq, Eq, Structural)]
pub enum PathKind {
    Missing,
    File,
    Directory,
    Other,
}

pub open spec fn is_digit(c: char) -> bool {
    '0' <= c && c <= '9'
}

/// The value of a sequence of decimal digits.
pub open spec fn digits_value(s: Seq<char>) -> nat
    decreases s.len(),
{
    if s.len() == 0 {
        0
    } else {
        digits_value(s.drop_last()) * 10 + ((s.last() as int) - ('0' as int)) as nat
    }
}

/// The `u8` that `s` denotes: an optional `+`, then one or more decimal
/// digits whose value is at most 255.
pub open spec fn parsed_u8(s: Seq<char>) -> Option<u8> {
    let body = if s.len() > 0 && s[0] == '+' { s.drop_first() } else { s };
    if body.len() > 0 && (forall|i: int| 0 <= i < body.len() ==> is_digit(#[trigger] body[i]))
        && digits_value(body) <= 255 {
        Some(digits_value(body) as u8)
    } else {
        None
    }
}

/// Relies on `u8`'s `FromStr` (`str::parse::<u8>`): it accepts an optional `+`
/// followed by decimal digits only, and fails when the value exceeds 255.
#[verifier::external_body]
fn parse_u8(s: &str) -> (r: Option<u8>)
    ensures
        r == parsed_u8(s@),
{
    s.parse::<u8>().ok()
}

pub open spec fn not_a_number_message(v: Seq<char>) -> Seq<char> {
    v + " is not a positive number"@
}

pub open spec fn not_strictly_positive_message(v: Seq<char>) -> Seq<char> {
    v + " is not strictly positive"@
}

pub open spec fn missing_message(v: Seq<char>) -> Seq<char> {
    "'"@ + v + "' does not exists"@
}

pub open spec fn present_message(v: Seq<char>) -> Seq<char> {
    "'"@ + v + "' already exists"@
}

pub open spec fn not_a_file_message(v: Seq<char>) -> Seq<char> {
    "'"@ + v + "' is not a file"@
}

pub open spec fn not_a_directory_message(v: Seq<char>) -> Seq<char> {
    "'"@ + v + "' is not a directory"@
}

/// `r` is an error that carries message `msg`.
pub open spec fn fails_with(r: Result<(), String>, msg: Seq<char>) -> bool {
    r matches Err(m) && m@ == msg
}

/// The argument that selects the standard input stream.
pub open spec fn stdin_sentinel() -> Seq<char> {
    seq!['-']
}

/// Accepts a count of shares: a number from 1 to 255.
pub fn strictly_positive(value: String) -> (r: Result<(), String>)
    ensures
        parsed_u8(value@) is None ==> fails_with(r, not_a_number_message(value@)),
        parsed_u8(value@) == Some(0u8) ==> fails_with(r, not_strictly_positive_message(value@)),
        r is Ok <==> (parsed_u8(value@) matches Some(n) && n >= 1),
{
    proof {
        reveal_strlit("");
        assert(""@ + value@ =~= value@);
    }
    match parse_u8(value.as_str()) {
        None => Err(framed("", value.as_str(), " is not a positive number")),
        Some(n) => {
            if n < 1 {
                Err(framed("", value.as_str(), " is not strictly positive"))
            } else {
                Ok(())
            }
        },
    }
}

/// Accepts a path that exists.
pub fn path_exists(value: String, kind: PathKind) -> (r: Result<(), String>)
    ensures
        kind == PathKind::Missing ==> fails_with(r, missing_message(value@)),
        kind != PathKind::Missing ==> r is Ok,
{
    if kind == PathKind::Missing {
        Err(framed("'", value.as_str(), "' does not exists"))
    } else {
        Ok(())
    }
}

/// Accepts a path that does not exist.
pub fn not_exists(value: String, kind: PathKind) -> (r: Result<(), String>)
    ensures
        kind != PathKind::Missing ==> fails_with(r, present_message(value@)),
        kind == PathKind::Missing ==> r is Ok,
{
    if kind != PathKind::Missing {
        Err(framed("'", value.as_str(), "' already exists"))
    } else {
        Ok(())
    }
}

/// Accepts a path that names a regular file.
pub fn file(value: String, kind: PathKind) -> (r: Result<(), String>)
    ensures
        kind == PathKind::Missing ==> fails_with(r, missing_message(value@)),
        kind == PathKind::Directory || kind == PathKind::Other ==> fails_with(r, not_a_file_message(value@)),
        kind == PathKind::File ==> r is Ok,
{
    let present = path_exists(value.clone(), kind);
    if let Err(m) = present {
        return Err(m);
    }
    if kind != PathKind::File {
        return Err(framed("'", value.as_str(), "' is not a file"));
    }
    Ok(())
}

/// Accepts the standard input sentinel `-`, or a path that names a regular file.
pub fn file_or_stdin(value: String, kind: PathKind) -> (r: Result<(), String>)
    ensures
        value@ == stdin_sentinel() ==> r is Ok,
        value@ != stdin_sentinel() && kind == PathKind::Missing ==> fails_with(r, missing_message(value@)),
        value@ != stdin_sentinel() && (kind == PathKind::Directory || kind == PathKind::Other)
            ==> fails_with(r, not_a_file_message(value@)),
        value@ != stdin_sentinel() && kind == PathKind::File ==> r is Ok,
{
    if is_stdin_sentinel(value.as_str()) {
        return Ok(());
    }
    file(value, kind)
}

/// Whether `value` is the standard input sentinel `-`.
pub fn is_stdin_sentinel(value: &str) -> (r: bool)
    ensures
        r == (value@ == stdin_sentinel()),
{
    let len = value.unicode_len();
    let r = len == 1 && value.get_char(0) == '-';
    proof {
        if r {
            assert(value@ =~= stdin_sentinel());
        }
    }
    r
}

/// Accepts a path that names a directory.
pub fn directory(value: String, kind: PathKind) -> (r: Result<(), String>)
    ensures
        kind == PathKind::Missing ==> fails_with(r, missing_message(value@)),
        kind == PathKind::File || kind == PathKind::Other ==> fails_with(r, not_a_directory_message(value@)),
        kind == PathKind::Directory ==> r is Ok,
{
    if kind == PathKind::Missing {
        return Err(framed("'", value.as_str(), "' does not exists"));
    }
    if kind != PathKind::Directory {
        return Err(framed("'", value.as_str(), "' is not a directory"));
    }
    Ok(())
}

/// Accepts any MIME type.
pub fn mime(value: String) -> (r: Result<(), String>)
    ensures
        r is Ok,
{
    Ok(())
}

} // verus!
