//! The directory and file name of an event file, derived from a prefix.
use vstd::prelude::*;
use vstd::string::{StrSliceExecFns, StringExecFns};

use crate::decimal::{decimal, push_decimal};
use crate::error::Error;

verus! {

/// Relies on `std::path::MAIN_SEPARATOR`: the platform's primary path
/// separator, `\\` on Windows and `/` elsewhere.
#[verifier::external_body]
fn main_separator() -> (r: char)
    ensures
        r == '/' || r == '\\',
{
    std::path::MAIN_SEPARATOR
}

/// What `std::path::Path::parent` gives for a path.
pub uninterp spec fn path_parent(p: Seq<char>) -> Option<Seq<char>>;

/// What `std::path::Path::file_name` gives for a path.
pub uninterp spec fn path_file_name(p: Seq<char>) -> Option<Seq<char>>;

/// Relies on `std::path::Path::parent`: the path without its final
/// component, or nothing for a root or an empty path.
#[verifier::external_body]
fn parent_of(p: &str) -> (r: Option<String>)
    ensures
        r is None <==> path_parent(p@) is None,
        r matches Some(d) ==> path_parent(p@) == Some(d@),
{
    match std::path::Path::new(p).parent() {
        Some(d) => Some(d.to_string_lossy().into_owned()),
        None => None,
    }
}

/// Relies on `std::path::Path::file_name`: the final component of the
/// path, or nothing when it ends in `..`. A component of a path made from a
/// `str` is valid UTF-8, so the conversion to `String` keeps it as it is.
#[verifier::external_body]
fn file_name_of(p: &str) -> (r: Option<String>)
    ensures
        r is None <==> path_file_name(p@) is None,
        r matches Some(f) ==> path_file_name(p@) == Some(f@),
{
    match std::path::Path::new(p).file_name() {
        Some(f) => Some(f.to_string_lossy().into_owned()),
        None => None,
    }
}

/// Why the host name could not be had.
#[derive(Debug, PartialEq, Eq)]
pub enum HostNameError {
    /// The system call failed; its message.
    Io(String),
    /// The host name is not valid Unicode.
    NotUnicode,
}

/// Relies on `hostname::get`: the host name of this machine, or the error
/// of the system call; and on `OsString::into_string`, which fails on a name
/// that is not valid Unicode.
#[verifier::external_body]
fn host_name() -> (r: Result<String, HostNameError>) {
    match hostname::get() {
        Ok(name) => match name.into_string() {
            Ok(s) => Ok(s),
            Err(_) => Err(HostNameError::NotUnicode),
        },
        Err(e) => Err(HostNameError::Io(e.to_string())),
    }
}

pub open spec fn ends_with_separator(p: Seq<char>, sep: char) -> bool {
    p.len() > 0 && p.last() == sep
}

/// The directory of the event file: the prefix itself when it ends in a
/// separator, else its parent (the prefix when it has none).
pub open spec fn tf_dir(p: Seq<char>, sep: char) -> Seq<char> {
    if ends_with_separator(p, sep) {
        p
    } else {
        match path_parent(p) {
            Some(d) => d,
            None => p,
        }
    }
}

/// The text that starts the file name: empty when the prefix ends in a
/// separator, else the prefix's final component (empty when it has none).
pub open spec fn tf_file_prefix(p: Seq<char>, sep: char) -> Seq<char> {
    if ends_with_separator(p, sep) {
        Seq::empty()
    } else {
        match path_file_name(p) {
            Some(f) => f,
            None => Seq::empty(),
        }
    }
}

pub open spec fn tfevents_word() -> Seq<char> {
    seq!['.', 'o', 'u', 't', '.', 't', 'f', 'e', 'v', 'e', 'n', 't', 's', '.']
}

/// `{file_prefix}.out.tfevents.{micros}.{host}{suffix}`.
pub open spec fn tf_file_name(
    file_prefix: Seq<char>,
    micros: nat,
    host: Seq<char>,
    suffix: Seq<char>,
) -> Seq<char> {
    file_prefix + tfevents_word() + decimal(micros) + seq!['.'] + host + suffix
}

pub open spec fn suffix_of(s: Option<String>) -> Seq<char> {
    match s {
        Some(t) => t@,
        None => Seq::empty(),
    }
}

fn empty_prefix_error() -> (r: Error)
    ensures
        r is InvalidArgumentsError,
{
    Error::InvalidArgumentsError { desc: String::from_str("the prefix must not be empty") }
}

/// The directory and file name of an event file for `prefix`, written at
/// `timestamp_micros` (microseconds since the Unix epoch) on host `host`,
/// where `separator` is the path separator. An empty prefix is refused.
pub fn tf_style_path(
    prefix: &str,
    file_name_suffix: Option<String>,
    timestamp_micros: u128,
    host: &str,
    separator: char,
) -> (r: Result<(String, String), Error>)
    ensures
        prefix@.len() == 0 ==> (r matches Err(e) && e is InvalidArgumentsError),
        prefix@.len() > 0 ==> (r matches Ok((dir, file)) && dir@ == tf_dir(prefix@, separator) && file@
            == tf_file_name(
            tf_file_prefix(prefix@, separator),
            timestamp_micros as nat,
            host@,
            suffix_of(file_name_suffix),
        )),
{
    let n = prefix.unicode_len();
    if n == 0 {
        return Err(empty_prefix_error());
    }
    let (dir, file_prefix) = if prefix.get_char(n - 1) == separator {
        (prefix.to_owned(), String::new())
    } else {
        let dir = match parent_of(prefix) {
            Some(d) => d,
            None => prefix.to_owned(),
        };
        let file_prefix = match file_name_of(prefix) {
            Some(f) => f,
            None => String::new(),
        };
        (dir, file_prefix)
    };
    let mut file = file_prefix;
    proof {
        reveal_strlit(".out.tfevents.");
        reveal_strlit(".");
    }
    file.append(".out.tfevents.");
    push_decimal(&mut file, timestamp_micros);
    file.append(".");
    file.append(host);
    match &file_name_suffix {
        Some(s) => file.append(s.as_str()),
        None => {},
    }
    assert(file@ =~= tf_file_name(
        tf_file_prefix(prefix@, separator),
        timestamp_micros as nat,
        host@,
        suffix_of(file_name_suffix),
    ));
    Ok((dir, file))
}

/// The directory and file name of an event file for `prefix`, written at
/// `timestamp_micros` on this machine. An empty prefix is refused before
/// the host name is looked up; a lookup that fails, or gives a name that is
/// not Unicode, is a Unicode error.
pub fn create_tf_style_path(
    prefix: &str,
    file_name_suffix: Option<String>,
    timestamp_micros: u128,
) -> (r: Result<(String, String), Error>)
    ensures
        prefix@.len() == 0 ==> (r matches Err(e) && e is InvalidArgumentsError),
        r matches Err(e) ==> (e is InvalidArgumentsError <==> prefix@.len() == 0),
        prefix@.len() > 0 ==> (r is Ok || (r matches Err(e) && e is UnicodeError)),
        r matches Ok((dir, file)) ==> prefix@.len() > 0 && exists|
            sep: char,
            host: Seq<char>,
        |
            (sep == '/' || sep == '\\') && dir@ == tf_dir(prefix@, sep) && file@ == tf_file_name(
                tf_file_prefix(prefix@, sep),
                timestamp_micros as nat,
                host,
                suffix_of(file_name_suffix),
            ),
{
    if prefix.unicode_len() == 0 {
        return Err(empty_prefix_error());
    }
    match host_name() {
        Ok(host) => {
            let sep = main_separator();
            let r = tf_style_path(prefix, file_name_suffix, timestamp_micros, host.as_str(), sep);
            proof {
                let h = host@;
                assert(r matches Ok((dir, file)) ==> dir@ == tf_dir(prefix@, sep) && file@
                    == tf_file_name(
                    tf_file_prefix(prefix@, sep),
                    timestamp_micros as nat,
                    h,
                    suffix_of(file_name_suffix),
                ));
            }
            r
        },
        Err(HostNameError::Io(desc)) => Err(Error::UnicodeError { desc }),
        Err(HostNameError::NotUnicode) => Err(
            Error::UnicodeError { desc: String::from_str("the host name is not Unicode") },
        ),
    }
}

} // verus!
