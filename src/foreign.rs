//! What this library takes from outside crates, and what it assumes of it.
use vstd::prelude::*;

verus! {

/// An error of the HTTP client, carried through unchanged for diagnostics.
#[verifier::external_type_specification]
#[verifier::external_body]
pub struct ExReqwestError(reqwest::Error);

/// An I/O error of the standard library, carried through unchanged for diagnostics.
#[verifier::external_type_specification]
#[verifier::external_body]
pub struct ExIoError(std::io::Error);

/// The URL that `url::Url::join` resolves `input` to, against the URL that
/// `base` parses to; `None` where either step fails.
pub uninterp spec fn joined_url_of(base: Seq<char>, input: Seq<char>) -> Option<Seq<char>>;

/// Relies on `url::Url::parse` and `url::Url::join` (through reqwest's
/// re-export): resolving a relative reference against a base URL, written out
/// as text. The result depends on the two strings alone.
#[verifier::external_body]
pub(crate) fn join_url(base: &str, input: &str) -> (r: Option<String>)
    ensures
        match r {
            Some(u) => joined_url_of(base@, input@) == Some(u@),
            None => joined_url_of(base@, input@) is None,
        },
{
    match reqwest::Url::parse(base) {
        Ok(b) => match b.join(input) {
            Ok(u) => Some(u.to_string()),
            Err(_) => None,
        },
        Err(_) => None,
    }
}

/// What `sanitize_filename::sanitize_with_options` makes of `name` with the
/// given options.
pub uninterp spec fn sanitized_of(
    name: Seq<char>,
    windows: bool,
    truncate: bool,
    replacement: Seq<char>,
) -> Seq<char>;

/// Relies on `sanitize_filename::sanitize_with_options`: the result depends on
/// the name and the options alone. With an empty replacement, every `/`, `\`
/// and control character below U+0020 is removed, and the later steps only
/// remove or cut off text, so none of them is left.
#[verifier::external_body]
pub(crate) fn sanitize_file_name(name: &str, windows: bool, truncate: bool, replacement: &str) -> (r:
    String)
    ensures
        r@ == sanitized_of(name@, windows, truncate, replacement@),
        replacement@.len() == 0 ==> forall|k: int|
            0 <= k < r@.len() ==> #[trigger] r@[k] != '/' && r@[k] != '\\' && ' ' <= r@[k],
{
    sanitize_filename::sanitize_with_options(
        name,
        sanitize_filename::Options { windows, truncate, replacement },
    )
}

/// The format of a local time stamp to the minute: `YYYY-MM-DD HH:MM`.
pub open spec fn minute_format() -> Seq<char> {
    seq!['%', 'F', ' ', '%', 'R']
}

/// Relies on `chrono::Local::now` and `DateTime::format`: the machine's local
/// time now, written in the format `%F %R`. It depends on the clock and the
/// time zone, so nothing is stated of it.
#[verifier::external_body]
pub(crate) fn local_time_text(format: &str) -> (r: String)
    requires
        format@ == minute_format(),
{
    chrono::Local::now().format(format).to_string()
}

} // verus!
