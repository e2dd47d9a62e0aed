//! The trusted items: declarations of the outside error types that the
//! crate converts, the wrappers that render them as text, and the
//! contracts given to the outside and standard functions the library
//! calls (text conversion and formatting, lowercasing, the timestamp
//! range, the CPU count).

use vstd::prelude::*;

verus! {

/// Declares `std::io::Error`, carried through opaquely.
#[verifier::external_type_specification]
#[verifier::external_body]
pub struct ExIoError(std::io::Error);

/// Declares `serde_json::Error`, carried through opaquely.
#[verifier::external_type_specification]
#[verifier::external_body]
pub struct ExJsonError(serde_json::Error);

/// Declares `chrono::ParseError`, carried through opaquely.
#[verifier::external_type_specification]
#[verifier::external_body]
pub struct ExChronoParseError(chrono::ParseError);

/// Declares `tokio::task::JoinError`, carried through opaquely.
#[verifier::external_type_specification]
#[verifier::external_body]
pub struct ExJoinError(tokio::task::JoinError);

/// Declares `rayon::ThreadPoolBuildError`, carried through opaquely.
#[verifier::external_type_specification]
#[verifier::external_body]
pub struct ExThreadPoolBuildError(rayon::ThreadPoolBuildError);

/// Declares `std::sync::PoisonError`, carried through opaquely.
#[verifier::external_type_specification]
#[verifier::external_body]
#[verifier::reject_recursive_types(T)]
pub struct ExPoisonError<T>(std::sync::PoisonError<T>);

/// Declares `std::sync::MutexGuard`, carried through opaquely.
#[verifier::external_type_specification]
#[verifier::external_body]
#[verifier::reject_recursive_types(T)]
pub struct ExMutexGuard<'a, T: ?Sized + 'a>(std::sync::MutexGuard<'a, T>);

/// The text of `std::io::Error`'s `Display` implementation. Nothing is
/// claimed of the text.
#[verifier::external_body]
pub(crate) fn io_error_text(err: &std::io::Error) -> (r: String) {
    err.to_string()
}

/// The text of `serde_json::Error`'s `Display` implementation. Nothing is
/// claimed of the text.
#[verifier::external_body]
pub(crate) fn json_error_text(err: &serde_json::Error) -> (r: String) {
    err.to_string()
}

/// The text of `chrono::ParseError`'s `Display` implementation. Nothing is
/// claimed of the text.
#[verifier::external_body]
pub(crate) fn chrono_parse_error_text(err: &chrono::ParseError) -> (r: String) {
    err.to_string()
}

/// The text of `tokio::task::JoinError`'s `Display` implementation. Nothing
/// is claimed of the text.
#[verifier::external_body]
pub(crate) fn join_error_text(err: &tokio::task::JoinError) -> (r: String) {
    err.to_string()
}

/// The text of `rayon::ThreadPoolBuildError`'s `Display` implementation.
/// Nothing is claimed of the text.
#[verifier::external_body]
pub(crate) fn thread_pool_build_error_text(err: &rayon::ThreadPoolBuildError) -> (r: String) {
    err.to_string()
}

/// The text of `std::sync::PoisonError`'s `Display` implementation.
/// Nothing is claimed of the text.
#[verifier::external_body]
pub(crate) fn poison_error_text<T>(err: &std::sync::PoisonError<T>) -> (r: String) {
    err.to_string()
}


/// `<String as From<&str>>::from`, which copies the text into a new
/// `String`: the result holds the same characters as the argument.
pub assume_specification<'a>[ <std::string::String as std::convert::From<&'a str>>::from ](s: &str) -> (r: std::string::String)
    ensures
        r@ == s@,
;

/// The text that `Debug` gives for a `str`: the characters in double
/// quotes, with quotes, backslashes and unprintable characters escaped.
pub uninterp spec fn str_debug_text(s: Seq<char>) -> Seq<char>;

/// Formats a `str` with its `Debug` implementation (`format!("{:?}", s)`).
/// The text depends on the characters alone, so it is named by
/// `str_debug_text`.
#[verifier::external_body]
pub(crate) fn str_debug(s: &str) -> (r: String)
    ensures
        r@ == str_debug_text(s@),
{
    format!("{:?}", s)
}

/// Whether a count of milliseconds since the Unix epoch names an instant
/// that `chrono` can represent (about 262,000 years either side of the
/// common era).
pub uninterp spec fn millis_in_range(ms: i64) -> bool;

/// Calls `chrono::DateTime::from_timestamp_millis`, which gives the
/// instant `ms` milliseconds after the Unix epoch, or `None` when that is
/// out of range, and tells which of the two came back (Verus does not take
/// a declaration of `chrono::DateTime`, whose parameter is bound by an
/// outside trait, so the instant itself is not handed on). Which counts
/// are in range depends on `ms` alone and is named by `millis_in_range`.
#[verifier::external_body]
pub(crate) fn millis_representable(ms: i64) -> (r: bool)
    ensures
        r == millis_in_range(ms),
{
    match chrono::DateTime::from_timestamp_millis(ms) {
        Some(_) => true,
        None => false,
    }
}

/// The lowercase form of a text, as `str::to_lowercase` computes it.
pub uninterp spec fn lowercase(s: Seq<char>) -> Seq<char>;

/// Calls `str::to_lowercase`, which maps each character to its lowercase
/// form by Unicode's rules; its result depends on the text alone, so it is
/// named here by `lowercase`.
#[verifier::external_body]
pub(crate) fn to_lowercase(s: &str) -> (r: String)
    ensures
        r@ == lowercase(s@),
{
    s.to_lowercase()
}

/// Calls `num_cpus::get`, the number of logical CPUs available to the
/// process. It depends on the machine, so only what its documentation
/// promises of every outcome is claimed: it is at least 1.
#[verifier::external_body]
pub(crate) fn cpu_count() -> (r: usize)
    ensures
        r >= 1,
{
    num_cpus::get()
}

} // verus!
