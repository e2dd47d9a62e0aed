//! Conversions of outside errors into hybrid errors: each becomes an error of
//! a fixed kind whose message is a fixed label followed by the outside
//! error's own text.

use vstd::prelude::*;
use crate::error::HybridError;
use crate::outside::{
    chrono_parse_error_text, io_error_text, join_error_text, json_error_text, poison_error_text,
    thread_pool_build_error_text,
};

verus! {

/// `label` followed by some text.
pub open spec fn labelled(m: Seq<char>, label: Seq<char>) -> bool {
    exists|t: Seq<char>| m == label + t
}

/// `label` followed by `text`.
pub fn labelled_message(label: &str, text: String) -> (r: String)
    ensures
        r@ == label@ + text@,
{
    let mut s = String::from_str(label);
    s.append(text.as_str());
    s
}

impl From<std::io::Error> for HybridError {
    fn from(err: std::io::Error) -> (r: Self)
        ensures
            r matches HybridError::DataError(m) && labelled(m@, "IO error: "@),
    {
        HybridError::DataError(labelled_message("IO error: ", io_error_text(&err)))
    }
}

impl vstd::std_specs::convert::FromSpecImpl<std::io::Error> for HybridError {
    open spec fn obeys_from_spec() -> bool {
        false
    }

    open spec fn from_spec(v: std::io::Error) -> Self {
        HybridError::DataError(arbitrary())
    }
}

impl From<serde_json::Error> for HybridError {
    fn from(err: serde_json::Error) -> (r: Self)
        ensures
            r matches HybridError::DataError(m) && labelled(m@, "JSON serialization error: "@),
    {
        HybridError::DataError(labelled_message("JSON serialization error: ", json_error_text(&err)))
    }
}

impl vstd::std_specs::convert::FromSpecImpl<serde_json::Error> for HybridError {
    open spec fn obeys_from_spec() -> bool {
        false
    }

    open spec fn from_spec(v: serde_json::Error) -> Self {
        HybridError::DataError(arbitrary())
    }
}

impl From<chrono::ParseError> for HybridError {
    fn from(err: chrono::ParseError) -> (r: Self)
        ensures
            r matches HybridError::DataError(m) && labelled(m@, "Date/time parsing error: "@),
    {
        HybridError::DataError(labelled_message("Date/time parsing error: ", chrono_parse_error_text(&err)))
    }
}

impl vstd::std_specs::convert::FromSpecImpl<chrono::ParseError> for HybridError {
    open spec fn obeys_from_spec() -> bool {
        false
    }

    open spec fn from_spec(v: chrono::ParseError) -> Self {
        HybridError::DataError(arbitrary())
    }
}

impl From<tokio::task::JoinError> for HybridError {
    fn from(err: tokio::task::JoinError) -> (r: Self)
        ensures
            r matches HybridError::Async(m) && labelled(m@, "Task join error: "@),
    {
        HybridError::Async(labelled_message("Task join error: ", join_error_text(&err)))
    }
}

impl vstd::std_specs::convert::FromSpecImpl<tokio::task::JoinError> for HybridError {
    open spec fn obeys_from_spec() -> bool {
        false
    }

    open spec fn from_spec(v: tokio::task::JoinError) -> Self {
        HybridError::Async(arbitrary())
    }
}

impl<'a> From<std::sync::PoisonError<std::sync::MutexGuard<'a, ()>>> for HybridError {
    fn from(err: std::sync::PoisonError<std::sync::MutexGuard<'a, ()>>) -> (r: Self)
        ensures
            r matches HybridError::Async(m) && labelled(m@, "Mutex poison error: "@),
    {
        HybridError::Async(labelled_message("Mutex poison error: ", poison_error_text(&err)))
    }
}

impl<'a> vstd::std_specs::convert::FromSpecImpl<std::sync::PoisonError<std::sync::MutexGuard<'a, ()>>> for HybridError {
    open spec fn obeys_from_spec() -> bool {
        false
    }

    open spec fn from_spec(v: std::sync::PoisonError<std::sync::MutexGuard<'a, ()>>) -> Self {
        HybridError::Async(arbitrary())
    }
}

impl From<rayon::ThreadPoolBuildError> for HybridError {
    fn from(err: rayon::ThreadPoolBuildError) -> (r: Self)
        ensures
            r matches HybridError::Performance(m) && labelled(m@, "Thread pool build error: "@),
    {
        HybridError::Performance(labelled_message("Thread pool build error: ", thread_pool_build_error_text(&err)))
    }
}

impl vstd::std_specs::convert::FromSpecImpl<rayon::ThreadPoolBuildError> for HybridError {
    open spec fn obeys_from_spec() -> bool {
        false
    }

    open spec fn from_spec(v: rayon::ThreadPoolBuildError) -> Self {
        HybridError::Performance(arbitrary())
    }
}

} // verus!
