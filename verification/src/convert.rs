//! Adaptation of collaborator failures into the status taxonomy.
//!
//! The kind mapping is a stable contract: I/O-class failures (including
//! number parsing and narrowing) become `IOError`, lock poisoning
//! becomes `Invalid`, and a structured-data parse failure becomes
//! `MetaTreeInvalid`.  Components match on the kind after calling into
//! the wrapper; the rendered text is for diagnostics only.

use vstd::prelude::*;

use crate::status::{StatusCode, VineyardError};

verus! {

#[verifier::external_type_specification]
#[verifier::external_body]
pub struct ExJsonError(serde_json::Error);

#[verifier::external_type_specification]
#[verifier::external_body]
pub struct ExIoError(std::io::Error);

#[verifier::external_type_specification]
#[verifier::external_body]
pub struct ExParseIntError(core::num::ParseIntError);

#[verifier::external_type_specification]
#[verifier::external_body]
pub struct ExParseFloatError(core::num::ParseFloatError);

#[verifier::external_type_specification]
#[verifier::external_body]
#[verifier::reject_recursive_types(T)]
pub struct ExPoisonError<T>(std::sync::PoisonError<T>);

/// Relies on serde_json::Error's rendering of a parse failure.
#[verifier::external_body]
fn json_error_string(e: &serde_json::Error) -> String {
    format!("{}", e)
}

/// Relies on std::io::Error's rendering of an I/O failure.
#[verifier::external_body]
fn io_error_string(e: &std::io::Error) -> String {
    format!("{}", e)
}

/// Relies on core::num::ParseIntError's rendering of the failure.
#[verifier::external_body]
fn parse_int_error_string(e: &core::num::ParseIntError) -> String {
    format!("{}", e)
}

/// Relies on core::num::ParseFloatError's rendering of the failure.
#[verifier::external_body]
fn parse_float_error_string(e: &core::num::ParseFloatError) -> String {
    format!("{}", e)
}

/// Relies on core::num::TryFromIntError's rendering of the failure.
#[verifier::external_body]
fn try_from_int_error_string(e: &core::num::TryFromIntError) -> String {
    format!("{}", e)
}

/// Relies on std::sync::PoisonError's rendering of the failure.
#[verifier::external_body]
fn poison_error_string<T>(e: &std::sync::PoisonError<T>) -> String {
    format!("{}", e)
}

/// The prefix under which an adapted message begins with the given
/// template.
pub open spec fn message_prefixed(message: Seq<char>, prefix: Seq<char>) -> bool {
    message.len() >= prefix.len() && message.subrange(0, prefix.len() as int) == prefix
}

impl VineyardError {
    /// A structured-data parse failure: always `MetaTreeInvalid`.
    pub fn from_json_error(e: &serde_json::Error) -> (r: VineyardError)
        ensures
            r.code == StatusCode::MetaTreeInvalid,
    {
        VineyardError { code: StatusCode::MetaTreeInvalid, message: json_error_string(e) }
    }

    /// An I/O failure: always `IOError`, under a fixed prefix.
    pub fn from_io_error(e: &std::io::Error) -> (r: VineyardError)
        ensures
            r.code == StatusCode::IOError,
            message_prefixed(r.message@, "internal io error: "@),
    {
        let message = String::from_str("internal io error: ").concat(io_error_string(e).as_str());
        proof {
            assert(message@.subrange(0, "internal io error: "@.len() as int)
                =~= "internal io error: "@);
        }
        VineyardError { code: StatusCode::IOError, message }
    }

    /// An integer parse failure: always `IOError`, under a fixed prefix.
    pub fn from_parse_int_error(e: &core::num::ParseIntError) -> (r: VineyardError)
        ensures
            r.code == StatusCode::IOError,
            message_prefixed(r.message@, "parse int error: "@),
    {
        let message = String::from_str("parse int error: ").concat(
            parse_int_error_string(e).as_str(),
        );
        proof {
            assert(message@.subrange(0, "parse int error: "@.len() as int)
                =~= "parse int error: "@);
        }
        VineyardError { code: StatusCode::IOError, message }
    }

    /// A float parse failure: always `IOError`, under a fixed prefix.
    pub fn from_parse_float_error(e: &core::num::ParseFloatError) -> (r: VineyardError)
        ensures
            r.code == StatusCode::IOError,
            message_prefixed(r.message@, "parse float error: "@),
    {
        let message = String::from_str("parse float error: ").concat(
            parse_float_error_string(e).as_str(),
        );
        proof {
            assert(message@.subrange(0, "parse float error: "@.len() as int)
                =~= "parse float error: "@);
        }
        VineyardError { code: StatusCode::IOError, message }
    }

    /// A numeric narrowing failure: always `IOError`, under a fixed prefix.
    pub fn from_try_from_int_error(e: &core::num::TryFromIntError) -> (r: VineyardError)
        ensures
            r.code == StatusCode::IOError,
            message_prefixed(r.message@, "try from int error: "@),
    {
        let message = String::from_str("try from int error: ").concat(
            try_from_int_error_string(e).as_str(),
        );
        proof {
            assert(message@.subrange(0, "try from int error: "@.len() as int)
                =~= "try from int error: "@);
        }
        VineyardError { code: StatusCode::IOError, message }
    }

    /// Lock poisoning: always `Invalid`, under a fixed prefix, so one
    /// poisoned lock degrades to explicit errors instead of cascading
    /// panics.
    pub fn from_poison_error<T>(e: &std::sync::PoisonError<T>) -> (r: VineyardError)
        ensures
            r.code == StatusCode::Invalid,
            message_prefixed(r.message@, "lock poison error: "@),
    {
        let message = String::from_str("lock poison error: ").concat(
            poison_error_string(e).as_str(),
        );
        proof {
            assert(message@.subrange(0, "lock poison error: "@.len() as int)
                =~= "lock poison error: "@);
        }
        VineyardError { code: StatusCode::Invalid, message }
    }
}

} // verus!
