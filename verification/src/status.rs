//! The status taxonomy and the error wrapper.
//!
//! Every fallible operation of this library reports its outcome as a
//! `VineyardError`: a status kind paired with a human-readable message.
//! The kind is authoritative for programmatic branching; the message is
//! for diagnostics only.

use vstd::prelude::*;

use crate::text::{dec_str, u64_to_string};

verus! {

/// Identifier of an object held by the remote store.
pub type ObjectID = u64;

/// The closed set of outcome kinds.
///
/// `OK` is the unique success value; every other kind denotes a failure,
/// including kinds such as `ObjectSpilled` or `StreamOpened` that describe
/// a valid but constrained state.  Each kind carries a stable numeric tag,
/// given by [`spec_code_value`]; the tags are a compatibility contract and
/// must not be reassigned.
#[derive(Debug, Clone, Copy, Default, PartialEq, Eq, Structural)]
pub enum StatusCode {
    #[default]
    OK,
    Invalid,
    KeyError,
    TypeError,
    IOError,
    EndOfFile,
    NotImplemented,
    AssertionFailed,
    UserInputError,
    ObjectExists,
    ObjectNotExists,
    ObjectSealed,
    ObjectNotSealed,
    ObjectIsBlob,
    ObjectTypeError,
    ObjectSpilled,
    ObjectNotSpilled,
    MetaTreeInvalid,
    MetaTreeTypeInvalid,
    MetaTreeTypeNotExists,
    MetaTreeNameInvalid,
    MetaTreeNameNotExists,
    MetaTreeLinkInvalid,
    MetaTreeSubtreeNotExists,
    VineyardServerNotReady,
    ArrowError,
    ConnectionFailed,
    ConnectionError,
    EtcdError,
    AlreadyStopped,
    RedisError,
    NotEnoughMemory,
    StreamDrained,
    StreamFailed,
    InvalidStreamState,
    StreamOpened,
    GlobalObjectInvalid,
    UnknownError,
}

/// The stable numeric tag of each status kind.
pub open spec fn spec_code_value(c: StatusCode) -> u64 {
    match c {
        StatusCode::OK => 0,
        StatusCode::Invalid => 1,
        StatusCode::KeyError => 2,
        StatusCode::TypeError => 3,
        StatusCode::IOError => 4,
        StatusCode::EndOfFile => 5,
        StatusCode::NotImplemented => 6,
        StatusCode::AssertionFailed => 7,
        StatusCode::UserInputError => 8,
        StatusCode::ObjectExists => 11,
        StatusCode::ObjectNotExists => 12,
        StatusCode::ObjectSealed => 13,
        StatusCode::ObjectNotSealed => 14,
        StatusCode::ObjectIsBlob => 15,
        StatusCode::ObjectTypeError => 16,
        StatusCode::ObjectSpilled => 17,
        StatusCode::ObjectNotSpilled => 18,
        StatusCode::MetaTreeInvalid => 21,
        StatusCode::MetaTreeTypeInvalid => 22,
        StatusCode::MetaTreeTypeNotExists => 23,
        StatusCode::MetaTreeNameInvalid => 24,
        StatusCode::MetaTreeNameNotExists => 25,
        StatusCode::MetaTreeLinkInvalid => 26,
        StatusCode::MetaTreeSubtreeNotExists => 27,
        StatusCode::VineyardServerNotReady => 31,
        StatusCode::ArrowError => 32,
        StatusCode::ConnectionFailed => 33,
        StatusCode::ConnectionError => 34,
        StatusCode::EtcdError => 35,
        StatusCode::AlreadyStopped => 36,
        StatusCode::RedisError => 37,
        StatusCode::NotEnoughMemory => 41,
        StatusCode::StreamDrained => 42,
        StatusCode::StreamFailed => 43,
        StatusCode::InvalidStreamState => 44,
        StatusCode::StreamOpened => 45,
        StatusCode::GlobalObjectInvalid => 51,
        StatusCode::UnknownError => 255,
    }
}

/// The status kind that carries a given numeric tag, if any.
pub open spec fn spec_code_of_value(v: u64) -> Option<StatusCode> {
    if v == 0 {
        Some(StatusCode::OK)
    } else if v == 1 {
        Some(StatusCode::Invalid)
    } else if v == 2 {
        Some(StatusCode::KeyError)
    } else if v == 3 {
        Some(StatusCode::TypeError)
    } else if v == 4 {
        Some(StatusCode::IOError)
    } else if v == 5 {
        Some(StatusCode::EndOfFile)
    } else if v == 6 {
        Some(StatusCode::NotImplemented)
    } else if v == 7 {
        Some(StatusCode::AssertionFailed)
    } else if v == 8 {
        Some(StatusCode::UserInputError)
    } else if v == 11 {
        Some(StatusCode::ObjectExists)
    } else if v == 12 {
        Some(StatusCode::ObjectNotExists)
    } else if v == 13 {
        Some(StatusCode::ObjectSealed)
    } else if v == 14 {
        Some(StatusCode::ObjectNotSealed)
    } else if v == 15 {
        Some(StatusCode::ObjectIsBlob)
    } else if v == 16 {
        Some(StatusCode::ObjectTypeError)
    } else if v == 17 {
        Some(StatusCode::ObjectSpilled)
    } else if v == 18 {
        Some(StatusCode::ObjectNotSpilled)
    } else if v == 21 {
        Some(StatusCode::MetaTreeInvalid)
    } else if v == 22 {
        Some(StatusCode::MetaTreeTypeInvalid)
    } else if v == 23 {
        Some(StatusCode::MetaTreeTypeNotExists)
    } else if v == 24 {
        Some(StatusCode::MetaTreeNameInvalid)
    } else if v == 25 {
        Some(StatusCode::MetaTreeNameNotExists)
    } else if v == 26 {
        Some(StatusCode::MetaTreeLinkInvalid)
    } else if v == 27 {
        Some(StatusCode::MetaTreeSubtreeNotExists)
    } else if v == 31 {
        Some(StatusCode::VineyardServerNotReady)
    } else if v == 32 {
        Some(StatusCode::ArrowError)
    } else if v == 33 {
        Some(StatusCode::ConnectionFailed)
    } else if v == 34 {
        Some(StatusCode::ConnectionError)
    } else if v == 35 {
        Some(StatusCode::EtcdError)
    } else if v == 36 {
        Some(StatusCode::AlreadyStopped)
    } else if v == 37 {
        Some(StatusCode::RedisError)
    } else if v == 41 {
        Some(StatusCode::NotEnoughMemory)
    } else if v == 42 {
        Some(StatusCode::StreamDrained)
    } else if v == 43 {
        Some(StatusCode::StreamFailed)
    } else if v == 44 {
        Some(StatusCode::InvalidStreamState)
    } else if v == 45 {
        Some(StatusCode::StreamOpened)
    } else if v == 51 {
        Some(StatusCode::GlobalObjectInvalid)
    } else if v == 255 {
        Some(StatusCode::UnknownError)
    } else {
        None
    }
}

impl StatusCode {
    /// The stable numeric tag of this kind.
    pub fn to_value(&self) -> (v: u64)
        ensures
            v == spec_code_value(*self),
    {
        match self {
            StatusCode::OK => 0,
            StatusCode::Invalid => 1,
            StatusCode::KeyError => 2,
            StatusCode::TypeError => 3,
            StatusCode::IOError => 4,
            StatusCode::EndOfFile => 5,
            StatusCode::NotImplemented => 6,
            StatusCode::AssertionFailed => 7,
            StatusCode::UserInputError => 8,
            StatusCode::ObjectExists => 11,
            StatusCode::ObjectNotExists => 12,
            StatusCode::ObjectSealed => 13,
            StatusCode::ObjectNotSealed => 14,
            StatusCode::ObjectIsBlob => 15,
            StatusCode::ObjectTypeError => 16,
            StatusCode::ObjectSpilled => 17,
            StatusCode::ObjectNotSpilled => 18,
            StatusCode::MetaTreeInvalid => 21,
            StatusCode::MetaTreeTypeInvalid => 22,
            StatusCode::MetaTreeTypeNotExists => 23,
            StatusCode::MetaTreeNameInvalid => 24,
            StatusCode::MetaTreeNameNotExists => 25,
            StatusCode::MetaTreeLinkInvalid => 26,
            StatusCode::MetaTreeSubtreeNotExists => 27,
            StatusCode::VineyardServerNotReady => 31,
            StatusCode::ArrowError => 32,
            StatusCode::ConnectionFailed => 33,
            StatusCode::ConnectionError => 34,
            StatusCode::EtcdError => 35,
            StatusCode::AlreadyStopped => 36,
            StatusCode::RedisError => 37,
            StatusCode::NotEnoughMemory => 41,
            StatusCode::StreamDrained => 42,
            StatusCode::StreamFailed => 43,
            StatusCode::InvalidStreamState => 44,
            StatusCode::StreamOpened => 45,
            StatusCode::GlobalObjectInvalid => 51,
            StatusCode::UnknownError => 255,
        }
    }

    /// The kind carrying a numeric tag, or `None` when no kind does.
    pub fn from_value(v: u64) -> (r: Option<StatusCode>)
        ensures
            r == spec_code_of_value(v),
    {
        match v {
            0 => Some(StatusCode::OK),
            1 => Some(StatusCode::Invalid),
            2 => Some(StatusCode::KeyError),
            3 => Some(StatusCode::TypeError),
            4 => Some(StatusCode::IOError),
            5 => Some(StatusCode::EndOfFile),
            6 => Some(StatusCode::NotImplemented),
            7 => Some(StatusCode::AssertionFailed),
            8 => Some(StatusCode::UserInputError),
            11 => Some(StatusCode::ObjectExists),
            12 => Some(StatusCode::ObjectNotExists),
            13 => Some(StatusCode::ObjectSealed),
            14 => Some(StatusCode::ObjectNotSealed),
            15 => Some(StatusCode::ObjectIsBlob),
            16 => Some(StatusCode::ObjectTypeError),
            17 => Some(StatusCode::ObjectSpilled),
            18 => Some(StatusCode::ObjectNotSpilled),
            21 => Some(StatusCode::MetaTreeInvalid),
            22 => Some(StatusCode::MetaTreeTypeInvalid),
            23 => Some(StatusCode::MetaTreeTypeNotExists),
            24 => Some(StatusCode::MetaTreeNameInvalid),
            25 => Some(StatusCode::MetaTreeNameNotExists),
            26 => Some(StatusCode::MetaTreeLinkInvalid),
            27 => Some(StatusCode::MetaTreeSubtreeNotExists),
            31 => Some(StatusCode::VineyardServerNotReady),
            32 => Some(StatusCode::ArrowError),
            33 => Some(StatusCode::ConnectionFailed),
            34 => Some(StatusCode::ConnectionError),
            35 => Some(StatusCode::EtcdError),
            36 => Some(StatusCode::AlreadyStopped),
            37 => Some(StatusCode::RedisError),
            41 => Some(StatusCode::NotEnoughMemory),
            42 => Some(StatusCode::StreamDrained),
            43 => Some(StatusCode::StreamFailed),
            44 => Some(StatusCode::InvalidStreamState),
            45 => Some(StatusCode::StreamOpened),
            51 => Some(StatusCode::GlobalObjectInvalid),
            255 => Some(StatusCode::UnknownError),
            _ => None,
        }
    }
}

/// The numeric tags identify the kinds: rendering a kind as its tag and
/// reading the tag back yields the same kind.
pub proof fn lemma_code_value_round_trip(c: StatusCode)
    ensures
        spec_code_of_value(spec_code_value(c)) == Some(c),
{
}

/// The pair of a status kind and a human-readable message.  Immutable
/// after construction; `wrap` builds a new value rather than mutating.
#[derive(Debug, Clone)]
pub struct VineyardError {
    pub code: StatusCode,
    pub message: String,
}

/// Exactly the four "metadata tree is invalid" kinds, and no other,
/// satisfy the grouping predicate [`VineyardError::is_meta_tree_invalid`].
pub open spec fn spec_is_meta_tree_invalid(c: StatusCode) -> bool {
    ||| c == StatusCode::MetaTreeInvalid
    ||| c == StatusCode::MetaTreeNameInvalid
    ||| c == StatusCode::MetaTreeTypeInvalid
    ||| c == StatusCode::MetaTreeLinkInvalid
}

/// Exactly the three "metadata tree element is missing" kinds satisfy the
/// grouping predicate [`VineyardError::is_meta_tree_element_not_exists`].
pub open spec fn spec_is_meta_tree_element_not_exists(c: StatusCode) -> bool {
    ||| c == StatusCode::MetaTreeNameNotExists
    ||| c == StatusCode::MetaTreeTypeNotExists
    ||| c == StatusCode::MetaTreeSubtreeNotExists
}

impl VineyardError {
    /// Pairs a kind with a message.
    pub fn new(code: StatusCode, message: &str) -> (e: VineyardError)
        ensures
            e.code == code,
            e.message@ == message@,
    {
        VineyardError { code, message: String::from_str(message) }
    }

    /// Adds context to a failure.  On a success value this is a no-op:
    /// wrapping must not fabricate a failure out of a success.  On a
    /// failure the kind is preserved and the extra message is appended
    /// after a `": "` separator.
    pub fn wrap(&self, message: &str) -> (e: VineyardError)
        ensures
            self.code == StatusCode::OK ==> e == *self,
            self.code != StatusCode::OK ==> e.code == self.code && e.message@ == self.message@
                + ": "@ + message@,
    {
        if self.code == StatusCode::OK {
            return VineyardError { code: self.code, message: self.message.clone() };
        }
        VineyardError {
            code: self.code,
            message: self.message.clone().concat(": ").concat(message),
        }
    }

    pub fn invalid(message: &str) -> (e: VineyardError)
        ensures
            e.code == StatusCode::Invalid,
            e.message@ == message@,
    {
        VineyardError { code: StatusCode::Invalid, message: String::from_str(message) }
    }

    pub fn key_error(message: &str) -> (e: VineyardError)
        ensures
            e.code == StatusCode::KeyError,
            e.message@ == message@,
    {
        VineyardError { code: StatusCode::KeyError, message: String::from_str(message) }
    }

    pub fn type_error(message: &str) -> (e: VineyardError)
        ensures
            e.code == StatusCode::TypeError,
            e.message@ == message@,
    {
        VineyardError { code: StatusCode::TypeError, message: String::from_str(message) }
    }

    pub fn io_error(message: &str) -> (e: VineyardError)
        ensures
            e.code == StatusCode::IOError,
            e.message@ == message@,
    {
        VineyardError { code: StatusCode::IOError, message: String::from_str(message) }
    }

    pub fn end_of_file(message: &str) -> (e: VineyardError)
        ensures
            e.code == StatusCode::EndOfFile,
            e.message@ == message@,
    {
        VineyardError { code: StatusCode::EndOfFile, message: String::from_str(message) }
    }

    pub fn not_implemented(message: &str) -> (e: VineyardError)
        ensures
            e.code == StatusCode::NotImplemented,
            e.message@ == message@,
    {
        VineyardError { code: StatusCode::NotImplemented, message: String::from_str(message) }
    }

    pub fn assertion_failed(message: &str) -> (e: VineyardError)
        ensures
            e.code == StatusCode::AssertionFailed,
            e.message@ == message@,
    {
        VineyardError { code: StatusCode::AssertionFailed, message: String::from_str(message) }
    }

    pub fn user_input_error(message: &str) -> (e: VineyardError)
        ensures
            e.code == StatusCode::UserInputError,
            e.message@ == message@,
    {
        VineyardError { code: StatusCode::UserInputError, message: String::from_str(message) }
    }

    pub fn object_exists(message: &str) -> (e: VineyardError)
        ensures
            e.code == StatusCode::ObjectExists,
            e.message@ == message@,
    {
        VineyardError { code: StatusCode::ObjectExists, message: String::from_str(message) }
    }

    pub fn object_not_exists(message: &str) -> (e: VineyardError)
        ensures
            e.code == StatusCode::ObjectNotExists,
            e.message@ == message@,
    {
        VineyardError { code: StatusCode::ObjectNotExists, message: String::from_str(message) }
    }

    pub fn object_sealed(message: &str) -> (e: VineyardError)
        ensures
            e.code == StatusCode::ObjectSealed,
            e.message@ == message@,
    {
        VineyardError { code: StatusCode::ObjectSealed, message: String::from_str(message) }
    }

    pub fn object_not_sealed(message: &str) -> (e: VineyardError)
        ensures
            e.code == StatusCode::ObjectNotSealed,
            e.message@ == message@,
    {
        VineyardError { code: StatusCode::ObjectNotSealed, message: String::from_str(message) }
    }

    pub fn object_is_blob(message: &str) -> (e: VineyardError)
        ensures
            e.code == StatusCode::ObjectIsBlob,
            e.message@ == message@,
    {
        VineyardError { code: StatusCode::ObjectIsBlob, message: String::from_str(message) }
    }

    /// The typename-mismatch failure, with its fixed message template.
    pub fn object_type_error(expected: &str, actual: &str) -> (e: VineyardError)
        ensures
            e.code == StatusCode::ObjectTypeError,
            e.message@ == "expect typename '"@ + expected@ + "', but got '"@ + actual@ + "'"@,
    {
        VineyardError {
            code: StatusCode::ObjectTypeError,
            message: String::from_str("expect typename '").concat(expected).concat(
                "', but got '",
            ).concat(actual).concat("'"),
        }
    }

    /// Reports that an object's payload was evicted to secondary storage;
    /// the message names the object.
    pub fn object_spilled(object_id: ObjectID) -> (e: VineyardError)
        ensures
            e.code == StatusCode::ObjectSpilled,
            e.message@ == "object '"@ + dec_str(object_id as nat)
                + "' has already been spilled"@,
    {
        VineyardError {
            code: StatusCode::ObjectSpilled,
            message: String::from_str("object '").concat(u64_to_string(object_id).as_str()).concat(
                "' has already been spilled",
            ),
        }
    }

    /// Reports that spill-related data was requested of a never-spilled
    /// object; the message names the object.
    pub fn object_not_spilled(object_id: ObjectID) -> (e: VineyardError)
        ensures
            e.code == StatusCode::ObjectNotSpilled,
            e.message@ == "object '"@ + dec_str(object_id as nat)
                + "' hasn't been spilled yet"@,
    {
        VineyardError {
            code: StatusCode::ObjectNotSpilled,
            message: String::from_str("object '").concat(u64_to_string(object_id).as_str()).concat(
                "' hasn't been spilled yet",
            ),
        }
    }

    pub fn meta_tree_invalid(message: &str) -> (e: VineyardError)
        ensures
            e.code == StatusCode::MetaTreeInvalid,
            e.message@ == message@,
    {
        VineyardError { code: StatusCode::MetaTreeInvalid, message: String::from_str(message) }
    }

    pub fn meta_tree_type_invalid(message: &str) -> (e: VineyardError)
        ensures
            e.code == StatusCode::MetaTreeTypeInvalid,
            e.message@ == message@,
    {
        VineyardError { code: StatusCode::MetaTreeTypeInvalid, message: String::from_str(message) }
    }

    pub fn meta_tree_type_not_exists(message: &str) -> (e: VineyardError)
        ensures
            e.code == StatusCode::MetaTreeTypeNotExists,
            e.message@ == message@,
    {
        VineyardError {
            code: StatusCode::MetaTreeTypeNotExists,
            message: String::from_str(message),
        }
    }

    pub fn meta_tree_name_invalid(message: &str) -> (e: VineyardError)
        ensures
            e.code == StatusCode::MetaTreeNameInvalid,
            e.message@ == message@,
    {
        VineyardError { code: StatusCode::MetaTreeNameInvalid, message: String::from_str(message) }
    }

    pub fn meta_tree_name_not_exists(message: &str) -> (e: VineyardError)
        ensures
            e.code == StatusCode::MetaTreeNameNotExists,
            e.message@ == message@,
    {
        VineyardError {
            code: StatusCode::MetaTreeNameNotExists,
            message: String::from_str(message),
        }
    }

    pub fn meta_tree_link_invalid(message: &str) -> (e: VineyardError)
        ensures
            e.code == StatusCode::MetaTreeLinkInvalid,
            e.message@ == message@,
    {
        VineyardError { code: StatusCode::MetaTreeLinkInvalid, message: String::from_str(message) }
    }

    pub fn meta_tree_subtree_not_exists(message: &str) -> (e: VineyardError)
        ensures
            e.code == StatusCode::MetaTreeSubtreeNotExists,
            e.message@ == message@,
    {
        VineyardError {
            code: StatusCode::MetaTreeSubtreeNotExists,
            message: String::from_str(message),
        }
    }

    pub fn vineyard_server_not_ready(message: &str) -> (e: VineyardError)
        ensures
            e.code == StatusCode::VineyardServerNotReady,
            e.message@ == message@,
    {
        VineyardError {
            code: StatusCode::VineyardServerNotReady,
            message: String::from_str(message),
        }
    }

    pub fn arrow_error(message: &str) -> (e: VineyardError)
        ensures
            e.code == StatusCode::ArrowError,
            e.message@ == message@,
    {
        VineyardError { code: StatusCode::ArrowError, message: String::from_str(message) }
    }

    pub fn connection_failed(message: &str) -> (e: VineyardError)
        ensures
            e.code == StatusCode::ConnectionFailed,
            e.message@ == message@,
    {
        VineyardError { code: StatusCode::ConnectionFailed, message: String::from_str(message) }
    }

    pub fn etcd_error(message: &str) -> (e: VineyardError)
        ensures
            e.code == StatusCode::EtcdError,
            e.message@ == message@,
    {
        VineyardError { code: StatusCode::EtcdError, message: String::from_str(message) }
    }

    pub fn redis_error(message: &str) -> (e: VineyardError)
        ensures
            e.code == StatusCode::RedisError,
            e.message@ == message@,
    {
        VineyardError { code: StatusCode::RedisError, message: String::from_str(message) }
    }

    pub fn already_stopped(message: &str) -> (e: VineyardError)
        ensures
            e.code == StatusCode::AlreadyStopped,
            e.message@ == message@,
    {
        VineyardError { code: StatusCode::AlreadyStopped, message: String::from_str(message) }
    }

    pub fn not_enough_memory(message: &str) -> (e: VineyardError)
        ensures
            e.code == StatusCode::NotEnoughMemory,
            e.message@ == message@,
    {
        VineyardError { code: StatusCode::NotEnoughMemory, message: String::from_str(message) }
    }

    pub fn stream_drained(message: &str) -> (e: VineyardError)
        ensures
            e.code == StatusCode::StreamDrained,
            e.message@ == message@,
    {
        VineyardError { code: StatusCode::StreamDrained, message: String::from_str(message) }
    }

    pub fn stream_failed(message: &str) -> (e: VineyardError)
        ensures
            e.code == StatusCode::StreamFailed,
            e.message@ == message@,
    {
        VineyardError { code: StatusCode::StreamFailed, message: String::from_str(message) }
    }

    pub fn invalid_stream_state(message: &str) -> (e: VineyardError)
        ensures
            e.code == StatusCode::InvalidStreamState,
            e.message@ == message@,
    {
        VineyardError { code: StatusCode::InvalidStreamState, message: String::from_str(message) }
    }

    pub fn stream_opened(message: &str) -> (e: VineyardError)
        ensures
            e.code == StatusCode::StreamOpened,
            e.message@ == message@,
    {
        VineyardError { code: StatusCode::StreamOpened, message: String::from_str(message) }
    }

    pub fn global_object_invalid(message: &str) -> (e: VineyardError)
        ensures
            e.code == StatusCode::GlobalObjectInvalid,
            e.message@ == message@,
    {
        VineyardError { code: StatusCode::GlobalObjectInvalid, message: String::from_str(message) }
    }

    pub fn unknown_error(message: &str) -> (e: VineyardError)
        ensures
            e.code == StatusCode::UnknownError,
            e.message@ == message@,
    {
        VineyardError { code: StatusCode::UnknownError, message: String::from_str(message) }
    }

    /// True exactly of the unique success kind.
    pub fn ok(&self) -> (r: bool)
        ensures
            r == (self.code == StatusCode::OK),
    {
        self.code == StatusCode::OK
    }

    pub fn is_invalid(&self) -> (r: bool)
        ensures
            r == (self.code == StatusCode::Invalid),
    {
        self.code == StatusCode::Invalid
    }

    pub fn is_key_error(&self) -> (r: bool)
        ensures
            r == (self.code == StatusCode::KeyError),
    {
        self.code == StatusCode::KeyError
    }

    pub fn is_type_error(&self) -> (r: bool)
        ensures
            r == (self.code == StatusCode::TypeError),
    {
        self.code == StatusCode::TypeError
    }

    pub fn is_io_error(&self) -> (r: bool)
        ensures
            r == (self.code == StatusCode::IOError),
    {
        self.code == StatusCode::IOError
    }

    pub fn is_end_of_file(&self) -> (r: bool)
        ensures
            r == (self.code == StatusCode::EndOfFile),
    {
        self.code == StatusCode::EndOfFile
    }

    pub fn is_not_implemented(&self) -> (r: bool)
        ensures
            r == (self.code == StatusCode::NotImplemented),
    {
        self.code == StatusCode::NotImplemented
    }

    pub fn is_assertion_failed(&self) -> (r: bool)
        ensures
            r == (self.code == StatusCode::AssertionFailed),
    {
        self.code == StatusCode::AssertionFailed
    }

    pub fn is_user_input_error(&self) -> (r: bool)
        ensures
            r == (self.code == StatusCode::UserInputError),
    {
        self.code == StatusCode::UserInputError
    }

    pub fn is_object_exists(&self) -> (r: bool)
        ensures
            r == (self.code == StatusCode::ObjectExists),
    {
        self.code == StatusCode::ObjectExists
    }

    pub fn is_object_not_exists(&self) -> (r: bool)
        ensures
            r == (self.code == StatusCode::ObjectNotExists),
    {
        self.code == StatusCode::ObjectNotExists
    }

    pub fn is_object_sealed(&self) -> (r: bool)
        ensures
            r == (self.code == StatusCode::ObjectSealed),
    {
        self.code == StatusCode::ObjectSealed
    }

    pub fn is_object_not_sealed(&self) -> (r: bool)
        ensures
            r == (self.code == StatusCode::ObjectNotSealed),
    {
        self.code == StatusCode::ObjectNotSealed
    }

    pub fn is_object_is_blob(&self) -> (r: bool)
        ensures
            r == (self.code == StatusCode::ObjectIsBlob),
    {
        self.code == StatusCode::ObjectIsBlob
    }

    pub fn is_object_type_error(&self) -> (r: bool)
        ensures
            r == (self.code == StatusCode::ObjectTypeError),
    {
        self.code == StatusCode::ObjectTypeError
    }

    pub fn is_object_spilled(&self) -> (r: bool)
        ensures
            r == (self.code == StatusCode::ObjectSpilled),
    {
        self.code == StatusCode::ObjectSpilled
    }

    pub fn is_object_not_spilled(&self) -> (r: bool)
        ensures
            r == (self.code == StatusCode::ObjectNotSpilled),
    {
        self.code == StatusCode::ObjectNotSpilled
    }

    /// The grouping predicate for "the metadata tree is invalid": true for
    /// exactly the four `MetaTree*Invalid` kinds, and false for every
    /// other kind, including the `*NotExists` siblings.
    pub fn is_meta_tree_invalid(&self) -> (r: bool)
        ensures
            r == spec_is_meta_tree_invalid(self.code),
    {
        self.code == StatusCode::MetaTreeInvalid || self.code == StatusCode::MetaTreeNameInvalid
            || self.code == StatusCode::MetaTreeTypeInvalid || self.code
            == StatusCode::MetaTreeLinkInvalid
    }

    /// The grouping predicate for "a metadata tree element is missing":
    /// true for exactly the three `MetaTree*NotExists` kinds.
    pub fn is_meta_tree_element_not_exists(&self) -> (r: bool)
        ensures
            r == spec_is_meta_tree_element_not_exists(self.code),
    {
        self.code == StatusCode::MetaTreeNameNotExists || self.code
            == StatusCode::MetaTreeTypeNotExists || self.code
            == StatusCode::MetaTreeSubtreeNotExists
    }

    pub fn is_vineyard_server_not_ready(&self) -> (r: bool)
        ensures
            r == (self.code == StatusCode::VineyardServerNotReady),
    {
        self.code == StatusCode::VineyardServerNotReady
    }

    pub fn is_arrow_error(&self) -> (r: bool)
        ensures
            r == (self.code == StatusCode::ArrowError),
    {
        self.code == StatusCode::ArrowError
    }

    pub fn is_connection_failed(&self) -> (r: bool)
        ensures
            r == (self.code == StatusCode::ConnectionFailed),
    {
        self.code == StatusCode::ConnectionFailed
    }

    pub fn is_connection_error(&self) -> (r: bool)
        ensures
            r == (self.code == StatusCode::ConnectionError),
    {
        self.code == StatusCode::ConnectionError
    }

    pub fn is_etcd_error(&self) -> (r: bool)
        ensures
            r == (self.code == StatusCode::EtcdError),
    {
        self.code == StatusCode::EtcdError
    }

    pub fn is_already_stopped(&self) -> (r: bool)
        ensures
            r == (self.code == StatusCode::AlreadyStopped),
    {
        self.code == StatusCode::AlreadyStopped
    }

    pub fn is_not_enough_memory(&self) -> (r: bool)
        ensures
            r == (self.code == StatusCode::NotEnoughMemory),
    {
        self.code == StatusCode::NotEnoughMemory
    }

    pub fn is_stream_drained(&self) -> (r: bool)
        ensures
            r == (self.code == StatusCode::StreamDrained),
    {
        self.code == StatusCode::StreamDrained
    }

    pub fn is_stream_failed(&self) -> (r: bool)
        ensures
            r == (self.code == StatusCode::StreamFailed),
    {
        self.code == StatusCode::StreamFailed
    }

    pub fn is_invalid_stream_state(&self) -> (r: bool)
        ensures
            r == (self.code == StatusCode::InvalidStreamState),
    {
        self.code == StatusCode::InvalidStreamState
    }

    pub fn is_stream_opened(&self) -> (r: bool)
        ensures
            r == (self.code == StatusCode::StreamOpened),
    {
        self.code == StatusCode::StreamOpened
    }

    pub fn is_global_object_invalid(&self) -> (r: bool)
        ensures
            r == (self.code == StatusCode::GlobalObjectInvalid),
    {
        self.code == StatusCode::GlobalObjectInvalid
    }

    pub fn is_unknown_error(&self) -> (r: bool)
        ensures
            r == (self.code == StatusCode::UnknownError),
    {
        self.code == StatusCode::UnknownError
    }

    pub fn code(&self) -> (r: &StatusCode)
        ensures
            *r == self.code,
    {
        &self.code
    }

    pub fn message(&self) -> (r: &String)
        ensures
            r@ == self.message@,
    {
        &self.message
    }
}

/// Pairing a kind with a message and then asking `ok` answers exactly
/// "was the kind `OK`": an error built from any failure kind reports
/// failure, and one built from `OK` reports success.
pub proof fn lemma_new_ok_exactly_on_ok_kind(
    k: StatusCode,
    m: &str,
    e: VineyardError,
    r: bool,
)
    requires
        call_ensures(VineyardError::new, (k, m), e),
        call_ensures(VineyardError::ok, (&e,), r),
    ensures
        r <==> k == StatusCode::OK,
{
}

/// The two metadata-tree grouping predicates never overlap.
pub proof fn lemma_meta_tree_groups_disjoint(c: StatusCode)
    ensures
        !(spec_is_meta_tree_invalid(c) && spec_is_meta_tree_element_not_exists(c)),
{
}

/// Intended for invariants the caller has decided are unrecoverable:
/// accepts only a success value.  On the main request path use
/// [`vineyard_assert`] instead, which reports a recoverable error.
pub fn vineyard_check_ok<T>(status: Result<T, VineyardError>)
    requires
        status is Ok,
{
}

/// Turns a violated condition into a recoverable `AssertionFailed`
/// error with a fixed message prefix.
pub fn vineyard_assert(condition: bool, message: &str) -> (r: Result<(), VineyardError>)
    ensures
        condition ==> r is Ok,
        !condition ==> r is Err && r->Err_0.code == StatusCode::AssertionFailed
            && r->Err_0.message@ == "assertion failed: "@ + message@,
{
    if !condition {
        return Err(
            VineyardError {
                code: StatusCode::AssertionFailed,
                message: String::from_str("assertion failed: ").concat(message),
            },
        );
    }
    Ok(())
}

/// The single gate that makes the erased-to-typed transition safe:
/// succeeds exactly when the two typenames are equal, and otherwise
/// reports `ObjectTypeError` with the fixed mismatch template.
pub fn vineyard_assert_typename(expect: &str, actual: &str) -> (r: Result<(), VineyardError>)
    ensures
        expect@ == actual@ ==> r is Ok,
        expect@ != actual@ ==> r is Err && r->Err_0.code == StatusCode::ObjectTypeError
            && r->Err_0.message@ == "expect typename '"@ + expect@ + "', but got '"@ + actual@
            + "'"@,
{
    let e = String::from_str(expect);
    let a = String::from_str(actual);
    if !e.eq(&a) {
        return Err(VineyardError::object_type_error(expect, actual));
    }
    Ok(())
}

} // verus!
