//! The flat result type handed back by foreign calls whose outcome the
//! caller may want to inspect as one value rather than as a `Result`.

use vstd::prelude::*;

use crate::unknown::{
    INTERNAL_ERROR_CODE, INVALID_ARGUMENT_CODE, NOT_IMPLEMENTED_CODE, NOT_INITIALIZED_CODE,
    NO_INTERFACE_CODE, OUT_OF_MEMORY_CODE, RESULT_FALSE_CODE, RESULT_OK_CODE,
};

verus! {

/// Every outcome of the foreign result vocabulary, success and failure in
/// one enum.  On this encoding the ok and the true outcome share one code,
/// so an incoming code 0 always reads back as `ResultOk`.
#[derive(Clone, Copy, Debug, PartialEq, Eq, Structural)]
pub enum PluginResult {
    NoInterface,
    ResultOk,
    ResultTrue,
    ResultFalse,
    InvalidArgument,
    NotImplemented,
    InternalError,
    NotInitialized,
    OutOfMemory,
}

impl PluginResult {
    /// Marks an outcome as deliberately unchecked.
    pub fn unwrap(&self) {
    }

    pub open spec fn code_spec(self) -> i32 {
        match self {
            PluginResult::NoInterface => NO_INTERFACE_CODE,
            PluginResult::ResultOk => RESULT_OK_CODE,
            PluginResult::ResultTrue => RESULT_OK_CODE,
            PluginResult::ResultFalse => RESULT_FALSE_CODE,
            PluginResult::InvalidArgument => INVALID_ARGUMENT_CODE,
            PluginResult::NotImplemented => NOT_IMPLEMENTED_CODE,
            PluginResult::InternalError => INTERNAL_ERROR_CODE,
            PluginResult::NotInitialized => NOT_INITIALIZED_CODE,
            PluginResult::OutOfMemory => OUT_OF_MEMORY_CODE,
        }
    }

    /// The foreign integer code of this outcome.
    pub fn to_code(self) -> (c: i32)
        ensures
            c == self.code_spec(),
    {
        match self {
            PluginResult::NoInterface => NO_INTERFACE_CODE,
            PluginResult::ResultOk => RESULT_OK_CODE,
            PluginResult::ResultTrue => RESULT_OK_CODE,
            PluginResult::ResultFalse => RESULT_FALSE_CODE,
            PluginResult::InvalidArgument => INVALID_ARGUMENT_CODE,
            PluginResult::NotImplemented => NOT_IMPLEMENTED_CODE,
            PluginResult::InternalError => INTERNAL_ERROR_CODE,
            PluginResult::NotInitialized => NOT_INITIALIZED_CODE,
            PluginResult::OutOfMemory => OUT_OF_MEMORY_CODE,
        }
    }

    pub open spec fn from_code_spec(c: i32) -> PluginResult {
        if c == NO_INTERFACE_CODE {
            PluginResult::NoInterface
        } else if c == RESULT_OK_CODE {
            PluginResult::ResultOk
        } else if c == RESULT_FALSE_CODE {
            PluginResult::ResultFalse
        } else if c == INVALID_ARGUMENT_CODE {
            PluginResult::InvalidArgument
        } else if c == NOT_IMPLEMENTED_CODE {
            PluginResult::NotImplemented
        } else if c == INTERNAL_ERROR_CODE {
            PluginResult::InternalError
        } else if c == NOT_INITIALIZED_CODE {
            PluginResult::NotInitialized
        } else if c == OUT_OF_MEMORY_CODE {
            PluginResult::OutOfMemory
        } else {
            PluginResult::ResultFalse
        }
    }

    /// The outcome a foreign integer code stands for; an unrecognized code
    /// coerces to the safe default `ResultFalse` rather than panicking,
    /// since the host is untrusted input.
    pub fn from_code(c: i32) -> (r: PluginResult)
        ensures
            r == PluginResult::from_code_spec(c),
    {
        if c == NO_INTERFACE_CODE {
            PluginResult::NoInterface
        } else if c == RESULT_OK_CODE {
            PluginResult::ResultOk
        } else if c == RESULT_FALSE_CODE {
            PluginResult::ResultFalse
        } else if c == INVALID_ARGUMENT_CODE {
            PluginResult::InvalidArgument
        } else if c == NOT_IMPLEMENTED_CODE {
            PluginResult::NotImplemented
        } else if c == INTERNAL_ERROR_CODE {
            PluginResult::InternalError
        } else if c == NOT_INITIALIZED_CODE {
            PluginResult::NotInitialized
        } else if c == OUT_OF_MEMORY_CODE {
            PluginResult::OutOfMemory
        } else {
            PluginResult::ResultFalse
        }
    }
}

/// Law: every outcome but the true one converts to its foreign code and
/// back to itself; the true outcome shares the ok outcome's code and reads
/// back as `ResultOk`.
pub proof fn lemma_plugin_result_round_trip(r: PluginResult)
    requires
        r != PluginResult::ResultTrue,
    ensures
        PluginResult::from_code_spec(r.code_spec()) == r,
{
}

} // verus!
