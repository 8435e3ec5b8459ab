//! The closed result-code vocabulary of the foreign protocol and its
//! lossless integer encoding.
//!
//! Every marshaled call returns `Result<ResultOk, ResultErr>` on the safe
//! side and a plain `i32` on the foreign side.  The integer values below are
//! the protocol's encoding on non-COM platforms, where the ok and the true
//! outcome share one code and the error codes are pairwise distinct.

use vstd::prelude::*;

verus! {

pub const NO_INTERFACE_CODE: i32 = -1;

pub const RESULT_OK_CODE: i32 = 0;

pub const RESULT_TRUE_CODE: i32 = 0;

pub const RESULT_FALSE_CODE: i32 = 1;

pub const INVALID_ARGUMENT_CODE: i32 = 2;

pub const NOT_IMPLEMENTED_CODE: i32 = 3;

pub const INTERNAL_ERROR_CODE: i32 = 4;

pub const NOT_INITIALIZED_CODE: i32 = 5;

pub const OUT_OF_MEMORY_CODE: i32 = 6;

/// A successful outcome of a marshaled call.
#[derive(Clone, Copy, Debug, PartialEq, Eq, Structural)]
pub enum ResultOk {
    ResOk,
    ResTrue,
}

/// A failed outcome of a marshaled call.
#[derive(Clone, Copy, Debug, PartialEq, Eq, Structural)]
pub enum ResultErr {
    NoInterface,
    ResultFalse,
    InvalidArgument,
    NotImplemented,
    InternalError,
    NotInitialized,
    OutOfMemory,
}

impl ResultOk {
    pub open spec fn code_spec(self) -> i32 {
        match self {
            ResultOk::ResOk => RESULT_OK_CODE,
            ResultOk::ResTrue => RESULT_TRUE_CODE,
        }
    }

    /// The foreign integer code of this outcome.
    pub fn to_code(self) -> (c: i32)
        ensures
            c == self.code_spec(),
    {
        match self {
            ResultOk::ResOk => RESULT_OK_CODE,
            ResultOk::ResTrue => RESULT_TRUE_CODE,
        }
    }

    /// On this encoding the ok and the true outcome share code 0, and the
    /// host is untrusted input: any other incoming code is coerced to the
    /// safe default `ResOk` rather than rejected.
    pub open spec fn from_code_spec(c: i32) -> ResultOk {
        ResultOk::ResOk
    }

    /// The outcome a foreign integer code stands for; an unrecognized code
    /// coerces to the safe default rather than panicking.
    pub fn from_code(c: i32) -> (r: ResultOk)
        ensures
            r == ResultOk::from_code_spec(c),
    {
        ResultOk::ResOk
    }
}

impl ResultErr {
    pub open spec fn code_spec(self) -> i32 {
        match self {
            ResultErr::NoInterface => NO_INTERFACE_CODE,
            ResultErr::ResultFalse => RESULT_FALSE_CODE,
            ResultErr::InvalidArgument => INVALID_ARGUMENT_CODE,
            ResultErr::NotImplemented => NOT_IMPLEMENTED_CODE,
            ResultErr::InternalError => INTERNAL_ERROR_CODE,
            ResultErr::NotInitialized => NOT_INITIALIZED_CODE,
            ResultErr::OutOfMemory => OUT_OF_MEMORY_CODE,
        }
    }

    /// The foreign integer code of this error.
    pub fn to_code(self) -> (c: i32)
        ensures
            c == self.code_spec(),
    {
        match self {
            ResultErr::NoInterface => NO_INTERFACE_CODE,
            ResultErr::ResultFalse => RESULT_FALSE_CODE,
            ResultErr::InvalidArgument => INVALID_ARGUMENT_CODE,
            ResultErr::NotImplemented => NOT_IMPLEMENTED_CODE,
            ResultErr::InternalError => INTERNAL_ERROR_CODE,
            ResultErr::NotInitialized => NOT_INITIALIZED_CODE,
            ResultErr::OutOfMemory => OUT_OF_MEMORY_CODE,
        }
    }

    pub open spec fn from_code_spec(c: i32) -> ResultErr {
        if c == NO_INTERFACE_CODE {
            ResultErr::NoInterface
        } else if c == RESULT_FALSE_CODE {
            ResultErr::ResultFalse
        } else if c == INVALID_ARGUMENT_CODE {
            ResultErr::InvalidArgument
        } else if c == NOT_IMPLEMENTED_CODE {
            ResultErr::NotImplemented
        } else if c == INTERNAL_ERROR_CODE {
            ResultErr::InternalError
        } else if c == NOT_INITIALIZED_CODE {
            ResultErr::NotInitialized
        } else if c == OUT_OF_MEMORY_CODE {
            ResultErr::OutOfMemory
        } else {
            ResultErr::ResultFalse
        }
    }

    /// The error a foreign integer code stands for; an unrecognized code
    /// coerces to the safe default `ResultFalse` rather than panicking,
    /// since the host is untrusted input.
    pub fn from_code(c: i32) -> (r: ResultErr)
        ensures
            r == ResultErr::from_code_spec(c),
    {
        if c == NO_INTERFACE_CODE {
            ResultErr::NoInterface
        } else if c == RESULT_FALSE_CODE {
            ResultErr::ResultFalse
        } else if c == INVALID_ARGUMENT_CODE {
            ResultErr::InvalidArgument
        } else if c == NOT_IMPLEMENTED_CODE {
            ResultErr::NotImplemented
        } else if c == INTERNAL_ERROR_CODE {
            ResultErr::InternalError
        } else if c == NOT_INITIALIZED_CODE {
            ResultErr::NotInitialized
        } else if c == OUT_OF_MEMORY_CODE {
            ResultErr::OutOfMemory
        } else {
            ResultErr::ResultFalse
        }
    }
}

/// The foreign integer code of a marshaled call's outcome.
pub open spec fn result_code_spec(r: Result<ResultOk, ResultErr>) -> i32 {
    match r {
        Ok(k) => k.code_spec(),
        Err(e) => e.code_spec(),
    }
}

/// Translates a marshaled call's outcome into the single integer the
/// foreign caller receives.
pub fn result_to_code(r: Result<ResultOk, ResultErr>) -> (c: i32)
    ensures
        c == result_code_spec(r),
{
    match r {
        Ok(k) => k.to_code(),
        Err(e) => e.to_code(),
    }
}

/// Law: every error converts to its foreign code and back to itself.
pub proof fn lemma_result_err_round_trip(e: ResultErr)
    ensures
        ResultErr::from_code_spec(e.code_spec()) == e,
{
}

/// Law: the ok outcome converts to its foreign code and back to itself.
/// The true outcome shares the ok outcome's code on this encoding, so it
/// reads back as `ResOk` and is left out here.
pub proof fn lemma_result_ok_round_trip()
    ensures
        ResultOk::from_code_spec(ResultOk::ResOk.code_spec()) == ResultOk::ResOk,
{
}

/// Law: no success code is an error code.
pub proof fn lemma_ok_err_codes_disjoint(k: ResultOk, e: ResultErr)
    ensures
        k.code_spec() != e.code_spec(),
{
}

} // verus!
