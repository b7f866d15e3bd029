//! Integer codes that carry the allocator's answers across the C boundary.
use vstd::prelude::*;

verus! {

/// The four kinds of failure that the frame allocator reports.
#[derive(Clone, Copy, Debug, PartialEq, Eq, Structural)]
pub enum AllocError {
    /// No block of the requested size is free.
    Memory,
    /// Transient contention: the caller may try again.
    Retry,
    /// An address or frame outside the managed range, or misaligned.
    Address,
    /// The allocator handle is missing or not yet constructed.
    Initialization,
}

/// The code of each error: small negative integers.
pub open spec fn error_code(e: AllocError) -> int {
    match e {
        AllocError::Memory => -1,
        AllocError::Retry => -2,
        AllocError::Address => -3,
        AllocError::Initialization => -4,
    }
}

/// The code of a result without a value: zero on success.
pub open spec fn unit_code(r: Result<(), AllocError>) -> int {
    match r {
        Ok(_) => 0,
        Err(e) => error_code(e),
    }
}

/// The code of a result that carries a value: the value itself on success.
pub open spec fn value_code(r: Result<usize, AllocError>) -> int {
    match r {
        Ok(v) => v as i64 as int,
        Err(e) => error_code(e),
    }
}

/// A status word handed to the host: a value or zero on success, a negative
/// error code otherwise.
#[allow(non_camel_case_types)]
#[derive(Clone, Copy, Debug, PartialEq, Eq, Structural)]
pub struct result_t {
    pub val: i64,
}

impl From<AllocError> for result_t {
    fn from(value: AllocError) -> (r: Self)
        ensures
            r.val == error_code(value),
    {
        match value {
            AllocError::Memory => result_t { val: -1 },
            AllocError::Retry => result_t { val: -2 },
            AllocError::Address => result_t { val: -3 },
            AllocError::Initialization => result_t { val: -4 },
        }
    }
}

impl vstd::std_specs::convert::FromSpecImpl<AllocError> for result_t {
    open spec fn obeys_from_spec() -> bool {
        true
    }

    open spec fn from_spec(v: AllocError) -> result_t {
        result_t { val: error_code(v) as i64 }
    }
}

impl From<Result<(), AllocError>> for result_t {
    fn from(value: Result<(), AllocError>) -> (r: Self)
        ensures
            r.val == unit_code(value),
    {
        match value {
            Ok(_) => result_t { val: 0 },
            Err(e) => result_t::from(e),
        }
    }
}

impl vstd::std_specs::convert::FromSpecImpl<Result<(), AllocError>> for result_t {
    open spec fn obeys_from_spec() -> bool {
        true
    }

    open spec fn from_spec(v: Result<(), AllocError>) -> result_t {
        result_t { val: unit_code(v) as i64 }
    }
}

impl From<Result<usize, AllocError>> for result_t {
    fn from(value: Result<usize, AllocError>) -> (r: Self)
        ensures
            r.val == value_code(value),
    {
        match value {
            Ok(v) => result_t { val: v as i64 },
            Err(e) => result_t::from(e),
        }
    }
}

impl vstd::std_specs::convert::FromSpecImpl<Result<usize, AllocError>> for result_t {
    open spec fn obeys_from_spec() -> bool {
        true
    }

    open spec fn from_spec(v: Result<usize, AllocError>) -> result_t {
        result_t { val: value_code(v) as i64 }
    }
}

} // verus!
