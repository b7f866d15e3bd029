//! The host's entry points on an allocator handle. The host hands a handle
//! that may be null; each entry point here takes what the allocator answered
//! on a live handle, or `None` where the handle was null, and turns it into
//! the value that goes back across the boundary.
use vstd::prelude::*;
use vstd::string::StringSliceAdditionalSpecFns;
use crate::formatter::{advance, capacity, lemma_write_twice, written_mem, FormatterState, RawFormatter};
use crate::result::{error_code, unit_code, value_code, result_t, AllocError};

verus! {

/// The code for an operation that yields a value, such as an allocation:
/// `Initialization` without a handle.
pub open spec fn handle_value_code(outcome: Option<Result<usize, AllocError>>) -> int {
    match outcome {
        None => error_code(AllocError::Initialization),
        Some(r) => value_code(r),
    }
}

/// The code for an operation without a value, such as a release.
pub open spec fn handle_unit_code(outcome: Option<Result<(), AllocError>>) -> int {
    match outcome {
        None => error_code(AllocError::Initialization),
        Some(r) => unit_code(r),
    }
}

/// Allocation of 2^order frames on a core: the frame on success, else the
/// error's code; `Initialization` without a handle.
pub fn llfree_get(outcome: Option<Result<usize, AllocError>>) -> (r: result_t)
    ensures
        r.val == handle_value_code(outcome),
{
    match outcome {
        Some(res) => result_t::from(res),
        None => result_t::from(AllocError::Initialization),
    }
}

/// Release of 2^order frames: zero on success, else the error's code;
/// `Initialization` without a handle.
pub fn llfree_put(outcome: Option<Result<(), AllocError>>) -> (r: result_t)
    ensures
        r.val == handle_unit_code(outcome),
{
    match outcome {
        Some(res) => result_t::from(res),
        None => result_t::from(AllocError::Initialization),
    }
}

/// Flush of a core's local free blocks: zero on success, else the error's
/// code; `Initialization` without a handle.
pub fn llfree_drain(outcome: Option<Result<(), AllocError>>) -> (r: result_t)
    ensures
        r.val == handle_unit_code(outcome),
{
    match outcome {
        Some(res) => result_t::from(res),
        None => result_t::from(AllocError::Initialization),
    }
}

/// A count read from the allocator, zero without a handle.
fn count_or_zero(outcome: Option<usize>) -> (r: usize)
    ensures
        r == match outcome {
            Some(n) => n,
            None => 0,
        },
{
    match outcome {
        Some(n) => n,
        None => 0,
    }
}

/// The number of cores the allocator serves; zero without a handle.
pub fn llfree_cores(outcome: Option<usize>) -> (r: usize)
    ensures
        outcome is None ==> r == 0,
        outcome matches Some(n) ==> r == n,
{
    count_or_zero(outcome)
}

/// The number of frames the allocator manages; zero without a handle.
pub fn llfree_frames(outcome: Option<usize>) -> (r: usize)
    ensures
        outcome is None ==> r == 0,
        outcome matches Some(n) ==> r == n,
{
    count_or_zero(outcome)
}

/// The number of free frames; zero without a handle.
pub fn llfree_free_frames(outcome: Option<usize>) -> (r: usize)
    ensures
        outcome is None ==> r == 0,
        outcome matches Some(n) ==> r == n,
{
    count_or_zero(outcome)
}

/// The number of free huge frames; zero without a handle.
pub fn llfree_free_huge(outcome: Option<usize>) -> (r: usize)
    ensures
        outcome is None ==> r == 0,
        outcome matches Some(n) ==> r == n,
{
    count_or_zero(outcome)
}

/// The number of free frames in the 2^order block at a frame; zero without
/// a handle.
pub fn llfree_free_at(outcome: Option<usize>) -> (r: usize)
    ensures
        outcome is None ==> r == 0,
        outcome matches Some(n) ==> r == n,
{
    count_or_zero(outcome)
}

/// Whether the 2^order block at a frame is free; false without a handle.
pub fn llfree_is_free(outcome: Option<bool>) -> (r: bool)
    ensures
        outcome is None ==> !r,
        outcome matches Some(b) ==> r == b,
{
    match outcome {
        Some(b) => b,
        None => false,
    }
}

/// The bytes of a dump: the allocator's rendered state and a line break.
pub open spec fn dump_bytes(text: Seq<u8>) -> Seq<u8> {
    text + seq![10u8]
}

/// The formatter positions for a dump into `len` bytes at `addr`.
pub open spec fn dump_state(addr: usize, len: usize) -> FormatterState {
    FormatterState { beg: addr as nat, pos: addr as nat, end: advance(addr as nat, len as nat) }
}

/// Writes the allocator's rendered state `text` and a line break into the
/// `len` bytes at `addr`, which `buf` holds, and returns how many bytes that
/// took, also where they did not fit. Without a handle nothing is written
/// and the result is zero.
pub fn llfree_dump(text: Option<&str>, buf: &mut [u8], addr: usize, len: usize) -> (r: usize)
    requires
        old(buf)@.len() == capacity(dump_state(addr, len)),
    ensures
        text is None ==> r == 0 && final(buf)@ == old(buf)@,
        text matches Some(t) ==> {
            &&& r == advance(addr as nat, dump_bytes(t.spec_bytes()).len()) - addr
            &&& final(buf)@ == written_mem(dump_state(addr, len), old(buf)@, dump_bytes(t.spec_bytes()))
        },
{
    match text {
        None => 0,
        Some(t) => {
            let mut w = RawFormatter::from_ptrs(addr, addr.saturating_add(len));
            let ghost s0 = w@;
            let ghost m0 = buf@;
            w.write_str(buf, t);
            let nl: [u8; 1] = [10u8];
            w.write_bytes(buf, &nl);
            proof {
                lemma_write_twice(s0, m0, t.spec_bytes(), nl@);
                assert(nl@ =~= seq![10u8]);
            }
            w.bytes_written()
        },
    }
}

} // verus!
