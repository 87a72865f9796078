//! Occupancy: what the runtime's answers to the occupancy queries for a
//! kernel function are worth.
//!
//! The queries that suggest a whole launch configuration are not covered:
//! they take a function of the caller's, which the runtime calls back.

use crate::result::{cudaError_t, CudartError};
use vstd::prelude::*;

verus! {

/// The dynamic shared memory in bytes that is left to each block when a given
/// number of blocks of a given size run on one multiprocessor, from the
/// answer to a query for it.
pub fn available_dynamic_shared_mem_per_block(status: cudaError_t, dynamic_smem_size: usize) -> (out:
    Result<usize, CudartError>)
    ensures
        out == status.outcome(dynamic_smem_size),
{
    status.result()?;
    Ok(dynamic_smem_size)
}

/// The largest number of blocks of a kernel function that can be resident on
/// one multiprocessor at once, from the answer to a query for it.
pub fn max_active_block_per_multiprocessor(status: cudaError_t, num_blocks: i32) -> (out: Result<
    i32,
    CudartError,
>)
    ensures
        out == status.outcome(num_blocks),
{
    status.result()?;
    Ok(num_blocks)
}

/// As `max_active_block_per_multiprocessor`, from the answer to the query
/// that also takes flags for how the runtime is to count.
pub fn max_active_block_per_multiprocessor_with_flags(status: cudaError_t, num_blocks: i32) -> (out:
    Result<i32, CudartError>)
    ensures
        out == status.outcome(num_blocks),
{
    status.result()?;
    Ok(num_blocks)
}

} // verus!
