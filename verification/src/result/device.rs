//! Device management: what the runtime's answers to the device queries are worth.
//!
//! Each function takes the status that one query returned and the storage
//! that the query was lent, and hands the stored value on only when the
//! status says that the runtime filled it.

use crate::result::{cudaError_t, CudartError};
use vstd::prelude::*;

verus! {

/// The number by which the runtime knows a device.
pub type CudartDevice = i32;

/// The device that is current for the calling host thread, from the answer
/// to a query for it.
pub fn get(status: cudaError_t, device: CudartDevice) -> (out: Result<CudartDevice, CudartError>)
    ensures
        out == status.outcome(device),
{
    status.result()?;
    Ok(device)
}

/// The number of devices that the runtime can see, from the answer to a
/// query for it.
pub fn get_count(status: cudaError_t, count: i32) -> (out: Result<i32, CudartError>)
    ensures
        out == status.outcome(count),
{
    status.result()?;
    Ok(count)
}

/// The property record of a device, from the answer to a query for it. The
/// record is handed on whole, and only when the runtime reported that it had
/// filled it.
pub fn get_property<P>(status: cudaError_t, prop: P) -> (out: Result<P, CudartError>)
    ensures
        out == status.outcome(prop),
{
    status.result()?;
    Ok(prop)
}

/// The total amount of global memory on a device in bytes, from the answer
/// to a query for the device's property record, of which
/// `total_global_mem` is that one field.
pub fn total_mem(status: cudaError_t, total_global_mem: usize) -> (out: Result<usize, CudartError>)
    ensures
        out == status.outcome(total_global_mem),
{
    status.result()?;
    Ok(total_global_mem)
}

/// The value of one attribute of a device, from the answer to a query for it.
pub fn get_attribute(status: cudaError_t, value: i32) -> (out: Result<i32, CudartError>)
    ensures
        out == status.outcome(value),
{
    status.result()?;
    Ok(value)
}

/// The total memory of a device is the field that a reader takes from the
/// device's property record: from one answer of the runtime, `total_mem` on
/// the field gives what reading the field of the record from `get_property`
/// gives, and fails with the same error where that fails.
pub proof fn total_mem_is_field_of_property<P>(
    status: cudaError_t,
    prop: P,
    total_global_mem: spec_fn(P) -> usize,
)
    ensures
        status.outcome(total_global_mem(prop)) == match status.outcome(prop) {
            Ok(record) => Ok::<usize, CudartError>(total_global_mem(record)),
            Err(error) => Err::<usize, CudartError>(error),
        },
{
}

} // verus!
