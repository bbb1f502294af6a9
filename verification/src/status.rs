//! The firmware status word and its success/error partition.
//!
//! Every entry of the dispatch table reports its outcome as a status code.
//! The codes are partitioned by the two top bits of the word: `10` marks an
//! error to be propagated as a typed failure; anything else (success, or a
//! warning) lets the call proceed.  The partition mirrors the fixed wire
//! convention of the firmware and is exercised against it by the test suite.

use vstd::prelude::*;

verus! {

/// The top two bits of a status code select its partition.
pub const STATUS_PARTITION_MASK: u64 = 0xC000_0000_0000_0000;

/// A code whose top two bits equal this value is an error.
pub const STATUS_ERROR_MASK: u64 = 0x8000_0000_0000_0000;

/// The success code.
pub const SUCCESS: u64 = 0;

/// Error: a parameter was invalid, for example a null buffer address.
pub const INVALID_PARAMETER: u64 = 0x8000_0000_0000_0002;

/// Error: the operation is not supported.
pub const UNSUPPORTED: u64 = 0x8000_0000_0000_0003;

/// Error: the supplied buffer is too small; the required size is reported
/// through the size parameter.
pub const BUFFER_TOO_SMALL: u64 = 0x8000_0000_0000_0005;

/// Error: the polled object is not in the signaled state.
pub const NOT_READY: u64 = 0x8000_0000_0000_0006;

/// Error: out of resources.
pub const OUT_OF_RESOURCES: u64 = 0x8000_0000_0000_0009;

/// Error: nothing matched the search.
pub const NOT_FOUND: u64 = 0x8000_0000_0000_000E;

/// A firmware status code, held as its raw 64-bit value.
#[derive(Clone, Copy, PartialEq, Eq, Structural, Debug)]
pub struct Status {
    pub code: u64,
}

/// Whether a raw status code lies in the error partition.
pub open spec fn is_error_code(code: u64) -> bool {
    code & STATUS_PARTITION_MASK == STATUS_ERROR_MASK
}

impl Status {
    /// Wrap a raw code.
    pub fn of(code: u64) -> (r: Status)
        ensures
            r.code == code,
    {
        Status { code }
    }

    /// True exactly when this code lies in the error partition.
    pub fn is_error(&self) -> (r: bool)
        ensures
            r == is_error_code(self.code),
    {
        self.code & STATUS_PARTITION_MASK == STATUS_ERROR_MASK
    }
}

/// Read a status-only outcome back: an error code is propagated, any other
/// code is success.
pub fn status_result(status: Status) -> (r: Result<(), Status>)
    ensures
        r == if is_error_code(status.code) {
            Result::<(), Status>::Err(status)
        } else {
            Result::<(), Status>::Ok(())
        },
{
    if status.is_error() {
        Err(status)
    } else {
        Ok(())
    }
}

/// Read back an outcome whose out-parameter is an opaque address — an
/// event, a handle, a registration, an interface: the address is handed
/// out exactly on success, the error code otherwise.
pub fn address_result(status: Status, addr: usize) -> (r: Result<usize, Status>)
    ensures
        r == if is_error_code(status.code) {
            Result::<usize, Status>::Err(status)
        } else {
            Result::<usize, Status>::Ok(addr)
        },
{
    if status.is_error() {
        Err(status)
    } else {
        Ok(addr)
    }
}

/// Read back an outcome that carries one value written by the firmware: the
/// value is handed out exactly on success, the error code otherwise.
pub fn value_result(status: Status, value: u64) -> (r: Result<u64, Status>)
    ensures
        r == if is_error_code(status.code) {
            Result::<u64, Status>::Err(status)
        } else {
            Result::<u64, Status>::Ok(value)
        },
{
    if status.is_error() {
        Err(status)
    } else {
        Ok(value)
    }
}

/// Where the named codes fall in the partition: success is no error, and
/// each named error code is one.
pub proof fn lemma_code_partition()
    ensures
        !is_error_code(SUCCESS),
        is_error_code(INVALID_PARAMETER),
        is_error_code(UNSUPPORTED),
        is_error_code(BUFFER_TOO_SMALL),
        is_error_code(NOT_READY),
        is_error_code(OUT_OF_RESOURCES),
        is_error_code(NOT_FOUND),
{
    assert(0u64 & 0xC000_0000_0000_0000u64 != 0x8000_0000_0000_0000u64) by (bit_vector);
    assert(0x8000_0000_0000_0002u64 & 0xC000_0000_0000_0000u64 == 0x8000_0000_0000_0000u64)
        by (bit_vector);
    assert(0x8000_0000_0000_0003u64 & 0xC000_0000_0000_0000u64 == 0x8000_0000_0000_0000u64)
        by (bit_vector);
    assert(0x8000_0000_0000_0005u64 & 0xC000_0000_0000_0000u64 == 0x8000_0000_0000_0000u64)
        by (bit_vector);
    assert(0x8000_0000_0000_0006u64 & 0xC000_0000_0000_0000u64 == 0x8000_0000_0000_0000u64)
        by (bit_vector);
    assert(0x8000_0000_0000_0009u64 & 0xC000_0000_0000_0000u64 == 0x8000_0000_0000_0000u64)
        by (bit_vector);
    assert(0x8000_0000_0000_000Eu64 & 0xC000_0000_0000_0000u64 == 0x8000_0000_0000_0000u64)
        by (bit_vector);
}

} // verus!
