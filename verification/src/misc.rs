//! Miscellaneous services: the watchdog, stalling, memory fill and copy,
//! the monotonic counter, configuration tables, and the table's checksum
//! service.
//!
//! Each is a thin, checked call; the checksum value in particular is
//! handed back exactly as the table reported it, unmodified by this
//! layer.

use vstd::prelude::*;

use crate::fatal::{Fatal, Op};
use crate::guid::Guid;
use crate::static_ptr::StaticPtrMut;
use crate::status::{is_error_code, Status};
use crate::table::{planned, StandardBootServices};

verus! {

/// The raw arguments of a set-watchdog-timer call.  The watchdog code
/// and data are deliberately unused by this layer: the entry is passed
/// the zero code and no data.
#[derive(Clone, Copy, PartialEq, Eq, Structural, Debug)]
pub struct SetWatchdogTimerCall {
    /// The address of the table entry to call.
    pub entry: u64,
    /// The timeout in seconds; zero disables the watchdog.
    pub timeout: usize,
    /// The watchdog code passed: always zero here.
    pub watchdog_code: u64,
    /// The data size passed: always zero here.
    pub data_size: usize,
    /// The data pointer passed: always null here.
    pub watchdog_data: usize,
}

/// The raw arguments of a stall call.
#[derive(Clone, Copy, PartialEq, Eq, Structural, Debug)]
pub struct StallCall {
    /// The address of the table entry to call.
    pub entry: u64,
    /// How long to stall, in microseconds.
    pub microseconds: usize,
}

/// The raw arguments of a copy-mem call.
#[derive(Clone, Copy, PartialEq, Eq, Structural, Debug)]
pub struct CopyMemCall {
    /// The address of the table entry to call.
    pub entry: u64,
    /// Where to copy to.
    pub dest: usize,
    /// Where to copy from.
    pub src: usize,
    /// How many bytes to copy.
    pub length: usize,
}

/// The raw arguments of a set-mem call.
#[derive(Clone, Copy, PartialEq, Eq, Structural, Debug)]
pub struct SetMemCall {
    /// The address of the table entry to call.
    pub entry: u64,
    /// The buffer to fill.
    pub buffer: usize,
    /// How many bytes to fill.
    pub size: usize,
    /// The byte value to fill with.
    pub value: u8,
}

/// The raw arguments of a get-next-monotonic-count call.
#[derive(Clone, Copy, PartialEq, Eq, Structural, Debug)]
pub struct GetNextMonotonicCountCall {
    /// The address of the table entry to call.
    pub entry: u64,
}

/// The raw arguments of an install-configuration-table call.
#[derive(Clone, Copy, PartialEq, Eq, Structural, Debug)]
pub struct InstallConfigurationTableCall {
    /// The address of the table entry to call.
    pub entry: u64,
    /// The identifier the table is registered under.
    pub guid: Guid,
    /// The table's address, erased from the caller's typed value; the
    /// identifier names the type it must be read back as.
    pub table: usize,
}

/// The raw arguments of a calculate-crc32 call.
#[derive(Clone, Copy, PartialEq, Eq, Structural, Debug)]
pub struct CalculateCrc32Call {
    /// The address of the table entry to call.
    pub entry: u64,
    /// The data to checksum.
    pub data: usize,
    /// The data's byte length.
    pub data_size: usize,
}

impl StandardBootServices {
    /// Plan a set-watchdog-timer call: only the timeout is taken; the
    /// watchdog code and data are passed as zero and null.
    pub fn set_watchdog_timer_call(&self, timeout: usize) -> (r: Result<
        SetWatchdogTimerCall,
        Fatal,
    >)
        ensures
            planned(
                *self,
                Op::SetWatchdogTimer,
                r,
                (SetWatchdogTimerCall {
                    entry: self.table_spec().entry_spec(Op::SetWatchdogTimer),
                    timeout,
                    watchdog_code: 0u64,
                    data_size: 0usize,
                    watchdog_data: 0usize,
                }),
            ),
    {
        let entry = self.require_entry(Op::SetWatchdogTimer)?;
        Ok(SetWatchdogTimerCall { entry, timeout, watchdog_code: 0, data_size: 0, watchdog_data: 0 })
    }

    /// Plan a stall call.
    pub fn stall_call(&self, microseconds: usize) -> (r: Result<StallCall, Fatal>)
        ensures
            planned(
                *self,
                Op::Stall,
                r,
                (StallCall { entry: self.table_spec().entry_spec(Op::Stall), microseconds }),
            ),
    {
        let entry = self.require_entry(Op::Stall)?;
        Ok(StallCall { entry, microseconds })
    }

    /// Plan a copy-mem call over two buffers of the same length.
    pub fn copy_mem_call(&self, dest: usize, src: usize, length: usize) -> (r: Result<
        CopyMemCall,
        Fatal,
    >)
        ensures
            planned(
                *self,
                Op::CopyMem,
                r,
                (CopyMemCall {
                    entry: self.table_spec().entry_spec(Op::CopyMem),
                    dest,
                    src,
                    length,
                }),
            ),
    {
        let entry = self.require_entry(Op::CopyMem)?;
        Ok(CopyMemCall { entry, dest, src, length })
    }

    /// Plan a set-mem call.
    pub fn set_mem_call(&self, buffer: usize, size: usize, value: u8) -> (r: Result<
        SetMemCall,
        Fatal,
    >)
        ensures
            planned(
                *self,
                Op::SetMem,
                r,
                (SetMemCall {
                    entry: self.table_spec().entry_spec(Op::SetMem),
                    buffer,
                    size,
                    value,
                }),
            ),
    {
        let entry = self.require_entry(Op::SetMem)?;
        Ok(SetMemCall { entry, buffer, size, value })
    }

    /// Plan a get-next-monotonic-count call.
    pub fn get_next_monotonic_count_call(&self) -> (r: Result<GetNextMonotonicCountCall, Fatal>)
        ensures
            planned(
                *self,
                Op::GetNextMonotonicCount,
                r,
                (GetNextMonotonicCountCall {
                    entry: self.table_spec().entry_spec(Op::GetNextMonotonicCount),
                }),
            ),
    {
        let entry = self.require_entry(Op::GetNextMonotonicCount)?;
        Ok(GetNextMonotonicCountCall { entry })
    }

    /// Plan an install-configuration-table call: the caller's table
    /// value is erased to the address the firmware stores, through the
    /// static-pointer encoding that also fixes its recovery type.
    pub fn install_configuration_table_call<T: StaticPtrMut>(&self, guid: &Guid, table: T) -> (r:
        Result<InstallConfigurationTableCall, Fatal>)
        requires
            table.wf(),
        ensures
            planned(
                *self,
                Op::InstallConfigurationTable,
                r,
                (InstallConfigurationTableCall {
                    entry: self.table_spec().entry_spec(Op::InstallConfigurationTable),
                    guid: *guid,
                    table: table.raw_spec(),
                }),
            ),
    {
        let entry = self.require_entry(Op::InstallConfigurationTable)?;
        Ok(InstallConfigurationTableCall { entry, guid: *guid, table: table.into_raw_mut() })
    }

    /// Plan a calculate-crc32 call over a buffer.
    pub fn calculate_crc_32_call(&self, data: usize, data_size: usize) -> (r: Result<
        CalculateCrc32Call,
        Fatal,
    >)
        ensures
            planned(
                *self,
                Op::CalculateCrc32,
                r,
                (CalculateCrc32Call {
                    entry: self.table_spec().entry_spec(Op::CalculateCrc32),
                    data,
                    data_size,
                }),
            ),
    {
        let entry = self.require_entry(Op::CalculateCrc32)?;
        Ok(CalculateCrc32Call { entry, data, data_size })
    }
}

/// Read a calculate-crc32 outcome back: on success the checksum is the
/// value the table reported, unmodified by this layer.
pub fn calculate_crc_32_result(status: Status, crc32: u32) -> (r: Result<u32, Status>)
    ensures
        is_error_code(status.code) ==> r == Err::<u32, Status>(status),
        !is_error_code(status.code) ==> r == Ok::<u32, Status>(crc32),
{
    if status.is_error() {
        Err(status)
    } else {
        Ok(crc32)
    }
}

} // verus!
