//! Fatal usage errors: contract violations that must abort the calling flow.
//!
//! Two error classes are kept strictly separate in this layer.  Firmware-
//! reported failures travel as [`crate::status::Status`] values and are
//! always recoverable.  The conditions here — using the table handle before
//! it is set, setting it twice, or calling through an absent table entry —
//! are programming errors: the library reports them as a [`Fatal`] value
//! whose message names the offence, and the surrounding shell terminates the
//! flow with that message instead of recovering.

use vstd::prelude::*;
use vstd::string::StringExecFns;

verus! {

/// An operation of the dispatch table, named after its table entry.
#[derive(Clone, Copy, PartialEq, Eq, Structural, Debug)]
pub enum Op {
    RaiseTpl,
    RestoreTpl,
    AllocatePages,
    FreePages,
    GetMemoryMap,
    AllocatePool,
    FreePool,
    CreateEvent,
    SetTimer,
    WaitForEvent,
    SignalEvent,
    CloseEvent,
    CheckEvent,
    InstallProtocolInterface,
    ReinstallProtocolInterface,
    UninstallProtocolInterface,
    HandleProtocol,
    RegisterProtocolNotify,
    LocateHandle,
    LocateDevicePath,
    InstallConfigurationTable,
    LoadImage,
    StartImage,
    Exit,
    UnloadImage,
    ExitBootServices,
    GetNextMonotonicCount,
    Stall,
    SetWatchdogTimer,
    ConnectController,
    DisconnectController,
    OpenProtocol,
    CloseProtocol,
    OpenProtocolInformation,
    ProtocolsPerHandle,
    LocateHandleBuffer,
    LocateProtocol,
    CalculateCrc32,
    CopyMem,
    SetMem,
    CreateEventEx,
}

impl Op {
    /// The name of this operation's table entry.
    pub open spec fn name_spec(self) -> Seq<char> {
        match self {
            Op::RaiseTpl => "raise_tpl"@,
            Op::RestoreTpl => "restore_tpl"@,
            Op::AllocatePages => "allocate_pages"@,
            Op::FreePages => "free_pages"@,
            Op::GetMemoryMap => "get_memory_map"@,
            Op::AllocatePool => "allocate_pool"@,
            Op::FreePool => "free_pool"@,
            Op::CreateEvent => "create_event"@,
            Op::SetTimer => "set_timer"@,
            Op::WaitForEvent => "wait_for_event"@,
            Op::SignalEvent => "signal_event"@,
            Op::CloseEvent => "close_event"@,
            Op::CheckEvent => "check_event"@,
            Op::InstallProtocolInterface => "install_protocol_interface"@,
            Op::ReinstallProtocolInterface => "reinstall_protocol_interface"@,
            Op::UninstallProtocolInterface => "uninstall_protocol_interface"@,
            Op::HandleProtocol => "handle_protocol"@,
            Op::RegisterProtocolNotify => "register_protocol_notify"@,
            Op::LocateHandle => "locate_handle"@,
            Op::LocateDevicePath => "locate_device_path"@,
            Op::InstallConfigurationTable => "install_configuration_table"@,
            Op::LoadImage => "load_image"@,
            Op::StartImage => "start_image"@,
            Op::Exit => "exit"@,
            Op::UnloadImage => "unload_image"@,
            Op::ExitBootServices => "exit_boot_services"@,
            Op::GetNextMonotonicCount => "get_next_monotonic_count"@,
            Op::Stall => "stall"@,
            Op::SetWatchdogTimer => "set_watchdog_timer"@,
            Op::ConnectController => "connect_controller"@,
            Op::DisconnectController => "disconnect_controller"@,
            Op::OpenProtocol => "open_protocol"@,
            Op::CloseProtocol => "close_protocol"@,
            Op::OpenProtocolInformation => "open_protocol_information"@,
            Op::ProtocolsPerHandle => "protocols_per_handle"@,
            Op::LocateHandleBuffer => "locate_handle_buffer"@,
            Op::LocateProtocol => "locate_protocol"@,
            Op::CalculateCrc32 => "calculate_crc32"@,
            Op::CopyMem => "copy_mem"@,
            Op::SetMem => "set_mem"@,
            Op::CreateEventEx => "create_event_ex"@,
        }
    }

    /// The name of this operation's table entry.
    pub fn name(&self) -> (r: &'static str)
        ensures
            r@ == self.name_spec(),
    {
        match self {
            Op::RaiseTpl => "raise_tpl",
            Op::RestoreTpl => "restore_tpl",
            Op::AllocatePages => "allocate_pages",
            Op::FreePages => "free_pages",
            Op::GetMemoryMap => "get_memory_map",
            Op::AllocatePool => "allocate_pool",
            Op::FreePool => "free_pool",
            Op::CreateEvent => "create_event",
            Op::SetTimer => "set_timer",
            Op::WaitForEvent => "wait_for_event",
            Op::SignalEvent => "signal_event",
            Op::CloseEvent => "close_event",
            Op::CheckEvent => "check_event",
            Op::InstallProtocolInterface => "install_protocol_interface",
            Op::ReinstallProtocolInterface => "reinstall_protocol_interface",
            Op::UninstallProtocolInterface => "uninstall_protocol_interface",
            Op::HandleProtocol => "handle_protocol",
            Op::RegisterProtocolNotify => "register_protocol_notify",
            Op::LocateHandle => "locate_handle",
            Op::LocateDevicePath => "locate_device_path",
            Op::InstallConfigurationTable => "install_configuration_table",
            Op::LoadImage => "load_image",
            Op::StartImage => "start_image",
            Op::Exit => "exit",
            Op::UnloadImage => "unload_image",
            Op::ExitBootServices => "exit_boot_services",
            Op::GetNextMonotonicCount => "get_next_monotonic_count",
            Op::Stall => "stall",
            Op::SetWatchdogTimer => "set_watchdog_timer",
            Op::ConnectController => "connect_controller",
            Op::DisconnectController => "disconnect_controller",
            Op::OpenProtocol => "open_protocol",
            Op::CloseProtocol => "close_protocol",
            Op::OpenProtocolInformation => "open_protocol_information",
            Op::ProtocolsPerHandle => "protocols_per_handle",
            Op::LocateHandleBuffer => "locate_handle_buffer",
            Op::LocateProtocol => "locate_protocol",
            Op::CalculateCrc32 => "calculate_crc32",
            Op::CopyMem => "copy_mem",
            Op::SetMem => "set_mem",
            Op::CreateEventEx => "create_event_ex",
        }
    }
}

/// A fatal usage error: the calling flow must be terminated with
/// [`Fatal::message`], not resumed.
#[derive(Clone, Copy, PartialEq, Eq, Structural, Debug)]
pub enum Fatal {
    /// The table handle was read before it was set.
    NotInitialized,
    /// The table handle was set a second time.
    AlreadyInitialized,
    /// The named operation's table entry is null: the platform does not
    /// provide it, and calling it is a contract violation.
    EntryAbsent(Op),
}

impl Fatal {
    /// The message the aborting flow reports, naming the offending
    /// operation where one is involved.
    pub open spec fn message_spec(self) -> Seq<char> {
        match self {
            Fatal::NotInitialized => "Boot services is not initialize."@,
            Fatal::AlreadyInitialized => "Boot services is already initialize."@,
            Fatal::EntryAbsent(op) => "Boot services function "@ + op.name_spec()
                + " is not initialized."@,
        }
    }

    /// The message the aborting flow reports.
    pub fn message(&self) -> (r: String)
        ensures
            r@ == self.message_spec(),
    {
        match self {
            Fatal::NotInitialized => String::from_str("Boot services is not initialize."),
            Fatal::AlreadyInitialized => String::from_str("Boot services is already initialize."),
            Fatal::EntryAbsent(op) => {
                let m = String::from_str("Boot services function ");
                let m = m.concat(op.name());
                let m = m.concat(" is not initialized.");
                assert(m@ =~= self.message_spec());
                m
            },
        }
    }
}

} // verus!
