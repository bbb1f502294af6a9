//! The dispatch table and the once-initialized handle to it.
//!
//! The firmware supplies one fixed table of entry points at handoff.  Here
//! the table is held as the raw address of each entry, zero meaning the
//! entry is absent on this platform.  [`StandardBootServices`] is the
//! process-wide handle: created unset or already set, set at most once, and
//! read for the rest of the process.  Reading it before it is set, setting
//! it twice, or selecting an absent entry are fatal usage errors, reported
//! as [`Fatal`] values with the exact condition named.

use vstd::prelude::*;

use crate::fatal::{Fatal, Op};

verus! {

/// The firmware dispatch table, as the raw address of every entry point
/// this layer wraps.  An address of zero means the platform leaves that
/// entry unimplemented.
#[derive(Clone, Copy, PartialEq, Eq, Structural, Debug)]
pub struct BootServicesTable {
    pub raise_tpl: u64,
    pub restore_tpl: u64,
    pub allocate_pages: u64,
    pub free_pages: u64,
    pub get_memory_map: u64,
    pub allocate_pool: u64,
    pub free_pool: u64,
    pub create_event: u64,
    pub set_timer: u64,
    pub wait_for_event: u64,
    pub signal_event: u64,
    pub close_event: u64,
    pub check_event: u64,
    pub install_protocol_interface: u64,
    pub reinstall_protocol_interface: u64,
    pub uninstall_protocol_interface: u64,
    pub handle_protocol: u64,
    pub register_protocol_notify: u64,
    pub locate_handle: u64,
    pub locate_device_path: u64,
    pub install_configuration_table: u64,
    pub load_image: u64,
    pub start_image: u64,
    pub exit: u64,
    pub unload_image: u64,
    pub exit_boot_services: u64,
    pub get_next_monotonic_count: u64,
    pub stall: u64,
    pub set_watchdog_timer: u64,
    pub connect_controller: u64,
    pub disconnect_controller: u64,
    pub open_protocol: u64,
    pub close_protocol: u64,
    pub open_protocol_information: u64,
    pub protocols_per_handle: u64,
    pub locate_handle_buffer: u64,
    pub locate_protocol: u64,
    pub calculate_crc32: u64,
    pub copy_mem: u64,
    pub set_mem: u64,
    pub create_event_ex: u64,
}

impl BootServicesTable {
    /// The entry address recorded for an operation.
    pub open spec fn entry_spec(self, op: Op) -> u64 {
        match op {
            Op::RaiseTpl => self.raise_tpl,
            Op::RestoreTpl => self.restore_tpl,
            Op::AllocatePages => self.allocate_pages,
            Op::FreePages => self.free_pages,
            Op::GetMemoryMap => self.get_memory_map,
            Op::AllocatePool => self.allocate_pool,
            Op::FreePool => self.free_pool,
            Op::CreateEvent => self.create_event,
            Op::SetTimer => self.set_timer,
            Op::WaitForEvent => self.wait_for_event,
            Op::SignalEvent => self.signal_event,
            Op::CloseEvent => self.close_event,
            Op::CheckEvent => self.check_event,
            Op::InstallProtocolInterface => self.install_protocol_interface,
            Op::ReinstallProtocolInterface => self.reinstall_protocol_interface,
            Op::UninstallProtocolInterface => self.uninstall_protocol_interface,
            Op::HandleProtocol => self.handle_protocol,
            Op::RegisterProtocolNotify => self.register_protocol_notify,
            Op::LocateHandle => self.locate_handle,
            Op::LocateDevicePath => self.locate_device_path,
            Op::InstallConfigurationTable => self.install_configuration_table,
            Op::LoadImage => self.load_image,
            Op::StartImage => self.start_image,
            Op::Exit => self.exit,
            Op::UnloadImage => self.unload_image,
            Op::ExitBootServices => self.exit_boot_services,
            Op::GetNextMonotonicCount => self.get_next_monotonic_count,
            Op::Stall => self.stall,
            Op::SetWatchdogTimer => self.set_watchdog_timer,
            Op::ConnectController => self.connect_controller,
            Op::DisconnectController => self.disconnect_controller,
            Op::OpenProtocol => self.open_protocol,
            Op::CloseProtocol => self.close_protocol,
            Op::OpenProtocolInformation => self.open_protocol_information,
            Op::ProtocolsPerHandle => self.protocols_per_handle,
            Op::LocateHandleBuffer => self.locate_handle_buffer,
            Op::LocateProtocol => self.locate_protocol,
            Op::CalculateCrc32 => self.calculate_crc32,
            Op::CopyMem => self.copy_mem,
            Op::SetMem => self.set_mem,
            Op::CreateEventEx => self.create_event_ex,
        }
    }

    /// A table with every entry absent.
    pub fn empty() -> (r: BootServicesTable)
        ensures
            forall|op: Op| r.entry_spec(op) == 0,
    {
        BootServicesTable {
            raise_tpl: 0,
            restore_tpl: 0,
            allocate_pages: 0,
            free_pages: 0,
            get_memory_map: 0,
            allocate_pool: 0,
            free_pool: 0,
            create_event: 0,
            set_timer: 0,
            wait_for_event: 0,
            signal_event: 0,
            close_event: 0,
            check_event: 0,
            install_protocol_interface: 0,
            reinstall_protocol_interface: 0,
            uninstall_protocol_interface: 0,
            handle_protocol: 0,
            register_protocol_notify: 0,
            locate_handle: 0,
            locate_device_path: 0,
            install_configuration_table: 0,
            load_image: 0,
            start_image: 0,
            exit: 0,
            unload_image: 0,
            exit_boot_services: 0,
            get_next_monotonic_count: 0,
            stall: 0,
            set_watchdog_timer: 0,
            connect_controller: 0,
            disconnect_controller: 0,
            open_protocol: 0,
            close_protocol: 0,
            open_protocol_information: 0,
            protocols_per_handle: 0,
            locate_handle_buffer: 0,
            locate_protocol: 0,
            calculate_crc32: 0,
            copy_mem: 0,
            set_mem: 0,
            create_event_ex: 0,
        }
    }

    /// The entry address recorded for an operation.
    pub fn entry(&self, op: Op) -> (r: u64)
        ensures
            r == self.entry_spec(op),
    {
        match op {
            Op::RaiseTpl => self.raise_tpl,
            Op::RestoreTpl => self.restore_tpl,
            Op::AllocatePages => self.allocate_pages,
            Op::FreePages => self.free_pages,
            Op::GetMemoryMap => self.get_memory_map,
            Op::AllocatePool => self.allocate_pool,
            Op::FreePool => self.free_pool,
            Op::CreateEvent => self.create_event,
            Op::SetTimer => self.set_timer,
            Op::WaitForEvent => self.wait_for_event,
            Op::SignalEvent => self.signal_event,
            Op::CloseEvent => self.close_event,
            Op::CheckEvent => self.check_event,
            Op::InstallProtocolInterface => self.install_protocol_interface,
            Op::ReinstallProtocolInterface => self.reinstall_protocol_interface,
            Op::UninstallProtocolInterface => self.uninstall_protocol_interface,
            Op::HandleProtocol => self.handle_protocol,
            Op::RegisterProtocolNotify => self.register_protocol_notify,
            Op::LocateHandle => self.locate_handle,
            Op::LocateDevicePath => self.locate_device_path,
            Op::InstallConfigurationTable => self.install_configuration_table,
            Op::LoadImage => self.load_image,
            Op::StartImage => self.start_image,
            Op::Exit => self.exit,
            Op::UnloadImage => self.unload_image,
            Op::ExitBootServices => self.exit_boot_services,
            Op::GetNextMonotonicCount => self.get_next_monotonic_count,
            Op::Stall => self.stall,
            Op::SetWatchdogTimer => self.set_watchdog_timer,
            Op::ConnectController => self.connect_controller,
            Op::DisconnectController => self.disconnect_controller,
            Op::OpenProtocol => self.open_protocol,
            Op::CloseProtocol => self.close_protocol,
            Op::OpenProtocolInformation => self.open_protocol_information,
            Op::ProtocolsPerHandle => self.protocols_per_handle,
            Op::LocateHandleBuffer => self.locate_handle_buffer,
            Op::LocateProtocol => self.locate_protocol,
            Op::CalculateCrc32 => self.calculate_crc32,
            Op::CopyMem => self.copy_mem,
            Op::SetMem => self.set_mem,
            Op::CreateEventEx => self.create_event_ex,
        }
    }
}

/// What planning a call owes: the exact fatal usage error when the handle
/// is unset or the operation's entry is absent, and otherwise exactly the
/// raw call `call`, whose entry field the planners pin to the table's.
pub open spec fn planned<C>(
    s: StandardBootServices,
    op: Op,
    r: Result<C, Fatal>,
    call: C,
) -> bool {
    &&& !s.initialized() ==> r == Err::<C, Fatal>(Fatal::NotInitialized)
    &&& s.initialized() && s.table_spec().entry_spec(op) == 0 ==> r == Err::<C, Fatal>(
        Fatal::EntryAbsent(op),
    )
    &&& s.initialized() && s.table_spec().entry_spec(op) != 0 ==> r == Ok::<C, Fatal>(call)
}

/// The handle through which every other component reaches the table: a
/// single logical slot, either unset or holding the table, set exactly once.
#[derive(Clone, Copy, PartialEq, Eq, Structural, Debug)]
pub struct StandardBootServices {
    table: Option<BootServicesTable>,
}

impl StandardBootServices {
    /// Whether the handle has been given its table.
    pub closed spec fn initialized(self) -> bool {
        self.table is Some
    }

    /// The table the handle holds, once initialized.
    pub closed spec fn table_spec(self) -> BootServicesTable {
        self.table->Some_0
    }

    /// Construct an already-initialized handle, for static use.
    pub fn new(table: BootServicesTable) -> (r: StandardBootServices)
        ensures
            r.initialized(),
            r.table_spec() == table,
    {
        StandardBootServices { table: Some(table) }
    }

    /// Construct an unset handle; it must be initialized exactly once
    /// before use.
    pub fn new_uninit() -> (r: StandardBootServices)
        ensures
            !r.initialized(),
    {
        StandardBootServices { table: None }
    }

    /// Set the handle's table.  Initializing twice is a programming error,
    /// excluded here by contract; [`Self::try_initialize`] reports it
    /// instead.
    pub fn initialize(&mut self, table: BootServicesTable)
        requires
            !old(self).initialized(),
        ensures
            final(self).initialized(),
            final(self).table_spec() == table,
    {
        self.table = Some(table);
    }

    /// Set the handle's table, or report the fatal usage error if it is
    /// already set: the second initialization must abort the flow and
    /// leaves the handle as it was.
    pub fn try_initialize(&mut self, table: BootServicesTable) -> (r: Result<(), Fatal>)
        ensures
            old(self).initialized() ==> r == Err::<(), Fatal>(Fatal::AlreadyInitialized)
                && *final(self) == *old(self),
            !old(self).initialized() ==> r == Ok::<(), Fatal>(())
                && final(self).initialized() && final(self).table_spec() == table,
    {
        match self.table {
            Some(_) => Err(Fatal::AlreadyInitialized),
            None => {
                self.table = Some(table);
                Ok(())
            },
        }
    }

    /// The table, for a handle known to be initialized.  Reading before
    /// initialization is a programming error, excluded here by contract;
    /// [`Self::try_table`] reports it instead.
    pub fn table(&self) -> (r: &BootServicesTable)
        requires
            self.initialized(),
        ensures
            *r == self.table_spec(),
    {
        match &self.table {
            Some(t) => t,
            None => unreached(),
        }
    }

    /// The table, or the fatal usage error if the handle was never set.
    pub fn try_table(&self) -> (r: Result<&BootServicesTable, Fatal>)
        ensures
            self.initialized() ==> r is Ok && *r->Ok_0 == self.table_spec(),
            !self.initialized() ==> r == Err::<&BootServicesTable, Fatal>(Fatal::NotInitialized),
    {
        match &self.table {
            Some(t) => Ok(t),
            None => Err(Fatal::NotInitialized),
        }
    }

    /// Select an operation's entry, reporting the exact fatal usage error
    /// owed when the handle is unset or the entry is absent.  Every wrapped
    /// call goes through this check first.
    pub fn require_entry(&self, op: Op) -> (r: Result<u64, Fatal>)
        ensures
            !self.initialized() ==> r == Err::<u64, Fatal>(Fatal::NotInitialized),
            self.initialized() && self.table_spec().entry_spec(op) == 0 ==> r == Err::<
                u64,
                Fatal,
            >(Fatal::EntryAbsent(op)),
            self.initialized() && self.table_spec().entry_spec(op) != 0 ==> r == Ok::<u64, Fatal>(
                self.table_spec().entry_spec(op),
            ),
    {
        let table = self.try_table()?;
        let entry = table.entry(op);
        if entry == 0 {
            Err(Fatal::EntryAbsent(op))
        } else {
            Ok(entry)
        }
    }
}

} // verus!
