//! The table handle's single-initialization discipline, the fatal usage
//! errors, and the success/error partition of status codes.

use boot_services::fatal::{Fatal, Op};
use boot_services::status::{
    status_result, value_result, Status, BUFFER_TOO_SMALL, INVALID_PARAMETER, NOT_FOUND,
    NOT_READY, OUT_OF_RESOURCES, SUCCESS, UNSUPPORTED,
};
use boot_services::table::{BootServicesTable, StandardBootServices};

fn all_ops() -> Vec<Op> {
    vec![
        Op::RaiseTpl,
        Op::RestoreTpl,
        Op::AllocatePages,
        Op::FreePages,
        Op::GetMemoryMap,
        Op::AllocatePool,
        Op::FreePool,
        Op::CreateEvent,
        Op::SetTimer,
        Op::WaitForEvent,
        Op::SignalEvent,
        Op::CloseEvent,
        Op::CheckEvent,
        Op::InstallProtocolInterface,
        Op::ReinstallProtocolInterface,
        Op::UninstallProtocolInterface,
        Op::HandleProtocol,
        Op::RegisterProtocolNotify,
        Op::LocateHandle,
        Op::LocateDevicePath,
        Op::InstallConfigurationTable,
        Op::LoadImage,
        Op::StartImage,
        Op::Exit,
        Op::UnloadImage,
        Op::ExitBootServices,
        Op::GetNextMonotonicCount,
        Op::Stall,
        Op::SetWatchdogTimer,
        Op::ConnectController,
        Op::DisconnectController,
        Op::OpenProtocol,
        Op::CloseProtocol,
        Op::OpenProtocolInformation,
        Op::ProtocolsPerHandle,
        Op::LocateHandleBuffer,
        Op::LocateProtocol,
        Op::CalculateCrc32,
        Op::CopyMem,
        Op::SetMem,
        Op::CreateEventEx,
    ]
}

#[test]
fn reading_the_handle_before_initialization_is_the_fatal_usage_error() {
    let bs = StandardBootServices::new_uninit();
    let r = bs.try_table();
    assert!(matches!(r, Err(Fatal::NotInitialized)));
    assert_eq!(
        Fatal::NotInitialized.message(),
        "Boot services is not initialize."
    );
}

#[test]
fn initializing_the_handle_twice_is_the_fatal_usage_error() {
    let mut bs = StandardBootServices::new_uninit();
    let table = BootServicesTable::empty();
    assert!(bs.try_initialize(table).is_ok());
    let second = bs.try_initialize(table);
    assert!(matches!(second, Err(Fatal::AlreadyInitialized)));
    assert_eq!(
        Fatal::AlreadyInitialized.message(),
        "Boot services is already initialize."
    );
    // The handle still holds the first table.
    assert!(bs.try_table().is_ok());
}

#[test]
fn a_handle_built_initialized_is_readable_at_once() {
    let mut table = BootServicesTable::empty();
    table.stall = 7;
    let bs = StandardBootServices::new(table);
    assert_eq!(bs.try_table().unwrap().stall, 7);
    assert_eq!(bs.table().entry(Op::Stall), 7);
}

#[test]
fn every_absent_entry_is_reported_with_its_operation_named() {
    let bs = StandardBootServices::new(BootServicesTable::empty());
    let mut messages: Vec<String> = Vec::new();
    for op in all_ops() {
        let r = bs.require_entry(op);
        assert_eq!(r, Err(Fatal::EntryAbsent(op)));
        let message = Fatal::EntryAbsent(op).message();
        assert!(message.starts_with("Boot services function "));
        assert!(message.ends_with(" is not initialized."));
        assert!(message.contains(op.name()));
        messages.push(message);
    }
    // Each operation gets its own message.
    for i in 0..messages.len() {
        for j in 0..i {
            assert_ne!(messages[i], messages[j]);
        }
    }
}

#[test]
fn an_uninitialized_handle_refuses_every_entry_selection() {
    let bs = StandardBootServices::new_uninit();
    for op in all_ops() {
        assert_eq!(bs.require_entry(op), Err(Fatal::NotInitialized));
    }
}

#[test]
fn a_present_entry_is_selected_as_recorded() {
    let mut table = BootServicesTable::empty();
    table.close_event = 0x1234;
    let bs = StandardBootServices::new(table);
    assert_eq!(bs.require_entry(Op::CloseEvent), Ok(0x1234));
    assert_eq!(
        bs.require_entry(Op::SignalEvent),
        Err(Fatal::EntryAbsent(Op::SignalEvent))
    );
}

#[test]
fn the_status_partition_agrees_with_the_platform_convention() {
    let codes: [u64; 10] = [
        SUCCESS,
        INVALID_PARAMETER,
        UNSUPPORTED,
        BUFFER_TOO_SMALL,
        NOT_READY,
        OUT_OF_RESOURCES,
        NOT_FOUND,
        1,      // a warning code: success
        0x8000_0000_0000_0001,
        0xC000_0000_0000_0001, // vendor range: not an error
    ];
    for code in codes {
        let ours = Status::of(code).is_error();
        let theirs = r_efi::efi::Status::from_usize(code as usize).is_error();
        assert_eq!(ours, theirs, "partition disagrees on {code:#x}");
    }
}

#[test]
fn named_codes_match_the_platform_values() {
    assert_eq!(SUCCESS as usize, r_efi::efi::Status::SUCCESS.as_usize());
    assert_eq!(
        INVALID_PARAMETER as usize,
        r_efi::efi::Status::INVALID_PARAMETER.as_usize()
    );
    assert_eq!(
        UNSUPPORTED as usize,
        r_efi::efi::Status::UNSUPPORTED.as_usize()
    );
    assert_eq!(
        BUFFER_TOO_SMALL as usize,
        r_efi::efi::Status::BUFFER_TOO_SMALL.as_usize()
    );
    assert_eq!(NOT_READY as usize, r_efi::efi::Status::NOT_READY.as_usize());
    assert_eq!(
        OUT_OF_RESOURCES as usize,
        r_efi::efi::Status::OUT_OF_RESOURCES.as_usize()
    );
    assert_eq!(NOT_FOUND as usize, r_efi::efi::Status::NOT_FOUND.as_usize());
}

#[test]
fn a_status_outcome_propagates_exactly_the_errors() {
    assert_eq!(status_result(Status::of(SUCCESS)), Ok(()));
    assert_eq!(status_result(Status::of(1)), Ok(()));
    assert_eq!(
        status_result(Status::of(NOT_READY)),
        Err(Status::of(NOT_READY))
    );
    assert_eq!(value_result(Status::of(SUCCESS), 89), Ok(89));
    assert_eq!(
        value_result(Status::of(NOT_FOUND), 89),
        Err(Status::of(NOT_FOUND))
    );
}

#[test]
fn operation_names_are_the_table_entry_names() {
    assert_eq!(Op::CreateEvent.name(), "create_event");
    assert_eq!(Op::SetWatchdogTimer.name(), "set_watchdog_timer");
    assert_eq!(Op::CalculateCrc32.name(), "calculate_crc32");
    assert_eq!(
        Fatal::EntryAbsent(Op::SetWatchdogTimer).message(),
        "Boot services function set_watchdog_timer is not initialized."
    );
}
