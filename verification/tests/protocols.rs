//! Protocol identities, the null-interface convention, locating, opening
//! and enumerating.

use boot_services::fatal::{Fatal, Op};
use boot_services::guid::Guid;
use boot_services::protocol::{
    buffer_count_result, locate_handle_result, locate_protocol_result, open_protocol_result,
    register_protocol_notify_result, DevicePath, HandleSearchType, IndicatorProtocol,
    LocateOutcome, Protocol, Registration, HANDLE_SIZE,
};
use boot_services::status::{status_result, Status, NOT_FOUND, SUCCESS};
use boot_services::table::{BootServicesTable, StandardBootServices};

fn device_path_guid() -> Guid {
    Guid::from_bytes(r_efi::protocols::device_path::PROTOCOL_GUID.as_bytes())
}

#[test]
fn the_device_path_identity_matches_the_platform_identifier() {
    assert_eq!(DevicePath {}.protocol_guid(), device_path_guid());
    assert!(!DevicePath {}.has_null_interface());
}

#[test]
fn test_locate_protocol() {
    const DEVICE_PATH_PROTOCOL: DevicePath = DevicePath {};
    let mut table = BootServicesTable::empty();
    table.locate_protocol = 0x100;
    let bs = StandardBootServices::new(table);

    let call = bs
        .locate_protocol_call(&DEVICE_PATH_PROTOCOL, None)
        .unwrap();
    assert_eq!(
        call.guid,
        device_path_guid(),
        "Protocol guid should have been Device Path guid"
    );
    assert_eq!(call.registration, 0, "Registration should be a null pointer");

    // The entry writes a real interface address.
    let interface = 0x7000_usize;
    let result = locate_protocol_result(
        DEVICE_PATH_PROTOCOL.has_null_interface(),
        Status::of(SUCCESS),
        interface,
    );
    assert!(matches!(result, Ok(LocateOutcome::Found(p)) if p == interface));
}

#[test]
fn test_locate_protocol_indicator_protocol() {
    const DEVICE_PATH_PROTOCOL: DevicePath = DevicePath {};
    let mut table = BootServicesTable::empty();
    table.locate_protocol = 0x100;
    let bs = StandardBootServices::new(table);

    let call = bs
        .locate_protocol_call(&DEVICE_PATH_PROTOCOL, None)
        .unwrap();
    assert_eq!(
        call.guid,
        device_path_guid(),
        "Protocol guid should have been Device Path guid"
    );
    assert_eq!(call.registration, 0, "Registration should be a null pointer");

    // The entry wrote the null pointer for a real-shaped identity:
    // nothing usable is present.
    let result = locate_protocol_result(
        DEVICE_PATH_PROTOCOL.has_null_interface(),
        Status::of(SUCCESS),
        0,
    );
    assert!(matches!(result, Ok(LocateOutcome::Absent)));
}

#[test]
fn an_indicator_protocol_is_present_without_an_interface() {
    let indicator = IndicatorProtocol {
        guid: Guid::from_fields(0x1234, 5, 6, 7, 8, &[9, 10, 11, 12, 13, 14]),
    };
    assert!(indicator.has_null_interface());

    // Present: distinct from absent, though the pointer is null in both.
    let present = locate_protocol_result(indicator.has_null_interface(), Status::of(SUCCESS), 0);
    assert_eq!(present, Ok(LocateOutcome::PresentNoInterface));
    let absent = locate_protocol_result(false, Status::of(SUCCESS), 0);
    assert_eq!(absent, Ok(LocateOutcome::Absent));
    assert_ne!(present, absent);

    // Genuinely nothing found: a status failure.
    let missing = locate_protocol_result(true, Status::of(NOT_FOUND), 0);
    assert_eq!(missing, Err(Status::of(NOT_FOUND)));
}

#[test]
fn installing_an_indicator_protocol_passes_the_null_interface() {
    let mut table = BootServicesTable::empty();
    table.install_protocol_interface = 0x100;
    table.uninstall_protocol_interface = 0x200;
    table.reinstall_protocol_interface = 0x300;
    let bs = StandardBootServices::new(table);
    let indicator = IndicatorProtocol {
        guid: Guid::from_fields(1, 2, 3, 4, 5, &[6, 7, 8, 9, 10, 11]),
    };

    let call = bs
        .install_protocol_interface_call(None, &indicator, 0x9000)
        .unwrap();
    assert_eq!(call.interface, 0);
    assert_eq!(call.handle, 0);
    assert_eq!(call.guid, indicator.protocol_guid());

    let call = bs
        .uninstall_protocol_interface_call(0x42, &indicator, 0x9000)
        .unwrap();
    assert_eq!(call.interface, 0);
    assert_eq!(call.handle, 0x42);

    // Reinstalling nulls the old and the new pointer together.
    let call = bs
        .reinstall_protocol_interface_call(0x42, &indicator, 0x9000, 0x9100)
        .unwrap();
    assert_eq!(call.old_interface, 0);
    assert_eq!(call.new_interface, 0);
}

#[test]
fn installing_a_typed_protocol_passes_the_interface_address() {
    let mut table = BootServicesTable::empty();
    table.install_protocol_interface = 0x100;
    table.reinstall_protocol_interface = 0x300;
    let bs = StandardBootServices::new(table);

    let call = bs
        .install_protocol_interface_call(Some(0x42), &DevicePath {}, 0x9000)
        .unwrap();
    assert_eq!(call.interface, 0x9000);
    assert_eq!(call.handle, 0x42);

    let call = bs
        .reinstall_protocol_interface_call(0x42, &DevicePath {}, 0x9000, 0x9100)
        .unwrap();
    assert_eq!(call.old_interface, 0x9000);
    assert_eq!(call.new_interface, 0x9100);
}

#[test]
fn handle_searches_marshal_their_criterion() {
    let mut table = BootServicesTable::empty();
    table.locate_handle = 0x100;
    table.locate_handle_buffer = 0x200;
    let bs = StandardBootServices::new(table);

    let call = bs.locate_handle_call(HandleSearchType::AllHandles).unwrap();
    assert_eq!(call.search_type, r_efi::efi::ALL_HANDLES);
    assert_eq!(call.protocol, None);
    assert_eq!(call.search_key, 0);

    let guid = device_path_guid();
    let call = bs
        .locate_handle_call(HandleSearchType::ByProtocol(guid))
        .unwrap();
    assert_eq!(call.search_type, r_efi::efi::BY_PROTOCOL);
    assert_eq!(call.protocol, Some(guid));
    assert_eq!(call.search_key, 0);

    let call = bs
        .locate_handle_buffer_call(HandleSearchType::ByRegisterNotify(Registration {
            addr: 0x77,
        }))
        .unwrap();
    assert_eq!(call.search_type, r_efi::efi::BY_REGISTER_NOTIFY);
    assert_eq!(call.protocol, None);
    assert_eq!(call.search_key, 0x77);
}

#[test]
fn a_located_handle_buffer_counts_whole_handles() {
    assert_eq!(
        locate_handle_result(Status::of(SUCCESS), 3 * HANDLE_SIZE),
        Ok(3)
    );
    assert_eq!(
        locate_handle_result(Status::of(NOT_FOUND), 0),
        Err(Status::of(NOT_FOUND))
    );
    assert_eq!(
        buffer_count_result(Status::of(SUCCESS), 0x6000, 5),
        Ok((0x6000, 5))
    );
    assert_eq!(
        buffer_count_result(Status::of(NOT_FOUND), 0, 0),
        Err(Status::of(NOT_FOUND))
    );
}

#[test]
fn opening_a_protocol_distinguishes_the_null_interface() {
    let mut table = BootServicesTable::empty();
    table.open_protocol = 0x100;
    table.close_protocol = 0x200;
    let bs = StandardBootServices::new(table);

    let call = bs
        .open_protocol_call(0x42, &DevicePath {}, 0x1, 0x2, r_efi::efi::OPEN_PROTOCOL_GET_PROTOCOL)
        .unwrap();
    assert_eq!(call.handle, 0x42);
    assert_eq!(call.agent_handle, 0x1);
    assert_eq!(call.controller_handle, 0x2);
    assert_eq!(call.attribute, r_efi::efi::OPEN_PROTOCOL_GET_PROTOCOL);

    assert_eq!(open_protocol_result(Status::of(SUCCESS), 0x7000), Ok(Some(0x7000)));
    assert_eq!(open_protocol_result(Status::of(SUCCESS), 0), Ok(None));
    assert_eq!(
        open_protocol_result(Status::of(NOT_FOUND), 0),
        Err(Status::of(NOT_FOUND))
    );

    let call = bs
        .close_protocol_call(0x42, &device_path_guid(), 0x1, 0x2)
        .unwrap();
    assert_eq!(call.handle, 0x42);
    let status = status_result(Status::of(SUCCESS));
    assert_eq!(status, Ok(()));
}

#[test]
fn registering_protocol_interest_yields_the_written_key() {
    let mut table = BootServicesTable::empty();
    table.register_protocol_notify = 0x100;
    let bs = StandardBootServices::new(table);

    let call = bs
        .register_protocol_notify_call(&device_path_guid(), 0x5)
        .unwrap();
    assert_eq!(call.event, 0x5);

    assert_eq!(
        register_protocol_notify_result(Status::of(SUCCESS), 0x88),
        Ok(Registration { addr: 0x88 })
    );
    assert_eq!(
        register_protocol_notify_result(Status::of(NOT_FOUND), 0),
        Err(Status::of(NOT_FOUND))
    );
}

#[test]
fn connecting_a_controller_appends_the_null_terminator() {
    let mut table = BootServicesTable::empty();
    table.connect_controller = 0x100;
    table.disconnect_controller = 0x200;
    let bs = StandardBootServices::new(table);

    let call = bs
        .connect_controller_call(0x42, vec![0x10, 0x20], 0, true)
        .unwrap();
    assert!(!call.pass_null_list);
    assert_eq!(call.driver_image_handles, vec![0x10, 0x20, 0]);
    assert!(call.recursive);

    // No drivers supplied: the entry is passed the null list.
    let call = bs.connect_controller_call(0x42, vec![], 0, false).unwrap();
    assert!(call.pass_null_list);
    assert!(call.driver_image_handles.is_empty());

    let call = bs
        .disconnect_controller_call(0x42, Some(0x10), None)
        .unwrap();
    assert_eq!(call.driver_image_handle, 0x10);
    assert_eq!(call.child_handle, 0);
}

#[test]
fn enumeration_calls_through_absent_entries_name_their_operation() {
    let bs = StandardBootServices::new(BootServicesTable::empty());
    assert!(matches!(
        bs.protocols_per_handle_call(1),
        Err(Fatal::EntryAbsent(Op::ProtocolsPerHandle))
    ));
    assert!(matches!(
        bs.open_protocol_information_call(1, &device_path_guid()),
        Err(Fatal::EntryAbsent(Op::OpenProtocolInformation))
    ));
    assert!(matches!(
        bs.locate_protocol_call(&DevicePath {}, None),
        Err(Fatal::EntryAbsent(Op::LocateProtocol))
    ));
    assert!(matches!(
        bs.handle_protocol_call(1, &DevicePath {}),
        Err(Fatal::EntryAbsent(Op::HandleProtocol))
    ));
    assert!(matches!(
        bs.locate_device_path_call(&device_path_guid(), 0x30),
        Err(Fatal::EntryAbsent(Op::LocateDevicePath))
    ));
}
