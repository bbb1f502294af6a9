//! Image loading and starting, the privileged exits, the miscellaneous
//! services, the identifier packing, and the context round trip.

use boot_services::fatal::{Fatal, Op};
use boot_services::guid::Guid;
use boot_services::image::start_image_result;
use boot_services::memory::PoolBuffer;
use boot_services::misc::calculate_crc_32_result;
use boot_services::static_ptr::{OwnedPtr, StaticMutRef, StaticPtr, StaticPtrMut, StaticRef};
use boot_services::status::{status_result, value_result, Status, NOT_FOUND, SUCCESS};
use boot_services::table::{BootServicesTable, StandardBootServices};

#[test]
fn loading_an_image_marshals_its_source() {
    let mut table = BootServicesTable::empty();
    table.load_image = 0x100;
    let bs = StandardBootServices::new(table);

    let source = vec![0xde_u8, 0xad, 0xbe, 0xef];
    let call = bs
        .load_image_from_source_call(0x42, 0x30, &source)
        .unwrap();
    assert!(!call.boot_policy);
    assert_eq!(call.parent_image_handle, 0x42);
    assert_eq!(call.device_path, 0x30);
    assert!(call.has_source_buffer);
    assert_eq!(call.source_size, 4);

    let call = bs.load_image_from_file_call(0x42, 0x30).unwrap();
    assert!(!call.boot_policy);
    assert!(!call.has_source_buffer);
    assert_eq!(call.source_size, 0);

    let handle = boot_services::status::address_result(Status::of(SUCCESS), 0x99);
    assert_eq!(handle, Ok(0x99));
}

#[test]
fn a_failed_start_carries_its_exit_data_buffer() {
    let mut table = BootServicesTable::empty();
    table.start_image = 0x100;
    let bs = StandardBootServices::new(table);
    let call = bs.start_image_call(0x42).unwrap();
    assert_eq!(call.image_handle, 0x42);

    assert_eq!(start_image_result(Status::of(SUCCESS), 0, 0), Ok(()));

    let failed = start_image_result(Status::of(NOT_FOUND), 32, 0x6000);
    match failed {
        Err((status, Some(buffer))) => {
            assert_eq!(status, Status::of(NOT_FOUND));
            assert_eq!(buffer.addr, 0x6000);
            assert_eq!(buffer.len, 32);
        }
        other => panic!("expected a carried buffer, got {other:?}"),
    }

    let failed = start_image_result(Status::of(NOT_FOUND), 0, 0);
    assert_eq!(failed, Err((Status::of(NOT_FOUND), None)));
}

#[test]
fn exiting_hands_the_exit_data_to_the_firmware() {
    let mut table = BootServicesTable::empty();
    table.exit = 0x100;
    table.unload_image = 0x200;
    table.exit_boot_services = 0x300;
    let bs = StandardBootServices::new(table);

    let data = PoolBuffer::new(0x6000, 32);
    let call = bs
        .exit_call(0x42, Status::of(NOT_FOUND), Some(data))
        .unwrap();
    assert_eq!(call.image_handle, 0x42);
    assert_eq!(call.exit_status, NOT_FOUND);
    assert_eq!(call.exit_data, 0x6000);
    assert_eq!(call.exit_data_size, 32);

    let call = bs.exit_call(0x42, Status::of(SUCCESS), None).unwrap();
    assert_eq!(call.exit_data, 0);
    assert_eq!(call.exit_data_size, 0);

    let call = bs.unload_image_call(0x42).unwrap();
    assert_eq!(call.image_handle, 0x42);

    let call = bs.exit_boot_services_call(0x42, 0x77).unwrap();
    assert_eq!(call.map_key, 0x77);
    assert_eq!(status_result(Status::of(SUCCESS)), Ok(()));
}

#[test]
fn test_set_watchdog_timer() {
    let mut table = BootServicesTable::empty();
    table.set_watchdog_timer = 0x100;
    let bs = StandardBootServices::new(table);

    let call = bs.set_watchdog_timer_call(10).unwrap();
    assert_eq!(10, call.timeout);
    assert_eq!(0, call.watchdog_code);
    assert_eq!(0, call.data_size);
    assert_eq!(0, call.watchdog_data);

    status_result(Status::of(SUCCESS)).unwrap();
}

#[test]
fn test_stall() {
    let mut table = BootServicesTable::empty();
    table.stall = 0x100;
    let bs = StandardBootServices::new(table);
    let call = bs.stall_call(10).unwrap();
    assert_eq!(10, call.microseconds);
    let status = status_result(Status::of(SUCCESS));
    assert_eq!(Ok(()), status);
}

#[test]
fn test_copy_mem() {
    let mut table = BootServicesTable::empty();
    table.copy_mem = 0x100;
    let bs = StandardBootServices::new(table);

    let length = 5 * core::mem::size_of::<i32>();
    let call = bs.copy_mem_call(0x2000, 0x1000, length).unwrap();
    assert_eq!(0x2000, call.dest);
    assert_eq!(0x1000, call.src);
    assert_eq!(5 * core::mem::size_of::<i32>(), call.length);
}

#[test]
fn test_set_mem() {
    let mut table = BootServicesTable::empty();
    table.set_mem = 0x100;
    let bs = StandardBootServices::new(table);

    let call = bs.set_mem_call(0x2000, 16, 8).unwrap();
    assert_eq!(0x2000, call.buffer);
    assert_eq!(16, call.size);
    assert_eq!(8, call.value);
}

#[test]
fn test_get_next_monotonic_count() {
    let mut table = BootServicesTable::empty();
    table.get_next_monotonic_count = 0x100;
    let bs = StandardBootServices::new(table);
    assert!(bs.get_next_monotonic_count_call().is_ok());

    let status = value_result(Status::of(SUCCESS), 89).unwrap();
    assert_eq!(89, status);
}

#[test]
fn test_install_configuration_table() {
    let mut table = BootServicesTable::empty();
    table.install_configuration_table = 0x100;
    let bs = StandardBootServices::new(table);

    let guid = Guid::from_bytes(&[1, 2, 3, 4, 5, 6, 7, 8, 9, 10, 11, 12, 13, 14, 15, 16]);
    let table_value = StaticMutRef { addr: 0x3000 };
    let call = bs
        .install_configuration_table_call(&guid, table_value)
        .unwrap();
    assert_eq!(guid, call.guid);
    assert_eq!(0x3000, call.table);

    status_result(Status::of(SUCCESS)).unwrap();
}

#[test]
fn test_calculate_crc32() {
    let mut table = BootServicesTable::empty();
    table.calculate_crc32 = 0x100;
    let bs = StandardBootServices::new(table);

    // A buffer of sixteen zero bytes: the call carries its address and
    // length, and the reported checksum passes through unmodified.
    let call = bs.calculate_crc_32_call(0x4000, 16).unwrap();
    assert_eq!(0x4000, call.data);
    assert_eq!(16, call.data_size);

    let crc = calculate_crc_32_result(Status::of(SUCCESS), 10).unwrap();
    assert_eq!(10, crc);
    assert_eq!(
        calculate_crc_32_result(Status::of(NOT_FOUND), 10),
        Err(Status::of(NOT_FOUND))
    );
}

#[test]
fn t() {
    // An owned heap value: erased to its address, recovered through the
    // matching type at the same address.
    let a = OwnedPtr { addr: 0x9000 };
    let m = a.metadata();
    println!("{:?}, {:?}", m.ptr_value, a);
    let raw = a.into_raw();
    let b = OwnedPtr::from_metadata(m);
    println!("{:?}", b);
    assert_eq!(b.addr, raw);
}

#[test]
fn every_context_kind_erases_to_its_own_address() {
    assert_eq!(().into_raw(), 0);
    assert_eq!(StaticRef { addr: 0x10 }.into_raw(), 0x10);
    assert_eq!(StaticMutRef { addr: 0x20 }.into_raw_mut(), 0x20);
    assert_eq!(OwnedPtr { addr: 0x30 }.into_raw(), 0x30);
    let none: Option<StaticRef> = None;
    assert_eq!(none.into_raw(), 0);
    assert_eq!(Some(StaticRef { addr: 0x10 }).into_raw(), 0x10);
    assert_eq!(Some(OwnedPtr { addr: 0x30 }).into_raw_mut(), 0x30);
}

#[test]
fn an_optional_context_recovers_presence_from_the_address() {
    let present = Some(StaticRef { addr: 0x10 });
    let m = present.metadata();
    let recovered: Option<StaticRef> = Option::from_metadata(m);
    assert_eq!(recovered, Some(StaticRef { addr: 0x10 }));

    let absent: Option<StaticRef> = None;
    let m = absent.metadata();
    let recovered: Option<StaticRef> = Option::from_metadata(m);
    assert_eq!(recovered, None);
}

#[test]
fn identifier_packing_matches_the_platform_layout() {
    // The same identifier built from fields here and from the platform's
    // own packing: the wire bytes agree.
    let theirs = r_efi::efi::Guid::from_fields(
        0x09576e91,
        0x6d3f,
        0x11d2,
        0x8e,
        0x39,
        &[0x00, 0xa0, 0xc9, 0x69, 0x72, 0x3b],
    );
    let ours = Guid::from_fields(
        0x09576e91,
        0x6d3f,
        0x11d2,
        0x8e,
        0x39,
        &[0x00, 0xa0, 0xc9, 0x69, 0x72, 0x3b],
    );
    assert_eq!(ours, Guid::from_bytes(theirs.as_bytes()));

    let bytes: [u8; 16] = [1, 2, 3, 4, 5, 6, 7, 8, 9, 10, 11, 12, 13, 14, 15, 16];
    assert_eq!(
        Guid::from_bytes(&bytes),
        Guid::from_bytes(r_efi::efi::Guid::from_bytes(&bytes).as_bytes())
    );

    // The wire form is lossless, and agrees with the platform's.
    let g = Guid::from_bytes(&bytes);
    assert_eq!(g.as_bytes(), bytes);
    assert_eq!(&ours.as_bytes(), theirs.as_bytes());
    assert_eq!(Guid::from_bytes(&g.as_bytes()), g);
}

#[test]
fn image_calls_through_absent_entries_name_their_operation() {
    let bs = StandardBootServices::new(BootServicesTable::empty());
    assert!(matches!(
        bs.load_image_call(false, 1, 0, None),
        Err(Fatal::EntryAbsent(Op::LoadImage))
    ));
    assert!(matches!(
        bs.start_image_call(1),
        Err(Fatal::EntryAbsent(Op::StartImage))
    ));
    assert!(matches!(
        bs.exit_boot_services_call(1, 0),
        Err(Fatal::EntryAbsent(Op::ExitBootServices))
    ));
    assert!(matches!(
        bs.calculate_crc_32_call(0, 0),
        Err(Fatal::EntryAbsent(Op::CalculateCrc32))
    ));
}
