//! Image services: loading, starting and unloading images, and the
//! privileged exit calls.
//!
//! An image is loaded from a device path or from a source buffer and
//! started by handle.  A failed start may carry a pool buffer of
//! diagnostic exit data, scoped like every other variable-length result.
//! The exit-boot-services call is this layer's terminal call: it demands
//! the freshness key of the current memory map, and after it succeeds the
//! surrounding system must treat the dispatch-table handle as permanently
//! invalid — a contract this layer states but cannot enforce.

use vstd::prelude::*;

use crate::fatal::{Fatal, Op};
use crate::memory::PoolBuffer;
use crate::status::{is_error_code, Status};
use crate::table::{planned, StandardBootServices};

verus! {

/// The raw arguments of a load-image call.
#[derive(Clone, Copy, PartialEq, Eq, Structural, Debug)]
pub struct LoadImageCall {
    /// The address of the table entry to call.
    pub entry: u64,
    /// Whether the request comes from the boot manager's default policy.
    pub boot_policy: bool,
    /// The image requesting the load.
    pub parent_image_handle: usize,
    /// The address of the device path to load from, or null.
    pub device_path: usize,
    /// Whether a source buffer is supplied; without one the entry is
    /// passed a null buffer and loads from the device path.
    pub has_source_buffer: bool,
    /// The source buffer's byte length, or zero without one.
    pub source_size: usize,
}

/// The raw arguments of a start-image call.
#[derive(Clone, Copy, PartialEq, Eq, Structural, Debug)]
pub struct StartImageCall {
    /// The address of the table entry to call.
    pub entry: u64,
    /// The loaded image to start.
    pub image_handle: usize,
}

/// The raw arguments of an unload-image call.
#[derive(Clone, Copy, PartialEq, Eq, Structural, Debug)]
pub struct UnloadImageCall {
    /// The address of the table entry to call.
    pub entry: u64,
    /// The loaded image to unload.
    pub image_handle: usize,
}

/// The raw arguments of an exit call.
#[derive(Clone, Copy, PartialEq, Eq, Structural, Debug)]
pub struct ExitCall {
    /// The address of the table entry to call.
    pub entry: u64,
    /// The image that is terminating.
    pub image_handle: usize,
    /// The raw status the image reports.
    pub exit_status: u64,
    /// The exit data's byte length, or zero without any.
    pub exit_data_size: usize,
    /// The exit data's address, or null without any.  Ownership of the
    /// buffer passes to the firmware with the call.
    pub exit_data: usize,
}

/// The raw arguments of the terminal exit-boot-services call.
#[derive(Clone, Copy, PartialEq, Eq, Structural, Debug)]
pub struct ExitBootServicesCall {
    /// The address of the table entry to call.
    pub entry: u64,
    /// The image performing the hand-off.
    pub image_handle: usize,
    /// The freshness key of the memory map; stale against any allocation
    /// made since the map was retrieved, and then refused.
    pub map_key: usize,
}

impl StandardBootServices {
    /// Plan a load-image call: a supplied source buffer is passed with
    /// its length, otherwise the entry loads from the device path.
    pub fn load_image_call(
        &self,
        boot_policy: bool,
        parent_image_handle: usize,
        device_path: usize,
        source_buffer: Option<&Vec<u8>>,
    ) -> (r: Result<LoadImageCall, Fatal>)
        ensures
            planned(
                *self,
                Op::LoadImage,
                r,
                (LoadImageCall {
                    entry: self.table_spec().entry_spec(Op::LoadImage),
                    boot_policy,
                    parent_image_handle,
                    device_path,
                    has_source_buffer: source_buffer is Some,
                    source_size: if source_buffer is Some {
                        source_buffer->0@.len() as usize
                    } else {
                        0usize
                    },
                }),
            ),
    {
        let entry = self.require_entry(Op::LoadImage)?;
        let (has_source_buffer, source_size): (bool, usize) = match source_buffer {
            Some(b) => (true, b.len()),
            None => (false, 0),
        };
        Ok(
            LoadImageCall {
                entry,
                boot_policy,
                parent_image_handle,
                device_path,
                has_source_buffer,
                source_size,
            },
        )
    }

    /// Plan a load from a source buffer, outside the boot manager's
    /// default policy.
    pub fn load_image_from_source_call(
        &self,
        parent_image_handle: usize,
        device_path: usize,
        source_buffer: &Vec<u8>,
    ) -> (r: Result<LoadImageCall, Fatal>)
        ensures
            planned(
                *self,
                Op::LoadImage,
                r,
                (LoadImageCall {
                    entry: self.table_spec().entry_spec(Op::LoadImage),
                    boot_policy: false,
                    parent_image_handle,
                    device_path,
                    has_source_buffer: true,
                    source_size: source_buffer@.len() as usize,
                }),
            ),
    {
        self.load_image_call(false, parent_image_handle, device_path, Some(source_buffer))
    }

    /// Plan a load from a file's device path, outside the boot manager's
    /// default policy; the path must be a real one.
    pub fn load_image_from_file_call(
        &self,
        parent_image_handle: usize,
        file_device_path: usize,
    ) -> (r: Result<LoadImageCall, Fatal>)
        requires
            file_device_path != 0,
        ensures
            planned(
                *self,
                Op::LoadImage,
                r,
                (LoadImageCall {
                    entry: self.table_spec().entry_spec(Op::LoadImage),
                    boot_policy: false,
                    parent_image_handle,
                    device_path: file_device_path,
                    has_source_buffer: false,
                    source_size: 0usize,
                }),
            ),
    {
        self.load_image_call(false, parent_image_handle, file_device_path, None)
    }

    /// Plan a start-image call.
    pub fn start_image_call(&self, image_handle: usize) -> (r: Result<StartImageCall, Fatal>)
        ensures
            planned(
                *self,
                Op::StartImage,
                r,
                (StartImageCall {
                    entry: self.table_spec().entry_spec(Op::StartImage),
                    image_handle,
                }),
            ),
    {
        let entry = self.require_entry(Op::StartImage)?;
        Ok(StartImageCall { entry, image_handle })
    }

    /// Plan an unload-image call.
    pub fn unload_image_call(&self, image_handle: usize) -> (r: Result<UnloadImageCall, Fatal>)
        ensures
            planned(
                *self,
                Op::UnloadImage,
                r,
                (UnloadImageCall {
                    entry: self.table_spec().entry_spec(Op::UnloadImage),
                    image_handle,
                }),
            ),
    {
        let entry = self.require_entry(Op::UnloadImage)?;
        Ok(UnloadImageCall { entry, image_handle })
    }

    /// Plan an exit call: the terminating image's status, and its exit
    /// data if it hands any over — the buffer's ownership passes to the
    /// firmware with the call, which is why the buffer is moved in.
    pub fn exit_call(
        &self,
        image_handle: usize,
        exit_status: Status,
        exit_data: Option<PoolBuffer>,
    ) -> (r: Result<ExitCall, Fatal>)
        ensures
            planned(
                *self,
                Op::Exit,
                r,
                (ExitCall {
                    entry: self.table_spec().entry_spec(Op::Exit),
                    image_handle,
                    exit_status: exit_status.code,
                    exit_data_size: if exit_data is Some {
                        exit_data->0.len
                    } else {
                        0usize
                    },
                    exit_data: if exit_data is Some {
                        exit_data->0.addr
                    } else {
                        0usize
                    },
                }),
            ),
    {
        let entry = self.require_entry(Op::Exit)?;
        let (exit_data_size, exit_data): (usize, usize) = match exit_data {
            Some(b) => (b.len, b.addr),
            None => (0, 0),
        };
        Ok(ExitCall { entry, image_handle, exit_status: exit_status.code, exit_data_size, exit_data })
    }

    /// Plan the terminal exit-boot-services call.
    pub fn exit_boot_services_call(&self, image_handle: usize, map_key: usize) -> (r: Result<
        ExitBootServicesCall,
        Fatal,
    >)
        ensures
            planned(
                *self,
                Op::ExitBootServices,
                r,
                (ExitBootServicesCall {
                    entry: self.table_spec().entry_spec(Op::ExitBootServices),
                    image_handle,
                    map_key,
                }),
            ),
    {
        let entry = self.require_entry(Op::ExitBootServices)?;
        Ok(ExitBootServicesCall { entry, image_handle, map_key })
    }
}

/// Read a start-image outcome back.  Success carries nothing.  A failure
/// carries the status and — when the firmware wrote an exit-data buffer —
/// that buffer, scoped for release through the same table.
pub fn start_image_result(status: Status, exit_data_size: usize, exit_data: usize) -> (r: Result<
    (),
    (Status, Option<PoolBuffer>),
>)
    ensures
        !is_error_code(status.code) ==> r is Ok,
        is_error_code(status.code) && exit_data == 0 ==> r == Err::<(), (Status, Option<PoolBuffer>)>(
            (status, None),
        ),
        is_error_code(status.code) && exit_data != 0 ==> r == Err::<(), (Status, Option<PoolBuffer>)>(
            (status, Some(PoolBuffer { addr: exit_data, len: exit_data_size })),
        ),
{
    if status.is_error() {
        if exit_data == 0 {
            Err((status, None))
        } else {
            Err((status, Some(PoolBuffer::new(exit_data, exit_data_size))))
        }
    } else {
        Ok(())
    }
}

} // verus!
