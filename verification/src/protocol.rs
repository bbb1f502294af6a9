//! Protocols and handles: installing, locating, opening and enumerating
//! interfaces on opaque firmware handles.
//!
//! A protocol identity binds a well-known identifier to an interface
//! shape.  An indicator protocol declares the empty shape: its interface
//! pointer is null by convention, on install and on lookup alike, and a
//! lookup that finds one reports presence without an interface —
//! distinctly from finding nothing.  Handles are opaque: this layer only
//! passes them through.  The enumerating calls follow the size-discovery
//! protocol and hand their results back as a pool buffer and a count.

use vstd::prelude::*;

use crate::fatal::{Fatal, Op};
use crate::guid::{fields_hi, fields_lo, Guid};
use crate::status::{is_error_code, Status};
use crate::table::{planned, StandardBootServices};

verus! {

/// The byte size of an opaque handle in the firmware's word.
pub const HANDLE_SIZE: usize = 8;

/// A protocol identity: a well-known identifier bound to an interface
/// shape.  An identity whose shape is empty is an indicator protocol:
/// presence alone carries its meaning and its interface pointer is always
/// null by convention.
pub trait Protocol {
    /// The identity's well-known identifier.
    spec fn guid_spec(&self) -> Guid;

    /// Whether the identity's interface shape is the empty one.
    spec fn null_interface_spec(&self) -> bool;

    /// The identity's well-known identifier.
    fn protocol_guid(&self) -> (g: Guid)
        ensures
            g == self.guid_spec(),
    ;

    /// Whether the identity's interface shape is the empty one.
    fn has_null_interface(&self) -> (r: bool)
        ensures
            r == self.null_interface_spec(),
    ;
}

/// The device-path protocol: the identity every path-bound device handle
/// exposes.  Its interface shape is a real structure, not the empty one.
#[derive(Clone, Copy, PartialEq, Eq, Structural, Debug)]
pub struct DevicePath {}

impl Protocol for DevicePath {
    open spec fn guid_spec(&self) -> Guid {
        Guid {
            lo: fields_lo(0x09576e91, 0x6d3f, 0x11d2),
            hi: fields_hi(0x8e, 0x39, seq![0x00u8, 0xa0u8, 0xc9u8, 0x69u8, 0x72u8, 0x3bu8]),
        }
    }

    open spec fn null_interface_spec(&self) -> bool {
        false
    }

    fn protocol_guid(&self) -> (g: Guid) {
        let node: [u8; 6] = [0x00, 0xa0, 0xc9, 0x69, 0x72, 0x3b];
        let g = Guid::from_fields(0x09576e91, 0x6d3f, 0x11d2, 0x8e, 0x39, &node);
        proof {
            assert(node@ =~= seq![0x00u8, 0xa0u8, 0xc9u8, 0x69u8, 0x72u8, 0x3bu8]);
        }
        g
    }

    fn has_null_interface(&self) -> (r: bool) {
        false
    }
}

/// A presence-only protocol identity: the identifier carries the whole
/// meaning and the interface shape is the empty one, so its interface
/// pointer is always null by convention.
#[derive(Clone, Copy, PartialEq, Eq, Structural, Debug)]
pub struct IndicatorProtocol {
    /// The identity's well-known identifier.
    pub guid: Guid,
}

impl Protocol for IndicatorProtocol {
    open spec fn guid_spec(&self) -> Guid {
        self.guid
    }

    open spec fn null_interface_spec(&self) -> bool {
        true
    }

    fn protocol_guid(&self) -> (g: Guid) {
        self.guid
    }

    fn has_null_interface(&self) -> (r: bool) {
        true
    }
}

/// The token returned when registering interest in future installations
/// of a protocol: an opaque lookup key, owning nothing.
#[derive(Clone, Copy, PartialEq, Eq, Structural, Debug)]
pub struct Registration {
    /// The key's raw value.
    pub addr: usize,
}

/// What a handle search matches.
#[derive(Clone, Copy, PartialEq, Eq, Structural, Debug)]
pub enum HandleSearchType {
    /// Every handle.
    AllHandles,
    /// The handles recorded under a registration key since it was last
    /// consumed.
    ByRegisterNotify(Registration),
    /// The handles exposing the given protocol.
    ByProtocol(Guid),
}

impl HandleSearchType {
    /// The raw search-type value the locating entries take.
    pub open spec fn raw_spec(self) -> u32 {
        match self {
            HandleSearchType::AllHandles => 0,
            HandleSearchType::ByRegisterNotify(_) => 1,
            HandleSearchType::ByProtocol(_) => 2,
        }
    }

    /// The protocol identifier the search passes: only a by-protocol
    /// search names one.
    pub open spec fn protocol_spec(self) -> Option<Guid> {
        match self {
            HandleSearchType::ByProtocol(g) => Some(g),
            _ => None,
        }
    }

    /// The raw search key the search passes: only a by-registration
    /// search carries one; the null key otherwise.
    pub open spec fn search_key_spec(self) -> usize {
        match self {
            HandleSearchType::ByRegisterNotify(r) => r.addr,
            _ => 0,
        }
    }

    /// The raw search-type value the locating entries take.
    pub fn raw(&self) -> (r: u32)
        ensures
            r == self.raw_spec(),
    {
        match self {
            HandleSearchType::AllHandles => 0,
            HandleSearchType::ByRegisterNotify(_) => 1,
            HandleSearchType::ByProtocol(_) => 2,
        }
    }

    /// The protocol identifier the search passes.
    pub fn protocol(&self) -> (r: Option<Guid>)
        ensures
            r == self.protocol_spec(),
    {
        match self {
            HandleSearchType::ByProtocol(g) => Some(*g),
            _ => None,
        }
    }

    /// The raw search key the search passes.
    pub fn search_key(&self) -> (r: usize)
        ensures
            r == self.search_key_spec(),
    {
        match self {
            HandleSearchType::ByRegisterNotify(r) => r.addr,
            _ => 0,
        }
    }
}

/// The raw arguments of an install-protocol-interface call.
#[derive(Clone, Copy, PartialEq, Eq, Structural, Debug)]
pub struct InstallProtocolCall {
    /// The address of the table entry to call.
    pub entry: u64,
    /// The handle to install on; zero asks the firmware to allocate a
    /// fresh handle, which it writes back here.
    pub handle: usize,
    /// The protocol identifier.
    pub guid: Guid,
    /// The interface pointer passed: null for an indicator protocol, the
    /// interface's address otherwise.
    pub interface: usize,
}

/// The raw arguments of an uninstall-protocol-interface call.
#[derive(Clone, Copy, PartialEq, Eq, Structural, Debug)]
pub struct UninstallProtocolCall {
    /// The address of the table entry to call.
    pub entry: u64,
    /// The handle to uninstall from.
    pub handle: usize,
    /// The protocol identifier.
    pub guid: Guid,
    /// The interface pointer passed: null for an indicator protocol, the
    /// interface's address otherwise.
    pub interface: usize,
}

/// The raw arguments of a reinstall-protocol-interface call.
#[derive(Clone, Copy, PartialEq, Eq, Structural, Debug)]
pub struct ReinstallProtocolCall {
    /// The address of the table entry to call.
    pub entry: u64,
    /// The handle carrying the interface.
    pub handle: usize,
    /// The protocol identifier.
    pub guid: Guid,
    /// The outgoing interface pointer; null for an indicator protocol.
    pub old_interface: usize,
    /// The incoming interface pointer; null for an indicator protocol —
    /// the two agree on nullness because they share the shape.
    pub new_interface: usize,
}

/// The raw arguments of a register-protocol-notify call.
#[derive(Clone, Copy, PartialEq, Eq, Structural, Debug)]
pub struct RegisterProtocolNotifyCall {
    /// The address of the table entry to call.
    pub entry: u64,
    /// The protocol identifier to watch.
    pub guid: Guid,
    /// The event to signal on each installation.
    pub event: usize,
}

/// The raw arguments of a handle-search call: locate-handle and
/// locate-handle-buffer share this marshalling.
#[derive(Clone, Copy, PartialEq, Eq, Structural, Debug)]
pub struct HandleSearchCall {
    /// The address of the table entry to call.
    pub entry: u64,
    /// The raw search type.
    pub search_type: u32,
    /// The protocol identifier, for a by-protocol search; the entry is
    /// passed null otherwise.
    pub protocol: Option<Guid>,
    /// The raw search key, for a by-registration search; null otherwise.
    pub search_key: usize,
}

/// The raw arguments of a handle-protocol call.
#[derive(Clone, Copy, PartialEq, Eq, Structural, Debug)]
pub struct HandleProtocolCall {
    /// The address of the table entry to call.
    pub entry: u64,
    /// The handle to query.
    pub handle: usize,
    /// The protocol identifier.
    pub guid: Guid,
}

/// The raw arguments of a locate-device-path call.
#[derive(Clone, Copy, PartialEq, Eq, Structural, Debug)]
pub struct LocateDevicePathCall {
    /// The address of the table entry to call.
    pub entry: u64,
    /// The protocol identifier.
    pub guid: Guid,
    /// The address of the caller's device-path cursor, which the
    /// firmware advances past the matched device.
    pub device_path: usize,
}

/// The raw arguments of an open-protocol call.
#[derive(Clone, Copy, PartialEq, Eq, Structural, Debug)]
pub struct OpenProtocolCall {
    /// The address of the table entry to call.
    pub entry: u64,
    /// The handle to open on.
    pub handle: usize,
    /// The protocol identifier.
    pub guid: Guid,
    /// The agent opening the protocol.
    pub agent_handle: usize,
    /// The controller on whose behalf it opens.
    pub controller_handle: usize,
    /// The raw open attributes.
    pub attribute: u32,
}

/// The raw arguments of a close-protocol call.
#[derive(Clone, Copy, PartialEq, Eq, Structural, Debug)]
pub struct CloseProtocolCall {
    /// The address of the table entry to call.
    pub entry: u64,
    /// The handle the protocol was opened on.
    pub handle: usize,
    /// The protocol identifier.
    pub guid: Guid,
    /// The agent that opened it.
    pub agent_handle: usize,
    /// The controller on whose behalf it was opened.
    pub controller_handle: usize,
}

/// The raw arguments of an open-protocol-information call.
#[derive(Clone, Copy, PartialEq, Eq, Structural, Debug)]
pub struct OpenProtocolInformationCall {
    /// The address of the table entry to call.
    pub entry: u64,
    /// The handle to report on.
    pub handle: usize,
    /// The protocol identifier.
    pub guid: Guid,
}

/// The raw arguments of a protocols-per-handle call.
#[derive(Clone, Copy, PartialEq, Eq, Structural, Debug)]
pub struct ProtocolsPerHandleCall {
    /// The address of the table entry to call.
    pub entry: u64,
    /// The handle to enumerate.
    pub handle: usize,
}

/// The raw arguments of a locate-protocol call.
#[derive(Clone, Copy, PartialEq, Eq, Structural, Debug)]
pub struct LocateProtocolCall {
    /// The address of the table entry to call.
    pub entry: u64,
    /// The protocol identifier.
    pub guid: Guid,
    /// The registration key narrowing the search, or null for none.
    pub registration: usize,
}

/// The raw arguments of a connect-controller call.
#[derive(Debug)]
pub struct ConnectControllerCall {
    /// The address of the table entry to call.
    pub entry: u64,
    /// The controller to connect.
    pub controller_handle: usize,
    /// The ordered driver handles to try, with the null terminator the
    /// firmware requires appended; empty when the firmware is to choose.
    pub driver_image_handles: Vec<usize>,
    /// Whether the entry is passed a null driver list instead of the
    /// handles: exactly when the caller supplied none.
    pub pass_null_list: bool,
    /// The address of the remaining device path, or null.
    pub remaining_device_path: usize,
    /// Whether to connect the full hierarchy below the controller.
    pub recursive: bool,
}

/// The raw arguments of a disconnect-controller call.
#[derive(Clone, Copy, PartialEq, Eq, Structural, Debug)]
pub struct DisconnectControllerCall {
    /// The address of the table entry to call.
    pub entry: u64,
    /// The controller to disconnect.
    pub controller_handle: usize,
    /// The driver to disconnect, or null for all drivers.
    pub driver_image_handle: usize,
    /// The child to disconnect, or null for all children.
    pub child_handle: usize,
}

impl StandardBootServices {
    /// Plan an install-protocol-interface call: an indicator protocol
    /// passes the null interface pointer, any other the interface's
    /// address; without a handle the firmware allocates one.
    pub fn install_protocol_interface_call<P: Protocol>(
        &self,
        handle: Option<usize>,
        protocol: &P,
        interface_addr: usize,
    ) -> (r: Result<InstallProtocolCall, Fatal>)
        ensures
            planned(
                *self,
                Op::InstallProtocolInterface,
                r,
                (InstallProtocolCall {
                    entry: self.table_spec().entry_spec(Op::InstallProtocolInterface),
                    handle: if handle is Some {
                        handle->0
                    } else {
                        0usize
                    },
                    guid: protocol.guid_spec(),
                    interface: if protocol.null_interface_spec() {
                        0usize
                    } else {
                        interface_addr
                    },
                }),
            ),
    {
        let entry = self.require_entry(Op::InstallProtocolInterface)?;
        let interface: usize = if protocol.has_null_interface() {
            0
        } else {
            interface_addr
        };
        let handle: usize = match handle {
            Some(h) => h,
            None => 0,
        };
        Ok(InstallProtocolCall { entry, handle, guid: protocol.protocol_guid(), interface })
    }

    /// Plan an uninstall-protocol-interface call, with the same
    /// null-versus-typed interface branching as the install.
    pub fn uninstall_protocol_interface_call<P: Protocol>(
        &self,
        handle: usize,
        protocol: &P,
        interface_addr: usize,
    ) -> (r: Result<UninstallProtocolCall, Fatal>)
        ensures
            planned(
                *self,
                Op::UninstallProtocolInterface,
                r,
                (UninstallProtocolCall {
                    entry: self.table_spec().entry_spec(Op::UninstallProtocolInterface),
                    handle,
                    guid: protocol.guid_spec(),
                    interface: if protocol.null_interface_spec() {
                        0usize
                    } else {
                        interface_addr
                    },
                }),
            ),
    {
        let entry = self.require_entry(Op::UninstallProtocolInterface)?;
        let interface: usize = if protocol.has_null_interface() {
            0
        } else {
            interface_addr
        };
        Ok(UninstallProtocolCall { entry, handle, guid: protocol.protocol_guid(), interface })
    }

    /// Plan a reinstall-protocol-interface call: for an indicator
    /// protocol both the old and the new pointer are nulled together —
    /// they share the shape — otherwise both addresses pass through.
    pub fn reinstall_protocol_interface_call<P: Protocol>(
        &self,
        handle: usize,
        protocol: &P,
        old_interface_addr: usize,
        new_interface_addr: usize,
    ) -> (r: Result<ReinstallProtocolCall, Fatal>)
        ensures
            planned(
                *self,
                Op::ReinstallProtocolInterface,
                r,
                (ReinstallProtocolCall {
                    entry: self.table_spec().entry_spec(Op::ReinstallProtocolInterface),
                    handle,
                    guid: protocol.guid_spec(),
                    old_interface: if protocol.null_interface_spec() {
                        0usize
                    } else {
                        old_interface_addr
                    },
                    new_interface: if protocol.null_interface_spec() {
                        0usize
                    } else {
                        new_interface_addr
                    },
                }),
            ),
    {
        let entry = self.require_entry(Op::ReinstallProtocolInterface)?;
        let old_interface: usize;
        let new_interface: usize;
        if protocol.has_null_interface() {
            old_interface = 0;
            new_interface = 0;
        } else {
            old_interface = old_interface_addr;
            new_interface = new_interface_addr;
        }
        Ok(
            ReinstallProtocolCall {
                entry,
                handle,
                guid: protocol.protocol_guid(),
                old_interface,
                new_interface,
            },
        )
    }

    /// Plan a register-protocol-notify call.
    pub fn register_protocol_notify_call(&self, protocol: &Guid, event: usize) -> (r: Result<
        RegisterProtocolNotifyCall,
        Fatal,
    >)
        ensures
            planned(
                *self,
                Op::RegisterProtocolNotify,
                r,
                (RegisterProtocolNotifyCall {
                    entry: self.table_spec().entry_spec(Op::RegisterProtocolNotify),
                    guid: *protocol,
                    event,
                }),
            ),
    {
        let entry = self.require_entry(Op::RegisterProtocolNotify)?;
        Ok(RegisterProtocolNotifyCall { entry, guid: *protocol, event })
    }

    /// Plan a locate-handle call: a by-protocol search passes its
    /// identifier, a by-registration search its key, and every other
    /// argument of theirs is null.
    pub fn locate_handle_call(&self, search_type: HandleSearchType) -> (r: Result<
        HandleSearchCall,
        Fatal,
    >)
        ensures
            planned(
                *self,
                Op::LocateHandle,
                r,
                (HandleSearchCall {
                    entry: self.table_spec().entry_spec(Op::LocateHandle),
                    search_type: search_type.raw_spec(),
                    protocol: search_type.protocol_spec(),
                    search_key: search_type.search_key_spec(),
                }),
            ),
    {
        let entry = self.require_entry(Op::LocateHandle)?;
        Ok(
            HandleSearchCall {
                entry,
                search_type: search_type.raw(),
                protocol: search_type.protocol(),
                search_key: search_type.search_key(),
            },
        )
    }

    /// Plan a locate-handle-buffer call, marshalled as the locate-handle
    /// search is.
    pub fn locate_handle_buffer_call(&self, search_type: HandleSearchType) -> (r: Result<
        HandleSearchCall,
        Fatal,
    >)
        ensures
            planned(
                *self,
                Op::LocateHandleBuffer,
                r,
                (HandleSearchCall {
                    entry: self.table_spec().entry_spec(Op::LocateHandleBuffer),
                    search_type: search_type.raw_spec(),
                    protocol: search_type.protocol_spec(),
                    search_key: search_type.search_key_spec(),
                }),
            ),
    {
        let entry = self.require_entry(Op::LocateHandleBuffer)?;
        Ok(
            HandleSearchCall {
                entry,
                search_type: search_type.raw(),
                protocol: search_type.protocol(),
                search_key: search_type.search_key(),
            },
        )
    }

    /// Plan a handle-protocol call.
    pub fn handle_protocol_call<P: Protocol>(&self, handle: usize, protocol: &P) -> (r: Result<
        HandleProtocolCall,
        Fatal,
    >)
        ensures
            planned(
                *self,
                Op::HandleProtocol,
                r,
                (HandleProtocolCall {
                    entry: self.table_spec().entry_spec(Op::HandleProtocol),
                    handle,
                    guid: protocol.guid_spec(),
                }),
            ),
    {
        let entry = self.require_entry(Op::HandleProtocol)?;
        Ok(HandleProtocolCall { entry, handle, guid: protocol.protocol_guid() })
    }

    /// Plan a locate-device-path call.
    pub fn locate_device_path_call(&self, protocol: &Guid, device_path: usize) -> (r: Result<
        LocateDevicePathCall,
        Fatal,
    >)
        ensures
            planned(
                *self,
                Op::LocateDevicePath,
                r,
                (LocateDevicePathCall {
                    entry: self.table_spec().entry_spec(Op::LocateDevicePath),
                    guid: *protocol,
                    device_path,
                }),
            ),
    {
        let entry = self.require_entry(Op::LocateDevicePath)?;
        Ok(LocateDevicePathCall { entry, guid: *protocol, device_path })
    }

    /// Plan an open-protocol call.
    pub fn open_protocol_call<P: Protocol>(
        &self,
        handle: usize,
        protocol: &P,
        agent_handle: usize,
        controller_handle: usize,
        attribute: u32,
    ) -> (r: Result<OpenProtocolCall, Fatal>)
        ensures
            planned(
                *self,
                Op::OpenProtocol,
                r,
                (OpenProtocolCall {
                    entry: self.table_spec().entry_spec(Op::OpenProtocol),
                    handle,
                    guid: protocol.guid_spec(),
                    agent_handle,
                    controller_handle,
                    attribute,
                }),
            ),
    {
        let entry = self.require_entry(Op::OpenProtocol)?;
        Ok(
            OpenProtocolCall {
                entry,
                handle,
                guid: protocol.protocol_guid(),
                agent_handle,
                controller_handle,
                attribute,
            },
        )
    }

    /// Plan a close-protocol call.
    pub fn close_protocol_call(
        &self,
        handle: usize,
        protocol: &Guid,
        agent_handle: usize,
        controller_handle: usize,
    ) -> (r: Result<CloseProtocolCall, Fatal>)
        ensures
            planned(
                *self,
                Op::CloseProtocol,
                r,
                (CloseProtocolCall {
                    entry: self.table_spec().entry_spec(Op::CloseProtocol),
                    handle,
                    guid: *protocol,
                    agent_handle,
                    controller_handle,
                }),
            ),
    {
        let entry = self.require_entry(Op::CloseProtocol)?;
        Ok(CloseProtocolCall { entry, handle, guid: *protocol, agent_handle, controller_handle })
    }

    /// Plan an open-protocol-information call.
    pub fn open_protocol_information_call(&self, handle: usize, protocol: &Guid) -> (r: Result<
        OpenProtocolInformationCall,
        Fatal,
    >)
        ensures
            planned(
                *self,
                Op::OpenProtocolInformation,
                r,
                (OpenProtocolInformationCall {
                    entry: self.table_spec().entry_spec(Op::OpenProtocolInformation),
                    handle,
                    guid: *protocol,
                }),
            ),
    {
        let entry = self.require_entry(Op::OpenProtocolInformation)?;
        Ok(OpenProtocolInformationCall { entry, handle, guid: *protocol })
    }

    /// Plan a protocols-per-handle call.
    pub fn protocols_per_handle_call(&self, handle: usize) -> (r: Result<
        ProtocolsPerHandleCall,
        Fatal,
    >)
        ensures
            planned(
                *self,
                Op::ProtocolsPerHandle,
                r,
                (ProtocolsPerHandleCall {
                    entry: self.table_spec().entry_spec(Op::ProtocolsPerHandle),
                    handle,
                }),
            ),
    {
        let entry = self.require_entry(Op::ProtocolsPerHandle)?;
        Ok(ProtocolsPerHandleCall { entry, handle })
    }

    /// Plan a locate-protocol call; a registration key narrows the
    /// search where one is given.
    pub fn locate_protocol_call<P: Protocol>(
        &self,
        protocol: &P,
        registration: Option<Registration>,
    ) -> (r: Result<LocateProtocolCall, Fatal>)
        ensures
            planned(
                *self,
                Op::LocateProtocol,
                r,
                (LocateProtocolCall {
                    entry: self.table_spec().entry_spec(Op::LocateProtocol),
                    guid: protocol.guid_spec(),
                    registration: if registration is Some {
                        registration->0.addr
                    } else {
                        0usize
                    },
                }),
            ),
    {
        let entry = self.require_entry(Op::LocateProtocol)?;
        let registration: usize = match registration {
            Some(r) => r.addr,
            None => 0,
        };
        Ok(LocateProtocolCall { entry, guid: protocol.protocol_guid(), registration })
    }

    /// Plan a connect-controller call: the firmware requires the driver
    /// list to end with a null entry, so one is appended; an empty list
    /// is passed as the null list instead, letting the firmware choose.
    pub fn connect_controller_call(
        &self,
        controller_handle: usize,
        driver_image_handles: Vec<usize>,
        remaining_device_path: usize,
        recursive: bool,
    ) -> (r: Result<ConnectControllerCall, Fatal>)
        ensures
            !self.initialized() ==> r is Err && r->Err_0 == Fatal::NotInitialized,
            self.initialized() && self.table_spec().entry_spec(Op::ConnectController) == 0 ==> r
                is Err && r->Err_0 == Fatal::EntryAbsent(Op::ConnectController),
            self.initialized() && self.table_spec().entry_spec(Op::ConnectController) != 0 ==> r
                is Ok && ({
                let c = r->Ok_0;
                &&& c.entry == self.table_spec().entry_spec(Op::ConnectController)
                &&& c.controller_handle == controller_handle
                &&& c.pass_null_list == (driver_image_handles@.len() == 0)
                &&& c.driver_image_handles@ == if driver_image_handles@.len() == 0 {
                    driver_image_handles@
                } else {
                    driver_image_handles@.push(0usize)
                }
                &&& c.remaining_device_path == remaining_device_path
                &&& c.recursive == recursive
            }),
    {
        let entry = self.require_entry(Op::ConnectController)?;
        let mut driver_image_handles = driver_image_handles;
        let pass_null_list = driver_image_handles.len() == 0;
        if !pass_null_list {
            driver_image_handles.push(0);
        }
        Ok(
            ConnectControllerCall {
                entry,
                controller_handle,
                driver_image_handles,
                pass_null_list,
                remaining_device_path,
                recursive,
            },
        )
    }

    /// Plan a disconnect-controller call: an absent driver or child
    /// means all of them, passed as null.
    pub fn disconnect_controller_call(
        &self,
        controller_handle: usize,
        driver_image_handle: Option<usize>,
        child_handle: Option<usize>,
    ) -> (r: Result<DisconnectControllerCall, Fatal>)
        ensures
            planned(
                *self,
                Op::DisconnectController,
                r,
                (DisconnectControllerCall {
                    entry: self.table_spec().entry_spec(Op::DisconnectController),
                    controller_handle,
                    driver_image_handle: if driver_image_handle is Some {
                        driver_image_handle->0
                    } else {
                        0usize
                    },
                    child_handle: if child_handle is Some {
                        child_handle->0
                    } else {
                        0usize
                    },
                }),
            ),
    {
        let entry = self.require_entry(Op::DisconnectController)?;
        let driver_image_handle: usize = match driver_image_handle {
            Some(h) => h,
            None => 0,
        };
        let child_handle: usize = match child_handle {
            Some(h) => h,
            None => 0,
        };
        Ok(
            DisconnectControllerCall {
                entry,
                controller_handle,
                driver_image_handle,
                child_handle,
            },
        )
    }
}

/// What a locate-protocol lookup concluded, once the firmware answered
/// without error.
#[derive(Clone, Copy, PartialEq, Eq, Structural, Debug)]
pub enum LocateOutcome {
    /// A typed interface was found at this address.
    Found(usize),
    /// An indicator protocol is present: there is an installation, and
    /// by convention it has no interface.
    PresentNoInterface,
    /// The identity names a real interface shape but the firmware
    /// returned the null pointer: nothing usable is present.
    Absent,
}

/// Read a locate-protocol outcome back.  An error status propagates.
/// Otherwise an indicator protocol reports presence without an interface
/// — a conclusion distinct from [`LocateOutcome::Absent`], which is owed
/// exactly when a real-shaped identity came back with the null pointer.
pub fn locate_protocol_result(null_shape: bool, status: Status, interface: usize) -> (r: Result<
    LocateOutcome,
    Status,
>)
    ensures
        is_error_code(status.code) ==> r == Err::<LocateOutcome, Status>(status),
        !is_error_code(status.code) && null_shape ==> r == Ok::<LocateOutcome, Status>(
            LocateOutcome::PresentNoInterface,
        ),
        !is_error_code(status.code) && !null_shape && interface == 0 ==> r == Ok::<
            LocateOutcome,
            Status,
        >(LocateOutcome::Absent),
        !is_error_code(status.code) && !null_shape && interface != 0 ==> r == Ok::<
            LocateOutcome,
            Status,
        >(LocateOutcome::Found(interface)),
{
    if status.is_error() {
        Err(status)
    } else if null_shape {
        Ok(LocateOutcome::PresentNoInterface)
    } else if interface == 0 {
        Ok(LocateOutcome::Absent)
    } else {
        Ok(LocateOutcome::Found(interface))
    }
}

/// Read an open-protocol outcome back: on success the interface address,
/// or nothing when the firmware wrote the null pointer.
pub fn open_protocol_result(status: Status, interface: usize) -> (r: Result<Option<usize>, Status>)
    ensures
        is_error_code(status.code) ==> r == Err::<Option<usize>, Status>(status),
        !is_error_code(status.code) && interface == 0 ==> r == Ok::<Option<usize>, Status>(None),
        !is_error_code(status.code) && interface != 0 ==> r == Ok::<Option<usize>, Status>(
            Some(interface),
        ),
{
    if status.is_error() {
        Err(status)
    } else if interface == 0 {
        Ok(None)
    } else {
        Ok(Some(interface))
    }
}

/// Read a register-protocol-notify outcome back: the written key becomes
/// the registration token.
pub fn register_protocol_notify_result(status: Status, registration: usize) -> (r: Result<
    Registration,
    Status,
>)
    ensures
        is_error_code(status.code) ==> r == Err::<Registration, Status>(status),
        !is_error_code(status.code) ==> r == Ok::<Registration, Status>(
            (Registration { addr: registration }),
        ),
{
    if status.is_error() {
        Err(status)
    } else {
        Ok(Registration { addr: registration })
    }
}

/// Read a locate-handle outcome back: on success the written byte size
/// holds whole handles, and their count is handed out.
pub fn locate_handle_result(status: Status, buffer_size: usize) -> (r: Result<usize, Status>)
    ensures
        is_error_code(status.code) ==> r == Err::<usize, Status>(status),
        !is_error_code(status.code) ==> r == Ok::<usize, Status>(
            ((buffer_size / HANDLE_SIZE) as usize),
        ),
{
    if status.is_error() {
        Err(status)
    } else {
        Ok(buffer_size / HANDLE_SIZE)
    }
}

/// Read back an outcome that hands out a firmware-allocated buffer and
/// an element count — locate-handle-buffer, protocols-per-handle and
/// open-protocol-information all do: the pair passes through on success.
pub fn buffer_count_result(status: Status, buffer: usize, count: usize) -> (r: Result<
    (usize, usize),
    Status,
>)
    ensures
        is_error_code(status.code) ==> r == Err::<(usize, usize), Status>(status),
        !is_error_code(status.code) ==> r == Ok::<(usize, usize), Status>((buffer, count)),
{
    if status.is_error() {
        Err(status)
    } else {
        Ok((buffer, count))
    }
}

} // verus!
