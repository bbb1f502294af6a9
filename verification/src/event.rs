//! Events and timers: opaque firmware objects that can be signaled,
//! waited on, polled, or armed as timers, optionally carrying a notify
//! callback with a type-erased context.
//!
//! Creating an event encodes the caller's context through the
//! static-pointer abstraction; the type parameter of the context fixes the
//! type its notify callback must recover it as.  Every other operation is
//! a thin, checked call: here each is planned as the exact raw values the
//! table entry takes, and its raw outcome is read back into a result.

use vstd::prelude::*;

use crate::fatal::{Fatal, Op};
use crate::guid::Guid;
use crate::static_ptr::StaticPtr;
use crate::status::{is_error_code, Status};
use crate::table::{planned, StandardBootServices};
use crate::tpl::Tpl;

verus! {

/// Event type bit: the event is a timer.
pub const EVT_TIMER: u32 = 0x8000_0000;

/// Event type bit: the event outlives the hand-off to runtime.
pub const EVT_RUNTIME: u32 = 0x4000_0000;

/// Event type bit: the notify function runs on waiting.
pub const EVT_NOTIFY_WAIT: u32 = 0x0000_0100;

/// Event type bit: the notify function runs on signaling.
pub const EVT_NOTIFY_SIGNAL: u32 = 0x0000_0200;

/// Event type: signaled when the privileged hand-off call succeeds.
pub const EVT_SIGNAL_EXIT_BOOT_SERVICES: u32 = 0x0000_0201;

/// Event type: signaled when the address map changes.
pub const EVT_SIGNAL_VIRTUAL_ADDRESS_CHANGE: u32 = 0x6000_0202;

/// The type of an event, as the raw bit set the firmware takes.
#[derive(Clone, Copy, PartialEq, Eq, Structural, Debug)]
pub struct EventType {
    pub bits: u32,
}

impl EventType {
    /// An event type from its raw bits.
    pub fn of(bits: u32) -> (t: EventType)
        ensures
            t.bits == bits,
    {
        EventType { bits }
    }

    /// The combination of two event types: both bit sets.
    pub fn union(self, other: EventType) -> (t: EventType)
        ensures
            t.bits == self.bits | other.bits,
    {
        EventType { bits: self.bits | other.bits }
    }
}

/// How a timer event is armed.
#[derive(Clone, Copy, PartialEq, Eq, Structural, Debug)]
pub enum EventTimerType {
    /// Cancel the timer.
    Cancel,
    /// Fire repeatedly, every trigger period.
    Periodic,
    /// Fire once, after the trigger time.
    Relative,
}

impl EventTimerType {
    /// The raw value the set-timer entry takes for this arming mode.
    pub open spec fn raw_spec(self) -> u32 {
        match self {
            EventTimerType::Cancel => 0,
            EventTimerType::Periodic => 1,
            EventTimerType::Relative => 2,
        }
    }

    /// The raw value the set-timer entry takes for this arming mode.
    pub fn raw(&self) -> (r: u32)
        ensures
            r == self.raw_spec(),
    {
        match self {
            EventTimerType::Cancel => 0,
            EventTimerType::Periodic => 1,
            EventTimerType::Relative => 2,
        }
    }
}

/// The raw arguments of a create-event call.
#[derive(Clone, Copy, PartialEq, Eq, Structural, Debug)]
pub struct CreateEventCall {
    /// The address of the table entry to call.
    pub entry: u64,
    /// The raw event type bits.
    pub event_type: u32,
    /// The raw priority level the notify callback runs at.
    pub notify_tpl: usize,
    /// Whether a notify callback is registered; without one the entry is
    /// passed a null callback.
    pub has_notify_function: bool,
    /// The context address the event record stores, produced by the
    /// static-pointer encoding of the caller's context.
    pub notify_context: usize,
    /// Whether the encoding transferred ownership of the context to the
    /// event record: true exactly for owned contexts, which the caller
    /// must later recover through the matching type.
    pub context_owned: bool,
}

/// The raw arguments of a create-event-in-group call.
#[derive(Clone, Copy, PartialEq, Eq, Structural, Debug)]
pub struct CreateEventExCall {
    /// The address of the table entry to call.
    pub entry: u64,
    /// The raw event type bits.
    pub event_type: u32,
    /// The raw priority level the notify callback runs at.
    pub notify_tpl: usize,
    /// Whether a notify callback is registered.
    pub has_notify_function: bool,
    /// The context address the event record stores.
    pub notify_context: usize,
    /// Whether the encoding transferred ownership of the context.
    pub context_owned: bool,
    /// The group the event is scoped to.
    pub event_group: Guid,
}

/// The raw arguments of a call that takes one event: close, signal, or
/// poll it.
#[derive(Clone, Copy, PartialEq, Eq, Structural, Debug)]
pub struct EventOpCall {
    /// The address of the table entry to call.
    pub entry: u64,
    /// The event's opaque handle.
    pub event: usize,
}

/// The raw arguments of a wait-for-event call.
#[derive(Clone, Copy, PartialEq, Eq, Structural, Debug)]
pub struct WaitForEventCall {
    /// The address of the table entry to call.
    pub entry: u64,
    /// How many events the wait set holds; the entry reads that many
    /// handles from the caller's array.
    pub number_of_events: usize,
}

/// The raw arguments of a set-timer call.
#[derive(Clone, Copy, PartialEq, Eq, Structural, Debug)]
pub struct SetTimerCall {
    /// The address of the table entry to call.
    pub entry: u64,
    /// The timer event to arm.
    pub event: usize,
    /// The raw arming mode.
    pub timer_type: u32,
    /// The trigger time, in the firmware's 100-nanosecond units.
    pub trigger_time: u64,
}

impl StandardBootServices {
    /// Plan a create-event call: the context is erased to the address the
    /// event record will store, and its type parameter pins the type the
    /// notify callback must recover it as.  For an owned context,
    /// ownership moves into the planned call.
    pub fn create_event_call<T: StaticPtr>(
        &self,
        event_type: EventType,
        notify_tpl: Tpl,
        has_notify_function: bool,
        notify_context: T,
    ) -> (r: Result<CreateEventCall, Fatal>)
        requires
            notify_context.wf(),
        ensures
            planned(
                *self,
                Op::CreateEvent,
                r,
                (CreateEventCall {
                    entry: self.table_spec().entry_spec(Op::CreateEvent),
                    event_type: event_type.bits,
                    notify_tpl: notify_tpl.level,
                    has_notify_function,
                    notify_context: notify_context.raw_spec(),
                    context_owned: notify_context.owns_pointee(),
                }),
            ),
    {
        let entry = self.require_entry(Op::CreateEvent)?;
        let context_owned = notify_context.transfers_ownership();
        Ok(
            CreateEventCall {
                entry,
                event_type: event_type.bits,
                notify_tpl: notify_tpl.level,
                has_notify_function,
                notify_context: notify_context.into_raw(),
                context_owned,
            },
        )
    }

    /// Plan a create-event-in-group call: as create-event, with the group
    /// identifier passed through.
    pub fn create_event_ex_call<T: StaticPtr>(
        &self,
        event_type: EventType,
        notify_tpl: Tpl,
        has_notify_function: bool,
        notify_context: T,
        event_group: Guid,
    ) -> (r: Result<CreateEventExCall, Fatal>)
        requires
            notify_context.wf(),
        ensures
            planned(
                *self,
                Op::CreateEventEx,
                r,
                (CreateEventExCall {
                    entry: self.table_spec().entry_spec(Op::CreateEventEx),
                    event_type: event_type.bits,
                    notify_tpl: notify_tpl.level,
                    has_notify_function,
                    notify_context: notify_context.raw_spec(),
                    context_owned: notify_context.owns_pointee(),
                    event_group,
                }),
            ),
    {
        let entry = self.require_entry(Op::CreateEventEx)?;
        let context_owned = notify_context.transfers_ownership();
        Ok(
            CreateEventExCall {
                entry,
                event_type: event_type.bits,
                notify_tpl: notify_tpl.level,
                has_notify_function,
                notify_context: notify_context.into_raw(),
                context_owned,
                event_group,
            },
        )
    }

    /// Plan a close-event call.
    pub fn close_event_call(&self, event: usize) -> (r: Result<EventOpCall, Fatal>)
        ensures
            planned(
                *self,
                Op::CloseEvent,
                r,
                (EventOpCall { entry: self.table_spec().entry_spec(Op::CloseEvent), event }),
            ),
    {
        let entry = self.require_entry(Op::CloseEvent)?;
        Ok(EventOpCall { entry, event })
    }

    /// Plan a signal-event call.
    pub fn signal_event_call(&self, event: usize) -> (r: Result<EventOpCall, Fatal>)
        ensures
            planned(
                *self,
                Op::SignalEvent,
                r,
                (EventOpCall { entry: self.table_spec().entry_spec(Op::SignalEvent), event }),
            ),
    {
        let entry = self.require_entry(Op::SignalEvent)?;
        Ok(EventOpCall { entry, event })
    }

    /// Plan a check-event call: a non-blocking poll whose not-signaled
    /// outcome comes back as a distinguished error status.
    pub fn check_event_call(&self, event: usize) -> (r: Result<EventOpCall, Fatal>)
        ensures
            planned(
                *self,
                Op::CheckEvent,
                r,
                (EventOpCall { entry: self.table_spec().entry_spec(Op::CheckEvent), event }),
            ),
    {
        let entry = self.require_entry(Op::CheckEvent)?;
        Ok(EventOpCall { entry, event })
    }

    /// Plan a wait-for-event call over the caller's wait set: the entry is
    /// given the number of events and reads that many handles.
    pub fn wait_for_event_call(&self, events: &Vec<usize>) -> (r: Result<WaitForEventCall, Fatal>)
        ensures
            planned(
                *self,
                Op::WaitForEvent,
                r,
                (WaitForEventCall {
                    entry: self.table_spec().entry_spec(Op::WaitForEvent),
                    number_of_events: events@.len() as usize,
                }),
            ),
    {
        let entry = self.require_entry(Op::WaitForEvent)?;
        Ok(WaitForEventCall { entry, number_of_events: events.len() })
    }

    /// Plan a set-timer call.
    pub fn set_timer_call(
        &self,
        event: usize,
        timer_type: EventTimerType,
        trigger_time: u64,
    ) -> (r: Result<SetTimerCall, Fatal>)
        ensures
            planned(
                *self,
                Op::SetTimer,
                r,
                (SetTimerCall {
                    entry: self.table_spec().entry_spec(Op::SetTimer),
                    event,
                    timer_type: timer_type.raw_spec(),
                    trigger_time,
                }),
            ),
    {
        let entry = self.require_entry(Op::SetTimer)?;
        Ok(SetTimerCall { entry, event, timer_type: timer_type.raw(), trigger_time })
    }
}

/// Read a wait-for-event outcome back: on success the index the firmware
/// wrote — which event of the wait set signaled — is handed out unchanged;
/// an error status is propagated.
pub fn wait_for_event_result(status: Status, index: usize) -> (r: Result<usize, Status>)
    ensures
        r == if is_error_code(status.code) {
            Result::<usize, Status>::Err(status)
        } else {
            Result::<usize, Status>::Ok(index)
        },
{
    if status.is_error() {
        Err(status)
    } else {
        Ok(index)
    }
}

} // verus!
