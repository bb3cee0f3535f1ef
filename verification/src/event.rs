//! Application events and call direction, and their boundary encodings.
//!
//! Enumeration values cross the boundary as small integers and are turned
//! into host-native enumeration values by an ordinal-lookup call on the host
//! side, so the host enumeration stays the single source of truth for its
//! own representation. Here each native event is mapped to its ordinal, and
//! the mapping is proved total, in range, and injective.

use vstd::prelude::*;

verus! {

/// How many application events are defined.
pub const EVENT_COUNT: i32 = 12;

/// An event of the call lifecycle that the native engine reports to the
/// host application.
#[derive(Clone, Copy, Debug, PartialEq, Eq, Structural)]
pub enum ApplicationEvent {
    LocalRinging,
    RemoteRinging,
    LocalConnected,
    RemoteConnected,
    EndedLocalHangup,
    EndedRemoteHangup,
    EndedRemoteBusy,
    EndedTimeout,
    EndedSignalingFailure,
    EndedConnectionFailure,
    Reconnecting,
    Reconnected,
}

/// Whether a call was placed by this side or by the remote side.
#[derive(Clone, Copy, Debug, PartialEq, Eq, Structural)]
pub enum CallDirection {
    OutGoing,
    InComing,
}

/// The ordinal under which an event is looked up in the host enumeration.
pub open spec fn event_ordinal(e: ApplicationEvent) -> i32 {
    match e {
        ApplicationEvent::LocalRinging => 0,
        ApplicationEvent::RemoteRinging => 1,
        ApplicationEvent::LocalConnected => 2,
        ApplicationEvent::RemoteConnected => 3,
        ApplicationEvent::EndedLocalHangup => 4,
        ApplicationEvent::EndedRemoteHangup => 5,
        ApplicationEvent::EndedRemoteBusy => 6,
        ApplicationEvent::EndedTimeout => 7,
        ApplicationEvent::EndedSignalingFailure => 8,
        ApplicationEvent::EndedConnectionFailure => 9,
        ApplicationEvent::Reconnecting => 10,
        ApplicationEvent::Reconnected => 11,
    }
}

impl ApplicationEvent {
    /// The small integer under which this event crosses the boundary.
    pub fn ordinal(&self) -> (r: i32)
        ensures
            r == event_ordinal(*self),
            0 <= r < EVENT_COUNT,
    {
        match *self {
            ApplicationEvent::LocalRinging => 0,
            ApplicationEvent::RemoteRinging => 1,
            ApplicationEvent::LocalConnected => 2,
            ApplicationEvent::RemoteConnected => 3,
            ApplicationEvent::EndedLocalHangup => 4,
            ApplicationEvent::EndedRemoteHangup => 5,
            ApplicationEvent::EndedRemoteBusy => 6,
            ApplicationEvent::EndedTimeout => 7,
            ApplicationEvent::EndedSignalingFailure => 8,
            ApplicationEvent::EndedConnectionFailure => 9,
            ApplicationEvent::Reconnecting => 10,
            ApplicationEvent::Reconnected => 11,
        }
    }
}

/// Every defined event has an ordinal inside the host enumeration's range.
pub proof fn lemma_event_ordinal_in_range(e: ApplicationEvent)
    ensures
        0 <= event_ordinal(e) < EVENT_COUNT,
{
}

/// Distinct events keep distinct ordinals: the ordinal lookup resolves each
/// defined event to its own host enumeration value.
pub proof fn lemma_event_ordinal_injective(a: ApplicationEvent, b: ApplicationEvent)
    requires
        event_ordinal(a) == event_ordinal(b),
    ensures
        a == b,
{
}

impl CallDirection {
    /// The boundary encoding of a direction: a native boolean that is true
    /// exactly for an outgoing call.
    pub fn is_outgoing(&self) -> (r: bool)
        ensures
            r == (*self is OutGoing),
    {
        match *self {
            CallDirection::OutGoing => true,
            CallDirection::InComing => false,
        }
    }
}

} // verus!
