use android_bridge::event::{ApplicationEvent, CallDirection, EVENT_COUNT};

const ALL_EVENTS: [ApplicationEvent; 12] = [
    ApplicationEvent::LocalRinging,
    ApplicationEvent::RemoteRinging,
    ApplicationEvent::LocalConnected,
    ApplicationEvent::RemoteConnected,
    ApplicationEvent::EndedLocalHangup,
    ApplicationEvent::EndedRemoteHangup,
    ApplicationEvent::EndedRemoteBusy,
    ApplicationEvent::EndedTimeout,
    ApplicationEvent::EndedSignalingFailure,
    ApplicationEvent::EndedConnectionFailure,
    ApplicationEvent::Reconnecting,
    ApplicationEvent::Reconnected,
];

#[test]
fn every_event_has_its_own_in_range_ordinal() {
    for (expected, event) in ALL_EVENTS.iter().enumerate() {
        let ordinal = event.ordinal();
        assert_eq!(ordinal, expected as i32);
        assert!(0 <= ordinal && ordinal < EVENT_COUNT);
    }
}

#[test]
fn event_ordinals_are_distinct() {
    for (i, a) in ALL_EVENTS.iter().enumerate() {
        for (j, b) in ALL_EVENTS.iter().enumerate() {
            if i != j {
                assert_ne!(a.ordinal(), b.ordinal());
            }
        }
    }
}

#[test]
fn event_count_matches_the_defined_events() {
    assert_eq!(ALL_EVENTS.len(), EVENT_COUNT as usize);
}

#[test]
fn direction_encodes_as_outgoing_flag() {
    assert!(CallDirection::OutGoing.is_outgoing());
    assert!(!CallDirection::InComing.is_outgoing());
}
