use android_bridge::candidates::IceCandidate;
use android_bridge::error::BridgeError;

#[test]
fn null_result_error_is_distinct() {
    let null_result = BridgeError::NullConnectionObject;
    assert_eq!(null_result, BridgeError::NullConnectionObject);
    assert_ne!(null_result, BridgeError::RuntimeAttachFailed);
    assert_ne!(null_result, BridgeError::GlobalRefFailed);
    assert_ne!(null_result, BridgeError::ListBuildFailed);
    assert_ne!(
        null_result,
        BridgeError::MethodCallFailed(String::from("createConnection"))
    );
}

#[test]
fn resolution_error_names_target_and_method() {
    let error = BridgeError::StaticMethodFailed(
        String::from("org/signal/ringrtc/CallManager$CallEvent"),
        String::from("fromNativeIndex"),
        String::from("(I)Lorg/signal/ringrtc/CallManager$CallEvent;"),
    );
    match &error {
        BridgeError::StaticMethodFailed(class, method, signature) => {
            assert_eq!(class, "org/signal/ringrtc/CallManager$CallEvent");
            assert_eq!(method, "fromNativeIndex");
            assert_eq!(signature, "(I)Lorg/signal/ringrtc/CallManager$CallEvent;");
        }
        other => panic!("unexpected error: {:?}", other),
    }
}

#[test]
fn class_not_found_carries_the_requested_name() {
    let error = BridgeError::ClassNotFound(String::from("org/webrtc/IceCandidate"));
    match &error {
        BridgeError::ClassNotFound(name) => assert_eq!(name, "org/webrtc/IceCandidate"),
        other => panic!("unexpected error: {:?}", other),
    }
}

#[test]
fn ice_candidate_keeps_its_fields() {
    let candidate = IceCandidate::new(String::from("audio"), 0, String::from("candidate:1 1 UDP"));
    assert_eq!(candidate.sdp_mid, "audio");
    assert_eq!(candidate.sdp_mline_index, 0);
    assert_eq!(candidate.sdp, "candidate:1 1 UDP");
}

#[test]
fn ice_candidates_compare_by_contents() {
    let a = IceCandidate::new(String::from("audio"), 0, String::from("c1"));
    let b = IceCandidate::new(String::from("audio"), 0, String::from("c1"));
    let c = IceCandidate::new(String::from("video"), 1, String::from("c2"));
    assert_eq!(a, b);
    assert_ne!(a, c);
}
