use android_bridge::cache::ClassCache;
use android_bridge::error::BridgeError;

#[test]
fn empty_cache_reports_the_missing_type() {
    let cache = ClassCache::new();
    match cache.get_class(&String::from("org/webrtc/IceCandidate")) {
        Ok(_) => panic!("an empty cache must not resolve a descriptor"),
        Err(BridgeError::ClassNotFound(name)) => assert_eq!(name, "org/webrtc/IceCandidate"),
        Err(other) => panic!("unexpected error: {:?}", other),
    }
}

#[test]
fn empty_cache_contains_no_descriptor() {
    let cache = ClassCache::new();
    assert!(!cache.contains_class(&String::from("org/webrtc/IceCandidate")));
    assert!(!cache.contains_class(&String::from("org/signal/ringrtc/CallManager$CallEvent")));
}

#[test]
fn a_duplicate_of_an_empty_cache_is_empty() {
    let cache = ClassCache::new();
    let copy = cache.duplicate();
    match copy.get_class(&String::from("org/signal/ringrtc/CallManager$CallEvent")) {
        Ok(_) => panic!("an empty cache must not resolve a descriptor"),
        Err(BridgeError::ClassNotFound(name)) => {
            assert_eq!(name, "org/signal/ringrtc/CallManager$CallEvent")
        }
        Err(other) => panic!("unexpected error: {:?}", other),
    }
}
