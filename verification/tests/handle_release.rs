use android_bridge::lifecycle::Handle;

#[test]
fn single_owner_release_is_the_last() {
    let handle = Handle::new(5u64);
    assert_eq!(handle.release(), Some(5));
}

#[test]
fn close_fires_exactly_once_in_creation_order() {
    let handle = Handle::new(7u64);
    let clone_a = handle.retain();
    let clone_b = handle.retain();
    let mut closes = 0;
    if handle.release().is_some() {
        closes += 1;
    }
    if clone_a.release().is_some() {
        closes += 1;
    }
    if clone_b.release().is_some() {
        closes += 1;
    }
    assert_eq!(closes, 1);
}

#[test]
fn close_fires_exactly_once_in_reverse_order() {
    let handle = Handle::new(7u64);
    let clone_a = handle.retain();
    let clone_b = handle.retain();
    let mut closes = 0;
    if clone_b.release().is_some() {
        closes += 1;
    }
    if clone_a.release().is_some() {
        closes += 1;
    }
    if handle.release().is_some() {
        closes += 1;
    }
    assert_eq!(closes, 1);
}

#[test]
fn last_release_recovers_the_resource() {
    let handle = Handle::new(String::from("per-call context"));
    let clone = handle.retain();
    assert_eq!(handle.release(), None);
    assert_eq!(clone.release(), Some(String::from("per-call context")));
}

#[test]
fn retains_after_releases_still_close_once() {
    let handle = Handle::new(1u64);
    let clone_a = handle.retain();
    assert_eq!(handle.release(), None);
    let clone_b = clone_a.retain();
    let mut closes = 0;
    if clone_a.release().is_some() {
        closes += 1;
    }
    if clone_b.release().is_some() {
        closes += 1;
    }
    assert_eq!(closes, 1);
}

#[test]
fn every_owner_reads_the_same_resource() {
    let handle = Handle::new(11u64);
    let clone = handle.retain();
    assert_eq!(*handle.get(), 11);
    assert_eq!(*clone.get(), 11);
}
