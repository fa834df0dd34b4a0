use fuchsia_support::signals::{Signals, OBJECT_PEER_CLOSED_BITS, OBJECT_READABLE_BITS, OBJECT_WRITABLE_BITS};

#[test]
fn signal_constants_match_zircon() {
    assert_eq!(Signals::object_readable().bits(), 1);
    assert_eq!(Signals::object_writable().bits(), 2);
    assert_eq!(Signals::object_peer_closed().bits(), 4);
    assert_eq!(OBJECT_READABLE_BITS | OBJECT_WRITABLE_BITS | OBJECT_PEER_CLOSED_BITS, 7);
    assert_eq!(Signals::empty().bits(), 0);
}

#[test]
fn from_bits_truncate_keeps_every_bit() {
    assert_eq!(Signals::from_bits_truncate(0xdead_beef).bits(), 0xdead_beef);
    assert_eq!(Signals::from_bits_truncate(0).bits(), 0);
}

#[test]
fn contains_checks_all_bits() {
    let rw = Signals::object_readable().union(Signals::object_writable());
    assert_eq!(rw.bits(), 3);
    assert!(rw.contains(Signals::object_readable()));
    assert!(rw.contains(Signals::object_writable()));
    assert!(!rw.contains(Signals::object_peer_closed()));
    assert!(rw.contains(Signals::empty()));
    assert!(!Signals::object_readable().contains(rw));
}

#[test]
fn insert_and_complement() {
    let mut s = Signals::object_readable();
    s.insert(Signals::object_peer_closed());
    assert_eq!(s.bits(), 5);
    assert_eq!(s.complement().bits(), 0xffff_fffa);
    assert_eq!(Signals::empty().complement().bits(), u32::MAX);
}
