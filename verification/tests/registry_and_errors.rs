use holepunch::messages::PeerAddr;
use holepunch::protocol_errors::IoErrorKind;
use holepunch::protocol_errors::ReceiveError;
use holepunch::protocol_errors::SendError;
use holepunch::session_store::SessionStore;

fn addr(last: u8, port: u16) -> PeerAddr {
    PeerAddr::V4 { octets: [10, 0, 0, last], port }
}

#[test]
fn store_lookup_finds_inserted_entry() {
    let mut store = SessionStore::new();
    let a = addr(1, 1000);
    store.insert(b"abc".to_vec(), a);
    assert_eq!(store.get(b"abc"), Some(a));
}

#[test]
fn store_lookup_misses_absent_key() {
    let mut store = SessionStore::new();
    store.insert(b"abc".to_vec(), addr(1, 1000));
    assert_eq!(store.get(b"abd"), None);
    assert_eq!(store.get(b"ab"), None);
    assert_eq!(store.get(b""), None);
}

#[test]
fn store_insert_overwrites() {
    let mut store = SessionStore::new();
    let a1 = addr(1, 1000);
    let a2 = addr(2, 2000);
    store.insert(b"abc".to_vec(), a1);
    store.insert(b"abc".to_vec(), a2);
    assert_eq!(store.get(b"abc"), Some(a2));
}

#[test]
fn store_keeps_distinct_keys_apart() {
    let mut store = SessionStore::new();
    let a1 = addr(1, 1000);
    let a2 = addr(2, 2000);
    store.insert(b"a".to_vec(), a1);
    store.insert(b"b".to_vec(), a2);
    assert_eq!(store.get(b"a"), Some(a1));
    assert_eq!(store.get(b"b"), Some(a2));
}

#[test]
fn store_empty_key_is_a_key() {
    let mut store = SessionStore::new();
    let a = addr(1, 1000);
    store.insert(Vec::new(), a);
    assert_eq!(store.get(b""), Some(a));
}

#[test]
fn transient_receive_errors_are_not_fatal() {
    assert!(!ReceiveError::IO(IoErrorKind::WouldBlock).is_fatal());
    assert!(!ReceiveError::IO(IoErrorKind::TimedOut).is_fatal());
    assert!(!ReceiveError::IO(IoErrorKind::Interrupted).is_fatal());
}

#[test]
fn decode_failures_are_not_fatal() {
    // A malformed datagram is dropped silently; the loop keeps serving.
    assert!(!ReceiveError::DeserializationFailed.is_fatal());
}

#[test]
fn other_receive_errors_are_fatal() {
    assert!(ReceiveError::IO(IoErrorKind::Other).is_fatal());
}

#[test]
fn send_error_kinds_are_distinct() {
    assert_ne!(SendError::SerializationFailed, SendError::IncompleteSend(3));
    assert_ne!(SendError::IncompleteSend(3), SendError::IncompleteSend(4));
    assert_ne!(SendError::IO(IoErrorKind::Other), SendError::SerializationFailed);
}
