use mcp_bridge::pending::{LineEvent, PendingTable};
use mcp_bridge::protocol::JsonRpcId;

#[test]
fn ids_start_at_one_and_increase() {
    let mut t: PendingTable<&str> = PendingTable::new();
    assert_eq!(t.register("first").unwrap(), 1);
    assert_eq!(t.register("second").unwrap(), 2);
    assert_eq!(t.len(), 2);
}

#[test]
fn expired_request_leaves_no_entry() {
    let mut t: PendingTable<&str> = PendingTable::new();
    let id = t.register("slow").unwrap();
    // the deadline passes: the waiting caller takes its slot out
    assert_eq!(t.take(id), Some("slow"));
    assert_eq!(t.len(), 0);
    // a late response for it finds nothing
    assert_eq!(t.on_line(&LineEvent::Response(Some(JsonRpcId::Number(id)))), None);
    // the next request works normally under a fresh id
    let next = t.register("next").unwrap();
    assert_ne!(next, id);
    assert_eq!(t.on_line(&LineEvent::Response(Some(JsonRpcId::Number(next)))), Some("next"));
    assert_eq!(t.len(), 0);
}

#[test]
fn malformed_line_is_ignored() {
    let mut t: PendingTable<&str> = PendingTable::new();
    let id = t.register("waiting").unwrap();
    assert_eq!(t.on_line(&LineEvent::Malformed), None);
    assert_eq!(t.on_line(&LineEvent::Blank), None);
    assert_eq!(t.len(), 1);
    assert_eq!(t.on_line(&LineEvent::Response(Some(JsonRpcId::Number(id)))), Some("waiting"));
}

#[test]
fn responses_match_by_id_in_any_order() {
    let mut t: PendingTable<&str> = PendingTable::new();
    let a = t.register("a").unwrap();
    let b = t.register("b").unwrap();
    assert_eq!(t.on_line(&LineEvent::Response(Some(JsonRpcId::Number(b)))), Some("b"));
    assert_eq!(t.on_line(&LineEvent::Response(Some(JsonRpcId::String("1".to_string())))), None);
    assert_eq!(t.on_line(&LineEvent::Response(None)), None);
    assert_eq!(t.on_line(&LineEvent::Response(Some(JsonRpcId::Number(99)))), None);
    assert_eq!(t.on_line(&LineEvent::Response(Some(JsonRpcId::Number(a)))), Some("a"));
}

#[test]
fn closing_fails_every_pending_slot() {
    let mut t: PendingTable<u8> = PendingTable::new();
    assert_eq!(t.register(1).unwrap(), 1);
    assert_eq!(t.register(2).unwrap(), 2);
    assert_eq!(t.register(3).unwrap(), 3);
    assert_eq!(t.take(2), Some(2));
    assert!(!t.closed());
    assert_eq!(t.close_all(), vec![1, 3]);
    assert_eq!(t.len(), 0);
    assert!(t.closed());
    // once the output has ended, a new request is refused at once
    assert_eq!(t.register(4), Err(4));
    assert_eq!(t.len(), 0);
}
