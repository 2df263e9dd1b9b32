use apple_intelligence::registry::{PendingKind, PendingRequests};
use apple_intelligence::session::{next_ctx_id, CtxCounter, PendingTable};

#[test]
fn context_ids_count_up_from_one() {
    let mut c = CtxCounter::new();
    assert_eq!(next_ctx_id(&mut c), 1);
    assert_eq!(next_ctx_id(&mut c), 2);
    assert_eq!(next_ctx_id(&mut c), 3);
}

#[test]
fn begun_requests_get_distinct_slots() {
    let mut pending: PendingRequests<char> = PendingRequests::new();
    let a = pending.begin(PendingKind::Completion, 'a');
    let b = pending.begin(PendingKind::Completion, 'b');
    let c = pending.begin(PendingKind::Image, 'c');
    assert_eq!((a, b, c), (1, 2, 3));
    assert_eq!(pending.len(PendingKind::Completion), 2);
    assert_eq!(pending.len(PendingKind::Image), 1);
    assert_eq!(pending.len(PendingKind::Stream), 0);
    assert_eq!(pending.chunk_sink(PendingKind::Completion, a, "."), Some(&'a'));
    assert_eq!(pending.chunk_sink(PendingKind::Image, c, "."), Some(&'c'));
    assert_eq!(pending.chunk_sink(PendingKind::Image, a, "."), None);
}

#[test]
fn completion_is_delivered_once() {
    let mut pending: PendingRequests<char> = PendingRequests::new();
    let id = pending.begin(PendingKind::Completion, 'x');
    let (sink, payload) = pending.complete(PendingKind::Completion, id, 0, "done".to_string()).unwrap();
    assert_eq!(sink, 'x');
    assert!(payload.ok);
    assert_eq!(payload.text, "done");
    assert!(pending.complete(PendingKind::Completion, id, 0, "again".to_string()).is_none());
    assert_eq!(pending.len(PendingKind::Completion), 0);
}

#[test]
fn nonzero_completion_status_is_a_failure() {
    let mut pending: PendingRequests<u8> = PendingRequests::new();
    let id = pending.begin(PendingKind::Image, 1);
    let (_, payload) = pending.complete(PendingKind::Image, id, 2, "creationFailed".to_string()).unwrap();
    assert!(!payload.ok);
    assert_eq!(payload.text, "creationFailed");
}

#[test]
fn unknown_completions_are_ignored() {
    let mut pending: PendingRequests<u8> = PendingRequests::new();
    let id = pending.begin(PendingKind::Stream, 10);
    assert!(pending.complete(PendingKind::Stream, id + 1, 0, String::new()).is_none());
    assert!(pending.complete(PendingKind::Completion, id, 0, String::new()).is_none());
    assert_eq!(pending.len(PendingKind::Stream), 1);
}

#[test]
fn chunks_go_to_pending_requests_only() {
    let mut pending: PendingRequests<u8> = PendingRequests::new();
    let id = pending.begin(PendingKind::Stream, 30);
    assert_eq!(pending.chunk_sink(PendingKind::Stream, id, "Hel"), Some(&30));
    assert_eq!(pending.chunk_sink(PendingKind::Stream, id, ""), None);
    assert_eq!(pending.chunk_sink(PendingKind::Stream, id + 1, "lo"), None);
    assert_eq!(pending.len(PendingKind::Stream), 1);
}

#[test]
fn ended_request_stays_ended_after_new_ones() {
    let mut pending: PendingRequests<u8> = PendingRequests::new();
    let first = pending.begin(PendingKind::Completion, 1);
    assert!(pending.complete(PendingKind::Completion, first, 0, String::new()).is_some());
    let second = pending.begin(PendingKind::Completion, 2);
    assert_ne!(first, second);
    assert!(pending.complete(PendingKind::Completion, first, 0, String::new()).is_none());
    assert_eq!(pending.chunk_sink(PendingKind::Completion, second, "x"), Some(&2));
}

#[test]
fn withdraw_hands_back_the_sink() {
    let mut table: PendingTable<u8> = PendingTable::new();
    table.register(5, 50);
    table.register(5, 51);
    assert_eq!(table.len(), 1);
    assert_eq!(table.withdraw(5), Some(51));
    assert_eq!(table.withdraw(5), None);
}

#[test]
fn many_ids_never_repeat() {
    let mut c = CtxCounter::new();
    let mut last = 0u64;
    for _ in 0..1000 {
        let id = next_ctx_id(&mut c);
        assert!(id > last);
        last = id;
    }
    assert_eq!(last, 1000);
}
