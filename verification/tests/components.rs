use ricq_session::{
    CorrelationTable, DedupKey, DeduplicationCaches, MessageReassembler, Packet, Password,
    RequestIdAllocator, SequenceAllocator, SessionError, TtlSet,
};

#[test]
fn sequence_allocator_counts_up() {
    let mut a = SequenceAllocator::new(0);
    assert_eq!(a.next(), 0);
    assert_eq!(a.next(), 1);
    assert_eq!(a.next(), 2);
}

#[test]
fn sequence_allocator_wraps_to_zero() {
    let mut a = SequenceAllocator::new(u16::MAX);
    assert_eq!(a.next(), u16::MAX);
    assert_eq!(a.next(), 0);
    assert_eq!(a.next(), 1);
}

#[test]
fn sequence_allocator_distinct_over_full_cycle() {
    let mut a = SequenceAllocator::new(40_000);
    let mut seen = vec![false; 65_536];
    for _ in 0..65_536usize {
        let v = a.next() as usize;
        assert!(!seen[v], "value repeated before a full cycle");
        seen[v] = true;
    }
    // After a full cycle the counter is back at its start.
    assert_eq!(a.next(), 40_000);
}

#[test]
fn request_id_allocator_wraps_at_width() {
    let mut a = RequestIdAllocator::new(i32::MAX);
    assert_eq!(a.next(), i32::MAX);
    assert_eq!(a.next(), i32::MIN);
}

fn packet(seq: i32) -> Packet {
    Packet { seq, command: String::from("wtlogin.exchange"), body: vec![9, 9, 9] }
}

#[test]
fn register_then_resolve_yields_value_once() {
    let mut t: CorrelationTable<Packet> = CorrelationTable::new();
    let mut rx = t.register(5).expect("fresh id must register");
    assert!(t.is_pending(5));
    assert_eq!(t.pending_count(), 1);

    assert!(t.resolve(5, packet(5)), "the original waiter must exist");
    let got = rx.try_recv().expect("the waiter must receive the value");
    assert_eq!(got, packet(5));

    // A second resolve with no re-register is a no-op reporting "no waiter".
    assert!(!t.resolve(5, packet(5)));
    assert_eq!(t.pending_count(), 0);
}

#[test]
fn register_duplicate_id_is_refused() {
    let mut t: CorrelationTable<i32> = CorrelationTable::new();
    let _rx = t.register(9).expect("fresh id must register");
    match t.register(9) {
        Err(SessionError::DuplicateCorrelationId) => {},
        other => panic!("expected a duplicate-id error, got {:?}", other.is_ok()),
    }
    assert_eq!(t.pending_count(), 1);
}

#[test]
fn cancel_evicts_without_fulfilling() {
    let mut t: CorrelationTable<i32> = CorrelationTable::new();
    let mut rx = t.register(7).expect("fresh id must register");
    t.cancel(7);
    assert!(!t.is_pending(7));
    assert!(rx.try_recv().is_err(), "a cancelled waiter observes closure, not a value");
    assert!(!t.resolve(7, 1), "no waiter is left after cancellation");
}

#[test]
fn reassembly_completes_in_index_order() {
    let mut m = MessageReassembler::new(60_000);
    assert!(m.ingest(42, 1, 3, vec![10, 11], 0).is_none());
    assert!(m.ingest(42, 0, 3, vec![0, 1], 5).is_none());
    let done = m.ingest(42, 2, 3, vec![20], 10).expect("third part completes the message");
    assert_eq!(done, vec![0, 1, 10, 11, 20]);
    // The bucket is gone: the same id starts a fresh message.
    assert!(m.ingest(42, 0, 2, vec![7], 11).is_none());
}

#[test]
fn reassembly_single_part_message() {
    let mut m = MessageReassembler::new(60_000);
    let done = m.ingest(1, 0, 1, vec![5, 6], 0).expect("one part of one completes");
    assert_eq!(done, vec![5, 6]);
}

#[test]
fn reassembly_expired_bucket_starts_fresh() {
    let mut m = MessageReassembler::new(1_000);
    assert!(m.ingest(8, 0, 2, vec![1], 0).is_none());
    // The window passed: the old part is discarded, never delivered.
    assert!(m.ingest(8, 1, 2, vec![2], 1_000).is_none());
    // The fresh bucket completes from scratch.
    let done = m.ingest(8, 0, 2, vec![3], 1_001).expect("fresh bucket completes");
    assert_eq!(done, vec![3, 2]);
}

#[test]
fn dedup_false_then_true_on_repeat() {
    let mut s = TtlSet::new(1_000);
    let k = DedupKey { sender: 1, target: 2, sequence: 3, discriminator: 4 };
    assert!(!s.check_and_insert(k, 50_000), "first sight is no duplicate");
    assert!(s.check_and_insert(k, 50_001), "immediate repeat is a duplicate");
}

#[test]
fn dedup_expires_after_window() {
    let mut s = TtlSet::new(1_000);
    let k = DedupKey { sender: 1, target: 2, sequence: 3, discriminator: 4 };
    assert!(!s.check_and_insert(k, 0));
    assert!(s.check_and_insert(k, 999), "still inside the window");
    assert!(!s.check_and_insert(k, 1_000), "at the window's end the key is new again");
    assert!(s.check_and_insert(k, 1_500), "the re-arm opened a new window");
}

#[test]
fn dedup_sweep_drops_only_expired_entries() {
    let mut s = TtlSet::new(1_000);
    let old_key = DedupKey { sender: 1, target: 0, sequence: 0, discriminator: 0 };
    let new_key = DedupKey { sender: 2, target: 0, sequence: 0, discriminator: 0 };
    assert!(!s.check_and_insert(old_key, 0));
    assert!(!s.check_and_insert(new_key, 500));
    s.evict_expired(1_000);
    assert!(!s.check_and_insert(old_key, 1_000), "the expired entry was swept out");
    assert!(s.check_and_insert(new_key, 1_000), "the live entry survived the sweep");
}

#[test]
fn reassembly_sweep_discards_stale_buckets() {
    let mut m = MessageReassembler::new(1_000);
    assert!(m.ingest(1, 0, 2, vec![1], 0).is_none());
    assert!(m.ingest(2, 0, 2, vec![2], 900).is_none());
    m.evict_expired(1_000);
    // The stale bucket is gone: its id starts over and does not complete.
    assert!(m.ingest(1, 1, 2, vec![9], 1_001).is_none());
    // The live bucket kept its part and completes.
    let done = m.ingest(2, 1, 2, vec![3], 1_001).expect("live bucket completes");
    assert_eq!(done, vec![2, 3]);
}

#[test]
fn dedup_caches_are_independent() {
    let mut d = DeduplicationCaches::new(1_000, 1_000, 1_000);
    assert!(!d.check_c2c(1, 2, 3, 4, 0));
    assert!(!d.check_push_req(1, 2, 0), "the caches share no entries");
    assert!(!d.check_push_trans(1, 2, 0), "the caches share no entries");
    assert!(d.check_c2c(1, 2, 3, 4, 1));
    assert!(d.check_push_req(1, 2, 1));
    assert!(d.check_push_trans(1, 2, 1));
}

#[test]
fn password_digest_of_string() {
    let p = Password::from_str("abc");
    let d = p.md5();
    assert_eq!(
        d,
        vec![
            0x90, 0x01, 0x50, 0x98, 0x3c, 0xd2, 0x4f, 0xb0, 0xd6, 0x96, 0x3f, 0x7d, 0x28, 0xe1,
            0x7f, 0x72
        ]
    );
}

#[test]
fn password_digest_kept_as_is() {
    let stored: Vec<u8> = (0u8..16).collect();
    let p = Password::Md5(stored.clone());
    assert_eq!(p.md5(), stored);
}

#[test]
fn error_names_are_distinct() {
    let kinds = [
        SessionError::TransportError,
        SessionError::ProtocolError,
        SessionError::RequestTimeout,
        SessionError::RequestRejected,
        SessionError::SessionTerminated,
        SessionError::DuplicateCorrelationId,
    ];
    for (i, a) in kinds.iter().enumerate() {
        for (j, b) in kinds.iter().enumerate() {
            assert_eq!(i == j, a.name() == b.name());
        }
    }
}
