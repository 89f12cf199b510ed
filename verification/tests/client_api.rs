use ricq_session::{
    AudioDescriptor, Client, ConnectionLifecycle, GroupAudioMessage, GroupAudioMessageEvent,
    GroupMessage, GroupMessageEvent, GroupRequestEvent, JoinGroupRequest, NetworkStatus,
    NewFriendRequest, FriendRequestEvent, OutboundBody, OutboundPacket, Packet, SessionError,
    Token,
};
use tokio::sync::mpsc::UnboundedReceiver;

fn fresh_client() -> (Client, UnboundedReceiver<OutboundPacket>) {
    Client::new(12_345_678, 1_700_000)
}

#[test]
fn send_refused_while_not_running() {
    let (mut client, mut out) = fresh_client();
    let r = client.solve_friend_system_message(1, 2, true);
    assert!(matches!(r, Err(SessionError::SessionTerminated)));
    assert!(out.try_recv().is_err(), "nothing may touch the network");
}

#[test]
fn send_refused_after_stop() {
    let (mut client, mut out) = fresh_client();
    client.lifecycle.connect();
    assert!(client.lifecycle.stop());
    let r = client.recall_group_message(1, vec![2], vec![3]);
    assert!(matches!(r, Err(SessionError::SessionTerminated)));
    assert!(out.try_recv().is_err());
}

#[test]
fn request_response_round_trip() {
    let (mut client, mut out) = fresh_client();
    client.lifecycle.connect();
    let mut rx = client.solve_friend_system_message(11, 22, true).expect("running session sends");

    let queued = out.try_recv().expect("exactly one packet was queued");
    assert_eq!(queued.seq, 0, "the first drawn correlation id");
    assert_eq!(
        queued.body,
        OutboundBody::SolveFriendSystemMessage { msg_seq: 11, req_uin: 22, accept: true }
    );

    let response = Packet { seq: queued.seq, command: String::from("ProfileService.Pb.ReqSystemMsgAction"), body: vec![1] };
    assert!(client.process_income_packet(response.clone()), "the waiter existed");
    assert_eq!(rx.try_recv().expect("the waiter received the response"), response);
    // A redelivered response finds no waiter and is silently dropped.
    assert!(!client.process_income_packet(response));
}

#[test]
fn reject_sends_exactly_one_resolution_packet() {
    let (mut client, mut out) = fresh_client();
    client.lifecycle.connect();
    let event = GroupRequestEvent {
        request: JoinGroupRequest {
            msg_seq: 77,
            req_uin: 1_000,
            group_code: 999,
            message: String::from("let me in"),
            suspicious: false,
            invitor_uin: Some(555),
        },
    };
    let r = event.reject(&mut client, String::from("not today"), true);
    assert!(r.is_ok());

    let queued = out.try_recv().expect("one resolution packet");
    assert_eq!(
        queued.body,
        OutboundBody::SolveGroupSystemMessage {
            msg_seq: 77,
            req_uin: 1_000,
            group_code: 999,
            suspicious: false,
            has_invitor: true,
            accept: false,
            block: true,
            reason: String::from("not today"),
        }
    );
    assert!(out.try_recv().is_err(), "exactly one packet, no more");
}

#[test]
fn accept_sends_accepting_packet() {
    let (mut client, mut out) = fresh_client();
    client.lifecycle.connect();
    let event = GroupRequestEvent {
        request: JoinGroupRequest {
            msg_seq: 8,
            req_uin: 44,
            group_code: 77,
            message: String::new(),
            suspicious: true,
            invitor_uin: None,
        },
    };
    event.accept(&mut client).expect("running session sends");
    let queued = out.try_recv().expect("one resolution packet");
    assert_eq!(
        queued.body,
        OutboundBody::SolveGroupSystemMessage {
            msg_seq: 8,
            req_uin: 44,
            group_code: 77,
            suspicious: true,
            has_invitor: false,
            accept: true,
            block: false,
            reason: String::new(),
        }
    );
}

#[test]
fn friend_request_reject_packet() {
    let (mut client, mut out) = fresh_client();
    client.lifecycle.connect();
    let event = FriendRequestEvent {
        request: NewFriendRequest { msg_seq: 3, req_uin: 4, message: String::from("hello") },
    };
    event.reject(&mut client).expect("running session sends");
    let queued = out.try_recv().expect("one packet");
    assert_eq!(
        queued.body,
        OutboundBody::SolveFriendSystemMessage { msg_seq: 3, req_uin: 4, accept: false }
    );
}

#[test]
fn recall_event_captures_sequences() {
    let (mut client, mut out) = fresh_client();
    client.lifecycle.connect();
    let event = GroupMessageEvent {
        message: GroupMessage {
            group_code: 31_337,
            from_uin: 1,
            time: 2,
            seqs: vec![100, 101],
            rands: vec![7, 8],
            content: vec![],
        },
    };
    event.recall(&mut client).expect("running session sends");
    let queued = out.try_recv().expect("one recall packet");
    assert_eq!(
        queued.body,
        OutboundBody::RecallGroupMessage { group_code: 31_337, seqs: vec![100, 101], rands: vec![7, 8] }
    );
}

#[test]
fn audio_url_request_carries_descriptor() {
    let (mut client, mut out) = fresh_client();
    client.lifecycle.connect();
    let event = GroupAudioMessageEvent {
        message: GroupAudioMessage {
            group_code: 9,
            from_uin: 10,
            time: 11,
            audio: AudioDescriptor { file_md5: vec![1, 2], file_uuid: vec![3], file_size: 44 },
        },
    };
    event.url(&mut client).expect("running session sends");
    let queued = out.try_recv().expect("one lookup packet");
    assert_eq!(
        queued.body,
        OutboundBody::GroupAudioUrl {
            group_code: 9,
            audio: AudioDescriptor { file_md5: vec![1, 2], file_uuid: vec![3], file_size: 44 },
        }
    );
}

#[test]
fn correlation_ids_advance_per_request() {
    let (mut client, mut out) = fresh_client();
    client.lifecycle.connect();
    client.solve_friend_system_message(1, 1, true).expect("sends");
    client.solve_friend_system_message(2, 2, false).expect("sends");
    assert_eq!(out.try_recv().expect("first").seq, 0);
    assert_eq!(out.try_recv().expect("second").seq, 1);
}

#[test]
fn stale_waiter_on_a_reused_id_is_a_logic_error() {
    let (mut client, mut out) = fresh_client();
    client.lifecycle.connect();
    // A stale entry shadows the id the allocator will draw next.
    let _rx = client.packet_promises.register(0).expect("fresh id");
    let r = client.solve_friend_system_message(1, 2, true);
    assert!(matches!(r, Err(SessionError::DuplicateCorrelationId)));
    assert!(out.try_recv().is_err(), "nothing was queued for the refused request");
    // The next send draws the following id and goes through.
    let r2 = client.solve_friend_system_message(1, 2, true);
    assert!(r2.is_ok());
    assert_eq!(out.try_recv().expect("queued").seq, 1);
}

#[test]
fn transport_gone_is_reported_and_leaves_no_waiter() {
    let (mut client, out) = fresh_client();
    client.lifecycle.connect();
    drop(out);
    let r = client.solve_friend_system_message(1, 2, true);
    assert!(matches!(r, Err(SessionError::TransportError)));
    // The id was not left registered: the next send draws a fresh id and
    // does not collide.
    let r2 = client.solve_friend_system_message(1, 2, true);
    assert!(matches!(r2, Err(SessionError::TransportError)));
}

#[test]
fn status_transitions_and_signal() {
    let mut lc = ConnectionLifecycle::new(4);
    assert_eq!(lc.current_status(), NetworkStatus::Unknown);
    let mut sub = lc.subscribe();
    lc.connect();
    assert_eq!(lc.current_status(), NetworkStatus::Running);
    assert!(lc.online());

    // A transport error moves to NetworkOffline, not to a server force-offline notice.
    assert!(lc.network_offline(), "the first departure fires the signal");
    assert_eq!(lc.current_status(), NetworkStatus::NetworkOffline);
    assert!(!lc.online());
    assert!(sub.try_recv().is_ok(), "every live subscriber observes the signal");

    // Further disconnects in the same episode change nothing and fire nothing.
    assert!(!lc.kicked_offline());
    assert_eq!(lc.current_status(), NetworkStatus::NetworkOffline);
    assert!(sub.try_recv().is_err(), "the signal fired exactly once");
}

#[test]
fn server_offline_notices_are_distinguished() {
    let mut lc = ConnectionLifecycle::new(1);
    lc.connect();
    assert!(lc.kicked_offline());
    assert_eq!(lc.current_status(), NetworkStatus::KickedOffline);

    let mut lc2 = ConnectionLifecycle::new(1);
    lc2.connect();
    assert!(lc2.msf_offline());
    assert_eq!(lc2.current_status(), NetworkStatus::MsfOffline);

    let mut lc3 = ConnectionLifecycle::new(1);
    lc3.connect();
    assert!(lc3.drop_connection());
    assert_eq!(lc3.current_status(), NetworkStatus::Drop);
}

#[test]
fn signal_reaches_every_subscriber() {
    let mut lc = ConnectionLifecycle::new(4);
    let mut a = lc.subscribe();
    let mut b = lc.subscribe();
    lc.connect();
    assert!(lc.stop());
    assert!(a.try_recv().is_ok());
    assert!(b.try_recv().is_ok());
}

#[test]
fn token_round_trip_restores_material() {
    let (mut client, _out) = fresh_client();
    client.cache_info.d2 = vec![1, 2, 3];
    client.cache_info.tgt = vec![4, 5];
    client.cache_info.time_diff = -7;
    let token = client.gen_token();
    assert_eq!(token.uin, 12_345_678);
    assert_eq!(token.d2, vec![1, 2, 3]);

    let (mut other, _out2) = fresh_client();
    other.load_token(token);
    assert_eq!(other.uin, 12_345_678);
    assert_eq!(other.cache_info.d2, vec![1, 2, 3]);
    assert_eq!(other.cache_info.tgt, vec![4, 5]);
    assert_eq!(other.cache_info.time_diff, -7);
    assert_eq!(other.lifecycle.current_status(), NetworkStatus::Unknown);
}

#[test]
fn loaded_token_resets_to_pre_running() {
    let (mut client, _out) = fresh_client();
    let token = Token {
        uin: 1,
        d2: vec![],
        d2key: vec![],
        tgt: vec![],
        srm_token: vec![],
        encrypted_a1: vec![],
        out_packet_session_id: vec![],
        ksid: vec![],
        time_diff: 0,
    };
    client.lifecycle.connect();
    assert!(client.lifecycle.stop());
    client.load_token(token);
    assert_eq!(client.lifecycle.current_status(), NetworkStatus::Unknown);
    assert!(!client.lifecycle.online());
}

#[test]
fn receipt_waiters_are_independent() {
    let (mut client, _out) = fresh_client();
    let mut rx = client.receipt_waiters.register(5).expect("fresh id");
    assert!(!client.process_income_packet(Packet { seq: 5, command: String::new(), body: vec![] }),
        "the main table has no waiter for the receipt id");
    assert!(client.process_receipt(5, 99));
    assert_eq!(rx.try_recv().expect("receipt delivered"), 99);
}
