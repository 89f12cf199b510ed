//! The client session core: one instance per logical connection,
//! aggregating the allocators, correlation tables, reassembler,
//! deduplication caches, lifecycle and session record, and exposing the
//! correlated request surface.
//!
//! Every outbound request takes a fresh correlation id, registers a
//! one-shot waiter, and queues exactly one typed packet on the ordered
//! conduit to the network writer; the ghost `sent_log` records the image
//! of everything this core ever queued, so each request's contract pins
//! down the one packet it produced. While the status is not Running, a
//! send fails immediately without touching the network.

use vstd::prelude::*;

use crate::channels::{outbound_channel, outbound_send};
use crate::dedup::{DedupKey, DeduplicationCaches};
use crate::errors::SessionError;
use crate::message::{
    AudioDescriptor, BodyView, OutboundBody, OutboundPacket, OutboundView, Packet, copy_bytes,
};
use crate::promise::CorrelationTable;
use crate::reassembly::{FragmentBucket, MessageReassembler};
use crate::seq_alloc::{RequestIdAllocator, SequenceAllocator, seq_successor};
use crate::session::{
    AccountInfo, AddressInfo, CacheInfo, GroupSystemMessages, HighwayAddr, HighwaySession,
    OtherClientInfo, Token,
};
use crate::status::{ConnectionLifecycle, NetworkStatus};

verus! {

/// Window of the peer-to-peer echo cache, milliseconds.
pub const C2C_CACHE_WINDOW_MS: u64 = 15_000;

/// Window of the push-request cache, milliseconds.
pub const PUSH_REQ_CACHE_WINDOW_MS: u64 = 30_000;

/// Window of the push-trans cache, milliseconds.
pub const PUSH_TRANS_CACHE_WINDOW_MS: u64 = 60_000;

/// Window of an incomplete reassembly bucket, milliseconds from creation.
pub const REASSEMBLY_WINDOW_MS: u64 = 60_000;

/// Capacity of the disconnect broadcast; one slot suffices for a
/// zero-payload cancellation, a few leave room for laggards.
pub const DISCONNECT_CAPACITY: usize = 4;

/// The session core. Fields are public and independently guardable, so an
/// embedder can wrap each logical group in its own lock and unrelated
/// readers are never blocked by an unrelated writer.
pub struct Client {
    /// 16-bit packet sequence ids, matched by the response stream.
    pub seq: SequenceAllocator,
    /// Request-id namespace, independent of the packet sequence.
    pub request_id: RequestIdAllocator,
    /// Group-message sequence namespace.
    pub group_seq: RequestIdAllocator,
    /// Friend-message sequence namespace.
    pub friend_seq: RequestIdAllocator,
    /// Highway-apply sequence namespace.
    pub highway_apply_seq: RequestIdAllocator,
    /// The signed-in account number.
    pub uin: i64,
    /// Network-status state machine and disconnect broadcast.
    pub lifecycle: ConnectionLifecycle,
    /// Whether the heartbeat task should run.
    pub heartbeat_enabled: bool,
    /// Waiters for decoded response packets, by correlation id.
    pub packet_promises: CorrelationTable<Packet>,
    /// Waiters for transport delivery receipts, by correlation id;
    /// disjoint id space from `packet_promises`.
    pub receipt_waiters: CorrelationTable<i32>,
    /// Multi-part group message buckets.
    pub reassembler: MessageReassembler,
    /// The three push deduplication caches.
    pub dedup: DeduplicationCaches,
    /// Sending end of the ordered conduit the network writer drains.
    pub out_pkt_sender: tokio::sync::mpsc::UnboundedSender<OutboundPacket>,
    /// Ghost journal of every packet this core queued outbound.
    pub sent_log: Ghost<Seq<OutboundView>>,
    /// Account identity.
    pub account_info: AccountInfo,
    /// Server address books.
    pub address: AddressInfo,
    /// Other devices signed in on the account.
    pub online_clients: Vec<OtherClientInfo>,
    /// Session-scoped signature and cookie material.
    pub cache_info: CacheInfo,
    /// Bulk-transfer sub-session.
    pub highway_session: HighwaySession,
    /// Bulk-transfer address pool.
    pub highway_addrs: Vec<HighwayAddr>,
    /// Snapshot of outstanding group system messages.
    pub group_sys_message_cache: GroupSystemMessages,
    /// Arrival instant of the last message, for idle watchers.
    pub last_message_time: i64,
    /// Second the session core was created.
    pub start_time: i32,
}

impl Client {
    /// Well-formedness of every keyed component.
    pub open spec fn wf(self) -> bool {
        &&& self.packet_promises.wf()
        &&& self.receipt_waiters.wf()
        &&& self.reassembler.wf()
        &&& self.dedup.wf()
    }

    /// The current network status.
    pub open spec fn status(self) -> NetworkStatus {
        self.lifecycle.status()
    }

    /// Correlation ids with a live response waiter.
    pub open spec fn pending_requests(self) -> Set<i64> {
        self.packet_promises.pending()
    }

    /// The journal of queued outbound packets.
    pub open spec fn sent(self) -> Seq<OutboundView> {
        self.sent_log@
    }

    /// Everything a correlated send leaves untouched.
    pub open spec fn same_but_send_path(pre: Client, post: Client) -> bool {
        &&& post.request_id == pre.request_id
        &&& post.group_seq == pre.group_seq
        &&& post.friend_seq == pre.friend_seq
        &&& post.highway_apply_seq == pre.highway_apply_seq
        &&& post.uin == pre.uin
        &&& post.lifecycle == pre.lifecycle
        &&& post.heartbeat_enabled == pre.heartbeat_enabled
        &&& post.receipt_waiters == pre.receipt_waiters
        &&& post.reassembler == pre.reassembler
        &&& post.dedup == pre.dedup
        &&& post.account_info == pre.account_info
        &&& post.address == pre.address
        &&& post.online_clients == pre.online_clients
        &&& post.cache_info == pre.cache_info
        &&& post.highway_session == pre.highway_session
        &&& post.highway_addrs == pre.highway_addrs
        &&& post.group_sys_message_cache == pre.group_sys_message_cache
        &&& post.last_message_time == pre.last_message_time
        &&& post.start_time == pre.start_time
    }

    /// The full contract of one correlated send of `body`: refused outright
    /// unless Running; otherwise one fresh id is drawn, and either the
    /// request is queued as exactly one packet and its waiter registered,
    /// or nothing observable is left behind.
    pub open spec fn sends_request(
        pre: Client,
        post: Client,
        r: Result<tokio::sync::oneshot::Receiver<Packet>, SessionError>,
        body: BodyView,
    ) -> bool {
        &&& post.wf()
        &&& Self::same_but_send_path(pre, post)
        &&& if !(pre.status() is Running) {
            &&& (r matches Err(e) && e == SessionError::SessionTerminated)
            &&& post.seq == pre.seq
            &&& post.packet_promises == pre.packet_promises
            &&& post.sent() == pre.sent()
        } else {
            let id = pre.seq.current() as i32;
            &&& post.seq.current() == seq_successor(pre.seq.current())
            &&& if pre.pending_requests().contains(id as i64) {
                &&& (r matches Err(e) && e == SessionError::DuplicateCorrelationId)
                &&& post.pending_requests() == pre.pending_requests()
                &&& post.sent() == pre.sent()
            } else {
                &&& (r is Ok ==> post.pending_requests() == pre.pending_requests().insert(
                    id as i64,
                ) && post.sent() == pre.sent().push(OutboundView { seq: id, body }))
                &&& (r is Err ==> (r matches Err(e) && e == SessionError::TransportError)
                    && post.pending_requests() == pre.pending_requests() && post.sent()
                    == pre.sent())
            }
        }
    }

    /// A fresh session core, together with the receiving end of its
    /// outbound conduit for the network writer to drain. Not yet
    /// connected; nothing sent; no waiter live.
    pub fn new(uin: i64, start_time: i32) -> (r: (
        Client,
        tokio::sync::mpsc::UnboundedReceiver<OutboundPacket>,
    ))
        ensures
            r.0.wf(),
            r.0.status() is Unknown,
            !r.0.lifecycle.is_online(),
            r.0.lifecycle.signals() == 0,
            r.0.pending_requests() == Set::<i64>::empty(),
            r.0.receipt_waiters.pending() == Set::<i64>::empty(),
            r.0.sent() == Seq::<OutboundView>::empty(),
            r.0.uin == uin,
            r.0.start_time == start_time,
            r.0.seq.current() == 0,
            r.0.heartbeat_enabled,
            r.0.last_message_time == 0,
            r.0.reassembler.buckets_view() == Map::<i64, FragmentBucket>::empty(),
            r.0.reassembler.spec_window() == REASSEMBLY_WINDOW_MS,
            r.0.dedup.c2c@ == Map::<DedupKey, u64>::empty(),
            r.0.dedup.push_req@ == Map::<DedupKey, u64>::empty(),
            r.0.dedup.push_trans@ == Map::<DedupKey, u64>::empty(),
            r.0.dedup.c2c.spec_window() == C2C_CACHE_WINDOW_MS,
            r.0.dedup.push_req.spec_window() == PUSH_REQ_CACHE_WINDOW_MS,
            r.0.dedup.push_trans.spec_window() == PUSH_TRANS_CACHE_WINDOW_MS,
    {
        let (out_pkt_sender, out_pkt_receiver) = outbound_channel();
        let client = Client {
            seq: SequenceAllocator::new(0),
            request_id: RequestIdAllocator::new(1),
            group_seq: RequestIdAllocator::new(1),
            friend_seq: RequestIdAllocator::new(1),
            highway_apply_seq: RequestIdAllocator::new(1),
            uin,
            lifecycle: ConnectionLifecycle::new(DISCONNECT_CAPACITY),
            heartbeat_enabled: true,
            packet_promises: CorrelationTable::new(),
            receipt_waiters: CorrelationTable::new(),
            reassembler: MessageReassembler::new(REASSEMBLY_WINDOW_MS),
            dedup: DeduplicationCaches::new(
                C2C_CACHE_WINDOW_MS,
                PUSH_REQ_CACHE_WINDOW_MS,
                PUSH_TRANS_CACHE_WINDOW_MS,
            ),
            out_pkt_sender,
            sent_log: Ghost(Seq::empty()),
            account_info: AccountInfo { nickname: String::new(), age: 0, gender: 0 },
            address: AddressInfo {
                srv_sso_addrs: Vec::new(),
                other_srv_addrs: Vec::new(),
                file_storage_info: Vec::new(),
            },
            online_clients: Vec::new(),
            cache_info: CacheInfo::empty(),
            highway_session: HighwaySession { sig_session: Vec::new(), session_key: Vec::new() },
            highway_addrs: Vec::new(),
            group_sys_message_cache: GroupSystemMessages { join_group_requests: Vec::new() },
            last_message_time: 0,
            start_time,
        };
        (client, out_pkt_receiver)
    }

    /// Queues one correlated request and hands back the end on which its
    /// response will arrive. The caller awaits it under its own deadline
    /// and calls `cancel_request` on timeout.
    pub fn send_request(&mut self, body: OutboundBody) -> (r: Result<
        tokio::sync::oneshot::Receiver<Packet>,
        SessionError,
    >)
        requires
            old(self).wf(),
        ensures
            Self::sends_request(*old(self), *final(self), r, body@),
    {
        let ghost body_view = body@;
        if !self.lifecycle.can_send() {
            return Err(SessionError::SessionTerminated);
        }
        let id: i32 = self.seq.next() as i32;
        let rx = match self.packet_promises.register(id) {
            Err(e) => {
                return Err(e);
            },
            Ok(rx) => rx,
        };
        let pkt = OutboundPacket { seq: id, body };
        match outbound_send(&self.out_pkt_sender, pkt) {
            Ok(()) => {
                proof {
                    self.sent_log@ = self.sent_log@.push(OutboundView { seq: id, body: body_view });
                }
                Ok(rx)
            },
            Err(_) => {
                self.packet_promises.cancel(id);
                proof {
                    assert(self.packet_promises.pending() =~= old(self).packet_promises.pending());
                }
                Err(SessionError::TransportError)
            },
        }
    }

    /// Evicts the waiter for a correlation id whose response the caller
    /// will no longer accept (its deadline passed), so the id can be
    /// reused after wraparound without collision.
    pub fn cancel_request(&mut self, id: i32)
        requires
            old(self).wf(),
        ensures
            final(self).wf(),
            final(self).pending_requests() == old(self).pending_requests().remove(id as i64),
            Self::same_but_send_path(*old(self), *final(self)),
            final(self).seq == old(self).seq,
            final(self).sent() == old(self).sent(),
    {
        self.packet_promises.cancel(id);
    }

    /// Hands a decoded inbound packet to its waiter, keyed by the echoed
    /// correlation id. Returns whether a waiter existed; a response with
    /// no waiter is silently dropped.
    pub fn process_income_packet(&mut self, packet: Packet) -> (r: bool)
        requires
            old(self).wf(),
        ensures
            final(self).wf(),
            r == old(self).pending_requests().contains(packet.seq as i64),
            final(self).pending_requests() == old(self).pending_requests().remove(
                packet.seq as i64,
            ),
            Self::same_but_send_path(*old(self), *final(self)),
            final(self).seq == old(self).seq,
            final(self).sent() == old(self).sent(),
    {
        let id = packet.seq;
        self.packet_promises.resolve(id, packet)
    }

    /// Hands a transport delivery receipt to its waiter. Returns whether a
    /// waiter existed.
    pub fn process_receipt(&mut self, id: i32, receipt: i32) -> (r: bool)
        requires
            old(self).wf(),
        ensures
            final(self).wf(),
            r == old(self).receipt_waiters.pending().contains(id as i64),
            final(self).receipt_waiters.pending() == old(self).receipt_waiters.pending().remove(
                id as i64,
            ),
            final(self).packet_promises == old(self).packet_promises,
            final(self).seq == old(self).seq,
            final(self).lifecycle == old(self).lifecycle,
            final(self).reassembler == old(self).reassembler,
            final(self).dedup == old(self).dedup,
            final(self).sent() == old(self).sent(),
    {
        self.receipt_waiters.resolve(id, receipt)
    }

    /// Resolution of a pending join-group request (§ accept / reject a
    /// group system message), carried as one correlated request.
    pub fn solve_group_system_message(
        &mut self,
        msg_seq: i64,
        req_uin: i64,
        group_code: i64,
        suspicious: bool,
        has_invitor: bool,
        accept: bool,
        block: bool,
        reason: String,
    ) -> (r: Result<tokio::sync::oneshot::Receiver<Packet>, SessionError>)
        requires
            old(self).wf(),
        ensures
            Self::sends_request(
                *old(self),
                *final(self),
                r,
                (BodyView::SolveGroupSystemMessage {
                    msg_seq,
                    req_uin,
                    group_code,
                    suspicious,
                    has_invitor,
                    accept,
                    block,
                    reason: reason@,
                }),
            ),
    {
        self.send_request(
            OutboundBody::SolveGroupSystemMessage {
                msg_seq,
                req_uin,
                group_code,
                suspicious,
                has_invitor,
                accept,
                block,
                reason,
            },
        )
    }

    /// Resolution of a pending friend request.
    pub fn solve_friend_system_message(&mut self, msg_seq: i64, req_uin: i64, accept: bool) -> (r:
        Result<tokio::sync::oneshot::Receiver<Packet>, SessionError>)
        requires
            old(self).wf(),
        ensures
            Self::sends_request(
                *old(self),
                *final(self),
                r,
                (BodyView::SolveFriendSystemMessage { msg_seq, req_uin, accept }),
            ),
    {
        self.send_request(OutboundBody::SolveFriendSystemMessage { msg_seq, req_uin, accept })
    }

    /// Recall of a group message captured by its (sequences, randoms); no
    /// local permission check — rejection is whatever the remote returns.
    pub fn recall_group_message(&mut self, group_code: i64, seqs: Vec<i32>, rands: Vec<i32>) -> (r:
        Result<tokio::sync::oneshot::Receiver<Packet>, SessionError>)
        requires
            old(self).wf(),
        ensures
            Self::sends_request(
                *old(self),
                *final(self),
                r,
                (BodyView::RecallGroupMessage { group_code, seqs: seqs@, rands: rands@ }),
            ),
    {
        self.send_request(OutboundBody::RecallGroupMessage { group_code, seqs, rands })
    }

    /// Resource-URL request for a group audio message; the response packet
    /// carries the URL for the codec to decode.
    pub fn get_group_audio_url(&mut self, group_code: i64, audio: AudioDescriptor) -> (r: Result<
        tokio::sync::oneshot::Receiver<Packet>,
        SessionError,
    >)
        requires
            old(self).wf(),
        ensures
            Self::sends_request(
                *old(self),
                *final(self),
                r,
                (BodyView::GroupAudioUrl { group_code, audio: audio@ }),
            ),
    {
        self.send_request(OutboundBody::GroupAudioUrl { group_code, audio })
    }

    /// Resource-URL request for a friend audio message.
    pub fn get_friend_audio_url(&mut self, friend_uin: i64, audio: AudioDescriptor) -> (r: Result<
        tokio::sync::oneshot::Receiver<Packet>,
        SessionError,
    >)
        requires
            old(self).wf(),
        ensures
            Self::sends_request(
                *old(self),
                *final(self),
                r,
                (BodyView::FriendAudioUrl { friend_uin, audio: audio@ }),
            ),
    {
        self.send_request(OutboundBody::FriendAudioUrl { friend_uin, audio })
    }

    /// Exports the long-lived session material: enough to resume without a
    /// full re-authentication.
    pub fn gen_token(&self) -> (r: Token)
        ensures
            r.uin == self.uin,
            r.d2@ == self.cache_info.d2@,
            r.d2key@ == self.cache_info.d2key@,
            r.tgt@ == self.cache_info.tgt@,
            r.srm_token@ == self.cache_info.srm_token@,
            r.encrypted_a1@ == self.cache_info.encrypted_a1@,
            r.out_packet_session_id@ == self.cache_info.out_packet_session_id@,
            r.ksid@ == self.cache_info.ksid@,
            r.time_diff == self.cache_info.time_diff,
    {
        Token {
            uin: self.uin,
            d2: copy_bytes(&self.cache_info.d2),
            d2key: copy_bytes(&self.cache_info.d2key),
            tgt: copy_bytes(&self.cache_info.tgt),
            srm_token: copy_bytes(&self.cache_info.srm_token),
            encrypted_a1: copy_bytes(&self.cache_info.encrypted_a1),
            out_packet_session_id: copy_bytes(&self.cache_info.out_packet_session_id),
            ksid: copy_bytes(&self.cache_info.ksid),
            time_diff: self.cache_info.time_diff,
        }
    }

    /// Imports a session token: replaces the resumable material and resets
    /// the status to the pre-Running state a fresh connect expects. A live
    /// session must disconnect first, so the episode fires its signal.
    pub fn load_token(&mut self, token: Token)
        requires
            old(self).wf(),
            !(old(self).status() is Running),
        ensures
            final(self).wf(),
            final(self).status() is Unknown,
            !final(self).lifecycle.is_online(),
            final(self).lifecycle.signals() == old(self).lifecycle.signals(),
            final(self).uin == token.uin,
            final(self).cache_info.d2@ == token.d2@,
            final(self).cache_info.d2key@ == token.d2key@,
            final(self).cache_info.tgt@ == token.tgt@,
            final(self).cache_info.srm_token@ == token.srm_token@,
            final(self).cache_info.encrypted_a1@ == token.encrypted_a1@,
            final(self).cache_info.out_packet_session_id@ == token.out_packet_session_id@,
            final(self).cache_info.ksid@ == token.ksid@,
            final(self).cache_info.time_diff == token.time_diff,
            final(self).sent() == old(self).sent(),
            final(self).pending_requests() == old(self).pending_requests(),
    {
        self.uin = token.uin;
        self.cache_info.d2 = token.d2;
        self.cache_info.d2key = token.d2key;
        self.cache_info.tgt = token.tgt;
        self.cache_info.srm_token = token.srm_token;
        self.cache_info.encrypted_a1 = token.encrypted_a1;
        self.cache_info.out_packet_session_id = token.out_packet_session_id;
        self.cache_info.ksid = token.ksid;
        self.cache_info.time_diff = token.time_diff;
        self.lifecycle.reset();
    }
}

} // verus!
