//! The typed units that cross the session core's boundary: the decoded
//! inbound packet handed up by the codec, the typed outbound requests the
//! core queues for the writer, and the decoded payload models the events
//! carry. The byte-level encoding and decryption live outside; the core
//! sees correlation id, command name and payload.

use vstd::prelude::*;

verus! {

/// A decoded inbound packet: the correlation id echoed from the request,
/// the command name, and the opaque payload the codec decoded.
#[derive(Clone, Debug, PartialEq, Eq)]
pub struct Packet {
    pub seq: i32,
    pub command: String,
    pub body: Vec<u8>,
}

/// Descriptor of a stored audio resource, enough to request its URL.
#[derive(Clone, Debug, PartialEq, Eq)]
pub struct AudioDescriptor {
    pub file_md5: Vec<u8>,
    pub file_uuid: Vec<u8>,
    pub file_size: i32,
}

/// The typed body of an outbound correlated request.
#[derive(Clone, Debug, PartialEq, Eq)]
pub enum OutboundBody {
    /// Resolution of a pending join-group request.
    SolveGroupSystemMessage {
        msg_seq: i64,
        req_uin: i64,
        group_code: i64,
        suspicious: bool,
        has_invitor: bool,
        accept: bool,
        block: bool,
        reason: String,
    },
    /// Resolution of a pending friend request.
    SolveFriendSystemMessage { msg_seq: i64, req_uin: i64, accept: bool },
    /// Recall of a group message captured by (sequences, randoms).
    RecallGroupMessage { group_code: i64, seqs: Vec<i32>, rands: Vec<i32> },
    /// Resource-URL lookup for a group audio message.
    GroupAudioUrl { group_code: i64, audio: AudioDescriptor },
    /// Resource-URL lookup for a friend audio message.
    FriendAudioUrl { friend_uin: i64, audio: AudioDescriptor },
}

/// One outbound correlated request as queued on the ordered conduit to the
/// network writer: its fresh correlation id and its typed body.
#[derive(Clone, Debug, PartialEq, Eq)]
pub struct OutboundPacket {
    pub seq: i32,
    pub body: OutboundBody,
}

/// Spec-level image of an audio descriptor.
pub struct AudioView {
    pub file_md5: Seq<u8>,
    pub file_uuid: Seq<u8>,
    pub file_size: i32,
}

impl View for AudioDescriptor {
    type V = AudioView;

    open spec fn view(&self) -> AudioView {
        AudioView { file_md5: self.file_md5@, file_uuid: self.file_uuid@, file_size: self.file_size }
    }
}

/// Spec-level image of an outbound request body, with the collections
/// abstracted to sequences so that equal contents mean equal bodies.
pub enum BodyView {
    SolveGroupSystemMessage {
        msg_seq: i64,
        req_uin: i64,
        group_code: i64,
        suspicious: bool,
        has_invitor: bool,
        accept: bool,
        block: bool,
        reason: Seq<char>,
    },
    SolveFriendSystemMessage { msg_seq: i64, req_uin: i64, accept: bool },
    RecallGroupMessage { group_code: i64, seqs: Seq<i32>, rands: Seq<i32> },
    GroupAudioUrl { group_code: i64, audio: AudioView },
    FriendAudioUrl { friend_uin: i64, audio: AudioView },
}

impl View for OutboundBody {
    type V = BodyView;

    open spec fn view(&self) -> BodyView {
        match *self {
            OutboundBody::SolveGroupSystemMessage {
                msg_seq,
                req_uin,
                group_code,
                suspicious,
                has_invitor,
                accept,
                block,
                reason,
            } => BodyView::SolveGroupSystemMessage {
                msg_seq,
                req_uin,
                group_code,
                suspicious,
                has_invitor,
                accept,
                block,
                reason: reason@,
            },
            OutboundBody::SolveFriendSystemMessage { msg_seq, req_uin, accept } => BodyView::SolveFriendSystemMessage {
                msg_seq,
                req_uin,
                accept,
            },
            OutboundBody::RecallGroupMessage { group_code, seqs, rands } => BodyView::RecallGroupMessage {
                group_code,
                seqs: seqs@,
                rands: rands@,
            },
            OutboundBody::GroupAudioUrl { group_code, audio } => BodyView::GroupAudioUrl {
                group_code,
                audio: audio@,
            },
            OutboundBody::FriendAudioUrl { friend_uin, audio } => BodyView::FriendAudioUrl {
                friend_uin,
                audio: audio@,
            },
        }
    }
}

/// Spec-level image of one queued outbound packet.
pub struct OutboundView {
    pub seq: i32,
    pub body: BodyView,
}

impl View for OutboundPacket {
    type V = OutboundView;

    open spec fn view(&self) -> OutboundView {
        OutboundView { seq: self.seq, body: self.body@ }
    }
}

/// A fresh byte vector with the same contents.
pub fn copy_bytes(v: &Vec<u8>) -> (r: Vec<u8>)
    ensures
        r@ == v@,
{
    let mut r: Vec<u8> = Vec::new();
    let n = v.len();
    let mut i: usize = 0;
    while i < n
        invariant
            n == v@.len(),
            i <= n,
            r@ == v@.take(i as int),
        decreases n - i,
    {
        r.push(v[i]);
        proof {
            assert(v@.take(i + 1) =~= v@.take(i as int).push(v@[i as int]));
        }
        i += 1;
    }
    proof {
        assert(v@.take(n as int) =~= v@);
    }
    r
}

/// A fresh vector with the same 32-bit entries.
pub fn copy_i32s(v: &Vec<i32>) -> (r: Vec<i32>)
    ensures
        r@ == v@,
{
    let mut r: Vec<i32> = Vec::new();
    let n = v.len();
    let mut i: usize = 0;
    while i < n
        invariant
            n == v@.len(),
            i <= n,
            r@ == v@.take(i as int),
        decreases n - i,
    {
        r.push(v[i]);
        proof {
            assert(v@.take(i + 1) =~= v@.take(i as int).push(v@[i as int]));
        }
        i += 1;
    }
    proof {
        assert(v@.take(n as int) =~= v@);
    }
    r
}

/// A fresh audio descriptor with the same contents (same spec image).
pub fn copy_audio(a: &AudioDescriptor) -> (r: AudioDescriptor)
    ensures
        r@ == a@,
{
    AudioDescriptor {
        file_md5: copy_bytes(&a.file_md5),
        file_uuid: copy_bytes(&a.file_uuid),
        file_size: a.file_size,
    }
}

/// A decoded group message, with what its recall needs captured.
#[derive(Clone, Debug, PartialEq, Eq)]
pub struct GroupMessage {
    pub group_code: i64,
    pub from_uin: i64,
    pub time: i32,
    pub seqs: Vec<i32>,
    pub rands: Vec<i32>,
    pub content: Vec<u8>,
}

/// A decoded friend (peer-to-peer) message.
#[derive(Clone, Debug, PartialEq, Eq)]
pub struct FriendMessage {
    pub from_uin: i64,
    pub target: i64,
    pub time: i32,
    pub seqs: Vec<i32>,
    pub rands: Vec<i32>,
    pub content: Vec<u8>,
}

/// A decoded temporary conversation message routed through a group.
#[derive(Clone, Debug, PartialEq, Eq)]
pub struct GroupTempMessage {
    pub group_code: i64,
    pub from_uin: i64,
    pub time: i32,
    pub seqs: Vec<i32>,
    pub content: Vec<u8>,
}

/// A pending request to join a group, as pushed by the service.
#[derive(Clone, Debug, PartialEq, Eq)]
pub struct JoinGroupRequest {
    pub msg_seq: i64,
    pub req_uin: i64,
    pub group_code: i64,
    pub message: String,
    pub suspicious: bool,
    /// The inviting member, when the requester was invited.
    pub invitor_uin: Option<i64>,
}

/// A pending friend request, as pushed by the service.
#[derive(Clone, Debug, PartialEq, Eq)]
pub struct NewFriendRequest {
    pub msg_seq: i64,
    pub req_uin: i64,
    pub message: String,
}

/// A decoded group audio message.
#[derive(Clone, Debug, PartialEq, Eq)]
pub struct GroupAudioMessage {
    pub group_code: i64,
    pub from_uin: i64,
    pub time: i32,
    pub audio: AudioDescriptor,
}

/// A decoded friend audio message.
#[derive(Clone, Debug, PartialEq, Eq)]
pub struct FriendAudioMessage {
    pub from_uin: i64,
    pub target: i64,
    pub time: i32,
    pub audio: AudioDescriptor,
}

/// A member newly joined a group.
#[derive(Clone, Debug, PartialEq, Eq)]
pub struct NewMember {
    pub group_code: i64,
    pub member_uin: i64,
}

/// A mute imposed in a group; a zero duration lifts it.
#[derive(Clone, Debug, PartialEq, Eq)]
pub struct GroupMute {
    pub group_code: i64,
    pub operator_uin: i64,
    pub target_uin: i64,
    pub time: i32,
    pub duration_seconds: i64,
}

/// A friend recalled a message.
#[derive(Clone, Debug, PartialEq, Eq)]
pub struct FriendMessageRecall {
    pub friend_uin: i64,
    pub msg_seq: i32,
    pub time: i64,
}

/// A group message was recalled.
#[derive(Clone, Debug, PartialEq, Eq)]
pub struct GroupMessageRecall {
    pub group_code: i64,
    pub operator_uin: i64,
    pub author_uin: i64,
    pub msg_seq: i32,
    pub time: i32,
}

/// A new friend relation.
#[derive(Clone, Debug, PartialEq, Eq)]
pub struct FriendInfo {
    pub uin: i64,
    pub nick: String,
    pub remark: String,
}

/// A member left a group, on their own or removed by an operator.
#[derive(Clone, Debug, PartialEq, Eq)]
pub struct GroupLeave {
    pub group_code: i64,
    pub member_uin: i64,
    pub operator_uin: Option<i64>,
}

/// A group was disbanded.
#[derive(Clone, Debug, PartialEq, Eq)]
pub struct GroupDisband {
    pub group_code: i64,
    pub operator_uin: i64,
}

/// A friend poked the account.
#[derive(Clone, Debug, PartialEq, Eq)]
pub struct FriendPoke {
    pub sender: i64,
    pub receiver: i64,
}

/// A group's name changed.
#[derive(Clone, Debug, PartialEq, Eq)]
pub struct GroupNameUpdate {
    pub group_code: i64,
    pub operator_uin: i64,
    pub group_name: String,
}

/// A friend relation was deleted.
#[derive(Clone, Debug, PartialEq, Eq)]
pub struct DeleteFriend {
    pub uin: i64,
}

/// A member's permission level changed.
#[derive(Clone, Debug, PartialEq, Eq)]
pub struct MemberPermissionChange {
    pub group_code: i64,
    pub member_uin: i64,
    pub new_permission: i32,
}

/// The account itself was invited into a group.
#[derive(Clone, Debug, PartialEq, Eq)]
pub struct SelfInvited {
    pub msg_seq: i64,
    pub invitor_uin: i64,
    pub invitor_nick: String,
    pub group_code: i64,
    pub group_name: String,
}

/// The server's notice that another client took over the session.
#[derive(Clone, Debug, PartialEq, Eq)]
pub struct ForceOfflineNotice {
    pub uin: i64,
    pub title: String,
    pub tips: String,
}

/// The server's notice that it forcibly ended the session.
#[derive(Clone, Debug, PartialEq, Eq)]
pub struct MsfOfflineNotice {
    pub uin: i64,
    pub seq_no: i64,
    pub info: String,
}

} // verus!
