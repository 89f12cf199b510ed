//! The event model: each decoded server push becomes an immutable snapshot
//! paired, at delivery time, with the client handle that owns it. The
//! variants that expose reply actions (accept/reject a request, recall a
//! message, fetch a resource URL) re-enter the client's correlated request
//! surface — they are ordinary requests, not a separate protocol.

use vstd::prelude::*;

use crate::client::Client;
use crate::errors::SessionError;
use crate::message::{
    BodyView, DeleteFriend, ForceOfflineNotice, FriendAudioMessage, FriendInfo, FriendMessage,
    FriendMessageRecall, FriendPoke, GroupAudioMessage, GroupDisband, GroupLeave, GroupMessage,
    GroupMessageRecall, GroupMute, GroupNameUpdate, GroupTempMessage, JoinGroupRequest,
    MemberPermissionChange, MsfOfflineNotice, NewFriendRequest, NewMember, Packet, SelfInvited,
    copy_audio, copy_i32s,
};

verus! {

/// A decoded group message, ready for delivery.
#[derive(Clone, Debug, PartialEq, Eq)]
pub struct GroupMessageEvent {
    pub message: GroupMessage,
}

impl GroupMessageEvent {
    /// Re-sends the recall for the (group, sequences, randoms) captured at
    /// event construction; no local permission check is made, rejection is
    /// whatever the remote returns.
    pub fn recall(&self, client: &mut Client) -> (r: Result<
        tokio::sync::oneshot::Receiver<Packet>,
        SessionError,
    >)
        requires
            old(client).wf(),
        ensures
            Client::sends_request(
                *old(client),
                *final(client),
                r,
                (BodyView::RecallGroupMessage {
                    group_code: self.message.group_code,
                    seqs: self.message.seqs@,
                    rands: self.message.rands@,
                }),
            ),
    {
        client.recall_group_message(
            self.message.group_code,
            copy_i32s(&self.message.seqs),
            copy_i32s(&self.message.rands),
        )
    }
}

/// A decoded friend message, ready for delivery.
#[derive(Clone, Debug, PartialEq, Eq)]
pub struct FriendMessageEvent {
    pub message: FriendMessage,
}

/// A decoded temporary conversation message.
#[derive(Clone, Debug, PartialEq, Eq)]
pub struct GroupTempMessageEvent {
    pub message: GroupTempMessage,
}

/// A pending join-group request, with its resolution actions.
#[derive(Clone, Debug, PartialEq, Eq)]
pub struct GroupRequestEvent {
    pub request: JoinGroupRequest,
}

impl GroupRequestEvent {
    /// Accepts the join request: one resolution packet carrying the
    /// captured (sequence, requester, group) with accept set and nothing
    /// blocked.
    pub fn accept(&self, client: &mut Client) -> (r: Result<
        tokio::sync::oneshot::Receiver<Packet>,
        SessionError,
    >)
        requires
            old(client).wf(),
        ensures
            Client::sends_request(
                *old(client),
                *final(client),
                r,
                (BodyView::SolveGroupSystemMessage {
                    msg_seq: self.request.msg_seq,
                    req_uin: self.request.req_uin,
                    group_code: self.request.group_code,
                    suspicious: self.request.suspicious,
                    has_invitor: self.request.invitor_uin is Some,
                    accept: true,
                    block: false,
                    reason: Seq::<char>::empty(),
                }),
            ),
    {
        client.solve_group_system_message(
            self.request.msg_seq,
            self.request.req_uin,
            self.request.group_code,
            self.request.suspicious,
            self.request.invitor_uin.is_some(),
            true,
            false,
            String::new(),
        )
    }

    /// Rejects the join request: one resolution packet carrying the
    /// captured (sequence, requester, group) with accept cleared, plus the
    /// supplied reason and block flag.
    pub fn reject(&self, client: &mut Client, reason: String, block: bool) -> (r: Result<
        tokio::sync::oneshot::Receiver<Packet>,
        SessionError,
    >)
        requires
            old(client).wf(),
        ensures
            Client::sends_request(
                *old(client),
                *final(client),
                r,
                (BodyView::SolveGroupSystemMessage {
                    msg_seq: self.request.msg_seq,
                    req_uin: self.request.req_uin,
                    group_code: self.request.group_code,
                    suspicious: self.request.suspicious,
                    has_invitor: self.request.invitor_uin is Some,
                    accept: false,
                    block,
                    reason: reason@,
                }),
            ),
    {
        client.solve_group_system_message(
            self.request.msg_seq,
            self.request.req_uin,
            self.request.group_code,
            self.request.suspicious,
            self.request.invitor_uin.is_some(),
            false,
            block,
            reason,
        )
    }
}

/// A pending friend request, with its resolution actions.
#[derive(Clone, Debug, PartialEq, Eq)]
pub struct FriendRequestEvent {
    pub request: NewFriendRequest,
}

impl FriendRequestEvent {
    /// Accepts the friend request.
    pub fn accept(&self, client: &mut Client) -> (r: Result<
        tokio::sync::oneshot::Receiver<Packet>,
        SessionError,
    >)
        requires
            old(client).wf(),
        ensures
            Client::sends_request(
                *old(client),
                *final(client),
                r,
                (BodyView::SolveFriendSystemMessage {
                    msg_seq: self.request.msg_seq,
                    req_uin: self.request.req_uin,
                    accept: true,
                }),
            ),
    {
        client.solve_friend_system_message(self.request.msg_seq, self.request.req_uin, true)
    }

    /// Rejects the friend request.
    pub fn reject(&self, client: &mut Client) -> (r: Result<
        tokio::sync::oneshot::Receiver<Packet>,
        SessionError,
    >)
        requires
            old(client).wf(),
        ensures
            Client::sends_request(
                *old(client),
                *final(client),
                r,
                (BodyView::SolveFriendSystemMessage {
                    msg_seq: self.request.msg_seq,
                    req_uin: self.request.req_uin,
                    accept: false,
                }),
            ),
    {
        client.solve_friend_system_message(self.request.msg_seq, self.request.req_uin, false)
    }
}

/// A member newly joined a group.
#[derive(Clone, Debug, PartialEq, Eq)]
pub struct NewMemberEvent {
    pub new_member: NewMember,
}

/// A mute imposed or lifted in a group.
#[derive(Clone, Debug, PartialEq, Eq)]
pub struct GroupMuteEvent {
    pub group_mute: GroupMute,
}

/// A friend recalled a message.
#[derive(Clone, Debug, PartialEq, Eq)]
pub struct FriendMessageRecallEvent {
    pub recall: FriendMessageRecall,
}

/// A group message was recalled.
#[derive(Clone, Debug, PartialEq, Eq)]
pub struct GroupMessageRecallEvent {
    pub recall: GroupMessageRecall,
}

/// A new friend relation appeared.
#[derive(Clone, Debug, PartialEq, Eq)]
pub struct NewFriendEvent {
    pub friend: FriendInfo,
}

/// A member left a group.
#[derive(Clone, Debug, PartialEq, Eq)]
pub struct GroupLeaveEvent {
    pub leave: GroupLeave,
}

/// A group was disbanded.
#[derive(Clone, Debug, PartialEq, Eq)]
pub struct GroupDisbandEvent {
    pub disband: GroupDisband,
}

/// A friend poked the account.
#[derive(Clone, Debug, PartialEq, Eq)]
pub struct FriendPokeEvent {
    pub poke: FriendPoke,
}

/// A group's name changed.
#[derive(Clone, Debug, PartialEq, Eq)]
pub struct GroupNameUpdateEvent {
    pub update: GroupNameUpdate,
}

/// A friend relation was deleted.
#[derive(Clone, Debug, PartialEq, Eq)]
pub struct DeleteFriendEvent {
    pub delete: DeleteFriend,
}

/// A member's permission level changed.
#[derive(Clone, Debug, PartialEq, Eq)]
pub struct MemberPermissionChangeEvent {
    pub change: MemberPermissionChange,
}

/// The account itself was invited into a group.
#[derive(Clone, Debug, PartialEq, Eq)]
pub struct SelfInvitedEvent {
    pub request: SelfInvited,
}

/// A group audio message, with its resource lookup.
#[derive(Clone, Debug, PartialEq, Eq)]
pub struct GroupAudioMessageEvent {
    pub message: GroupAudioMessage,
}

impl GroupAudioMessageEvent {
    /// Requests the resource URL for the captured audio descriptor; the
    /// response packet carries the URL for the codec to decode.
    pub fn url(&self, client: &mut Client) -> (r: Result<
        tokio::sync::oneshot::Receiver<Packet>,
        SessionError,
    >)
        requires
            old(client).wf(),
        ensures
            Client::sends_request(
                *old(client),
                *final(client),
                r,
                (BodyView::GroupAudioUrl {
                    group_code: self.message.group_code,
                    audio: self.message.audio@,
                }),
            ),
    {
        client.get_group_audio_url(self.message.group_code, copy_audio(&self.message.audio))
    }
}

/// A friend audio message, with its resource lookup.
#[derive(Clone, Debug, PartialEq, Eq)]
pub struct FriendAudioMessageEvent {
    pub message: FriendAudioMessage,
}

impl FriendAudioMessageEvent {
    /// Requests the resource URL for the captured audio descriptor.
    pub fn url(&self, client: &mut Client) -> (r: Result<
        tokio::sync::oneshot::Receiver<Packet>,
        SessionError,
    >)
        requires
            old(client).wf(),
        ensures
            Client::sends_request(
                *old(client),
                *final(client),
                r,
                (BodyView::FriendAudioUrl {
                    friend_uin: self.message.from_uin,
                    audio: self.message.audio@,
                }),
            ),
    {
        client.get_friend_audio_url(self.message.from_uin, copy_audio(&self.message.audio))
    }
}

/// Another client took over the session.
#[derive(Clone, Debug, PartialEq, Eq)]
pub struct KickedOfflineEvent {
    pub offline: ForceOfflineNotice,
}

/// The server forcibly ended the session.
#[derive(Clone, Debug, PartialEq, Eq)]
pub struct MSFOfflineEvent {
    pub offline: MsfOfflineNotice,
}

/// The tagged union of every event the dispatcher can deliver.
#[derive(Clone, Debug, PartialEq, Eq)]
pub enum QEvent {
    GroupMessage(GroupMessageEvent),
    FriendMessage(FriendMessageEvent),
    GroupTempMessage(GroupTempMessageEvent),
    GroupRequest(GroupRequestEvent),
    FriendRequest(FriendRequestEvent),
    NewMember(NewMemberEvent),
    GroupMute(GroupMuteEvent),
    FriendMessageRecall(FriendMessageRecallEvent),
    GroupMessageRecall(GroupMessageRecallEvent),
    NewFriend(NewFriendEvent),
    GroupLeave(GroupLeaveEvent),
    GroupDisband(GroupDisbandEvent),
    FriendPoke(FriendPokeEvent),
    GroupNameUpdate(GroupNameUpdateEvent),
    DeleteFriend(DeleteFriendEvent),
    MemberPermissionChange(MemberPermissionChangeEvent),
    SelfInvited(SelfInvitedEvent),
    GroupAudioMessage(GroupAudioMessageEvent),
    FriendAudioMessage(FriendAudioMessageEvent),
    KickedOffline(KickedOfflineEvent),
    MSFOffline(MSFOfflineEvent),
}

} // verus!
