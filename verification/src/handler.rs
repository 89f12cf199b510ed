//! The application-facing delivery capability: one registered handler per
//! client receives each decoded, deduplicated event exactly once. The
//! handler must not block the dispatch path indefinitely; long work is the
//! application's to offload.

use vstd::prelude::*;

use crate::event::{
    DeleteFriendEvent, FriendAudioMessageEvent, FriendMessageEvent, FriendMessageRecallEvent,
    FriendPokeEvent, FriendRequestEvent, GroupAudioMessageEvent, GroupDisbandEvent,
    GroupLeaveEvent, GroupMessageEvent, GroupMessageRecallEvent, GroupMuteEvent,
    GroupNameUpdateEvent, GroupRequestEvent, GroupTempMessageEvent, KickedOfflineEvent,
    MSFOfflineEvent, MemberPermissionChangeEvent, NewFriendEvent, NewMemberEvent,
    SelfInvitedEvent, QEvent,
};

verus! {

/// One method per event variant; an application implements this once per
/// client. Dispatch is exhaustive over the variant set, so an
/// implementation cannot silently miss a kind of push.
pub trait Handler {
    fn handle_group_message(&mut self, event: GroupMessageEvent);

    fn handle_friend_message(&mut self, event: FriendMessageEvent);

    fn handle_group_temp_message(&mut self, event: GroupTempMessageEvent);

    fn handle_group_request(&mut self, event: GroupRequestEvent);

    fn handle_friend_request(&mut self, event: FriendRequestEvent);

    fn handle_new_member(&mut self, event: NewMemberEvent);

    fn handle_group_mute(&mut self, event: GroupMuteEvent);

    fn handle_friend_message_recall(&mut self, event: FriendMessageRecallEvent);

    fn handle_group_message_recall(&mut self, event: GroupMessageRecallEvent);

    fn handle_new_friend(&mut self, event: NewFriendEvent);

    fn handle_group_leave(&mut self, event: GroupLeaveEvent);

    fn handle_group_disband(&mut self, event: GroupDisbandEvent);

    fn handle_friend_poke(&mut self, event: FriendPokeEvent);

    fn handle_group_name_update(&mut self, event: GroupNameUpdateEvent);

    fn handle_delete_friend(&mut self, event: DeleteFriendEvent);

    fn handle_member_permission_change(&mut self, event: MemberPermissionChangeEvent);

    fn handle_self_invited(&mut self, event: SelfInvitedEvent);

    fn handle_group_audio_message(&mut self, event: GroupAudioMessageEvent);

    fn handle_friend_audio_message(&mut self, event: FriendAudioMessageEvent);

    fn handle_kicked_offline(&mut self, event: KickedOfflineEvent);

    fn handle_msf_offline(&mut self, event: MSFOfflineEvent);
}

/// Delivers one decoded event to the handler method of its variant;
/// exhaustive by construction, so every push kind reaches the application.
pub fn dispatch<H: Handler>(handler: &mut H, event: QEvent) {
    match event {
        QEvent::GroupMessage(e) => handler.handle_group_message(e),
        QEvent::FriendMessage(e) => handler.handle_friend_message(e),
        QEvent::GroupTempMessage(e) => handler.handle_group_temp_message(e),
        QEvent::GroupRequest(e) => handler.handle_group_request(e),
        QEvent::FriendRequest(e) => handler.handle_friend_request(e),
        QEvent::NewMember(e) => handler.handle_new_member(e),
        QEvent::GroupMute(e) => handler.handle_group_mute(e),
        QEvent::FriendMessageRecall(e) => handler.handle_friend_message_recall(e),
        QEvent::GroupMessageRecall(e) => handler.handle_group_message_recall(e),
        QEvent::NewFriend(e) => handler.handle_new_friend(e),
        QEvent::GroupLeave(e) => handler.handle_group_leave(e),
        QEvent::GroupDisband(e) => handler.handle_group_disband(e),
        QEvent::FriendPoke(e) => handler.handle_friend_poke(e),
        QEvent::GroupNameUpdate(e) => handler.handle_group_name_update(e),
        QEvent::DeleteFriend(e) => handler.handle_delete_friend(e),
        QEvent::MemberPermissionChange(e) => handler.handle_member_permission_change(e),
        QEvent::SelfInvited(e) => handler.handle_self_invited(e),
        QEvent::GroupAudioMessage(e) => handler.handle_group_audio_message(e),
        QEvent::FriendAudioMessage(e) => handler.handle_friend_audio_message(e),
        QEvent::KickedOffline(e) => handler.handle_kicked_offline(e),
        QEvent::MSFOffline(e) => handler.handle_msf_offline(e),
    }
}

} // verus!
