use ricq_session::{
    DeleteFriend, DeleteFriendEvent, ForceOfflineNotice, FriendPoke, FriendPokeEvent,
    GroupMessage, GroupMessageEvent, Handler, JoinGroupRequest, GroupRequestEvent,
    KickedOfflineEvent, MSFOfflineEvent, MsfOfflineNotice, QEvent, dispatch,
    FriendMessageEvent, GroupTempMessageEvent, FriendRequestEvent, NewMemberEvent,
    GroupMuteEvent, FriendMessageRecallEvent, GroupMessageRecallEvent, NewFriendEvent,
    GroupLeaveEvent, GroupDisbandEvent, GroupNameUpdateEvent, MemberPermissionChangeEvent,
    SelfInvitedEvent, GroupAudioMessageEvent, FriendAudioMessageEvent,
};

#[derive(Default)]
struct Recorder {
    group_messages: Vec<i64>,
    group_requests: Vec<i64>,
    pokes: Vec<(i64, i64)>,
    deletes: Vec<i64>,
    kicked: usize,
    msf: usize,
    others: usize,
}

impl Handler for Recorder {
    fn handle_group_message(&mut self, event: GroupMessageEvent) {
        self.group_messages.push(event.message.group_code);
    }
    fn handle_friend_message(&mut self, _event: FriendMessageEvent) {
        self.others += 1;
    }
    fn handle_group_temp_message(&mut self, _event: GroupTempMessageEvent) {
        self.others += 1;
    }
    fn handle_group_request(&mut self, event: GroupRequestEvent) {
        self.group_requests.push(event.request.msg_seq);
    }
    fn handle_friend_request(&mut self, _event: FriendRequestEvent) {
        self.others += 1;
    }
    fn handle_new_member(&mut self, _event: NewMemberEvent) {
        self.others += 1;
    }
    fn handle_group_mute(&mut self, _event: GroupMuteEvent) {
        self.others += 1;
    }
    fn handle_friend_message_recall(&mut self, _event: FriendMessageRecallEvent) {
        self.others += 1;
    }
    fn handle_group_message_recall(&mut self, _event: GroupMessageRecallEvent) {
        self.others += 1;
    }
    fn handle_new_friend(&mut self, _event: NewFriendEvent) {
        self.others += 1;
    }
    fn handle_group_leave(&mut self, _event: GroupLeaveEvent) {
        self.others += 1;
    }
    fn handle_group_disband(&mut self, _event: GroupDisbandEvent) {
        self.others += 1;
    }
    fn handle_friend_poke(&mut self, event: FriendPokeEvent) {
        self.pokes.push((event.poke.sender, event.poke.receiver));
    }
    fn handle_group_name_update(&mut self, _event: GroupNameUpdateEvent) {
        self.others += 1;
    }
    fn handle_delete_friend(&mut self, event: DeleteFriendEvent) {
        self.deletes.push(event.delete.uin);
    }
    fn handle_member_permission_change(&mut self, _event: MemberPermissionChangeEvent) {
        self.others += 1;
    }
    fn handle_self_invited(&mut self, _event: SelfInvitedEvent) {
        self.others += 1;
    }
    fn handle_group_audio_message(&mut self, _event: GroupAudioMessageEvent) {
        self.others += 1;
    }
    fn handle_friend_audio_message(&mut self, _event: FriendAudioMessageEvent) {
        self.others += 1;
    }
    fn handle_kicked_offline(&mut self, _event: KickedOfflineEvent) {
        self.kicked += 1;
    }
    fn handle_msf_offline(&mut self, _event: MSFOfflineEvent) {
        self.msf += 1;
    }
}

#[test]
fn dispatch_routes_each_variant_to_its_method() {
    let mut h = Recorder::default();
    dispatch(
        &mut h,
        QEvent::GroupMessage(GroupMessageEvent {
            message: GroupMessage {
                group_code: 5,
                from_uin: 1,
                time: 0,
                seqs: vec![],
                rands: vec![],
                content: vec![],
            },
        }),
    );
    dispatch(
        &mut h,
        QEvent::GroupRequest(GroupRequestEvent {
            request: JoinGroupRequest {
                msg_seq: 40,
                req_uin: 2,
                group_code: 5,
                message: String::new(),
                suspicious: false,
                invitor_uin: None,
            },
        }),
    );
    dispatch(&mut h, QEvent::FriendPoke(FriendPokeEvent { poke: FriendPoke { sender: 1, receiver: 2 } }));
    dispatch(&mut h, QEvent::DeleteFriend(DeleteFriendEvent { delete: DeleteFriend { uin: 77 } }));
    dispatch(
        &mut h,
        QEvent::KickedOffline(KickedOfflineEvent {
            offline: ForceOfflineNotice {
                uin: 9,
                title: String::from("notice"),
                tips: String::from("signed in elsewhere"),
            },
        }),
    );
    dispatch(
        &mut h,
        QEvent::MSFOffline(MSFOfflineEvent {
            offline: MsfOfflineNotice { uin: 9, seq_no: 1, info: String::new() },
        }),
    );

    assert_eq!(h.group_messages, vec![5]);
    assert_eq!(h.group_requests, vec![40]);
    assert_eq!(h.pokes, vec![(1, 2)]);
    assert_eq!(h.deletes, vec![77]);
    assert_eq!(h.kicked, 1);
    assert_eq!(h.msf, 1);
    assert_eq!(h.others, 0, "no event strayed into another method");
}
