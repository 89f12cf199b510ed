//! Session core of an instant-messaging client: correlation-id allocation,
//! request/response matching, multi-part message reassembly, time-windowed
//! deduplication, connection-status lifecycle, and the event model that binds
//! decoded server pushes back to actionable client handles.

mod assoc;
mod auth;
mod channels;
mod client;
mod dedup;
mod errors;
mod event;
mod handler;
mod message;
mod promise;
mod reassembly;
mod seq_alloc;
mod session;
mod status;

pub use assoc::AssocMap;
pub use auth::Password;
pub use client::Client;
pub use dedup::{DedupKey, DeduplicationCaches, TtlSet};
pub use errors::SessionError;
pub use event::{
    DeleteFriendEvent, FriendAudioMessageEvent, FriendMessageEvent, FriendMessageRecallEvent,
    FriendPokeEvent, FriendRequestEvent, GroupAudioMessageEvent, GroupDisbandEvent,
    GroupLeaveEvent, GroupMessageEvent, GroupMessageRecallEvent, GroupMuteEvent,
    GroupNameUpdateEvent, GroupRequestEvent, GroupTempMessageEvent, KickedOfflineEvent,
    MSFOfflineEvent, MemberPermissionChangeEvent, NewFriendEvent, NewMemberEvent, QEvent,
    SelfInvitedEvent,
};
pub use handler::{Handler, dispatch};
pub use message::{
    AudioDescriptor, AudioView, BodyView, DeleteFriend, ForceOfflineNotice, FriendAudioMessage,
    FriendInfo, FriendMessage, FriendMessageRecall, FriendPoke, GroupAudioMessage, GroupDisband,
    GroupLeave, GroupMessage, GroupMessageRecall, GroupMute, GroupNameUpdate, GroupTempMessage,
    JoinGroupRequest, MemberPermissionChange, MsfOfflineNotice, NewFriendRequest, NewMember,
    OutboundBody, OutboundPacket, OutboundView, Packet, SelfInvited, copy_audio, copy_bytes,
    copy_i32s,
};
pub use promise::CorrelationTable;
pub use reassembly::{FragmentBucket, MessageReassembler, Part};
pub use seq_alloc::{RequestIdAllocator, SequenceAllocator};
pub use session::{
    AccountInfo, AddressInfo, CacheInfo, GroupSystemMessages, HighwayAddr, HighwaySession,
    OtherClientInfo, Token,
};
pub use status::{ConnectionLifecycle, NetworkStatus};
