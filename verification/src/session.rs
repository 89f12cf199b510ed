//! The shared session record: account identity, address books, the other
//! logged-in devices, the cached session material a resumed login needs,
//! the highway (bulk-transfer) sub-session, and the snapshot of pending
//! group system messages. Each group is an independent record so callers
//! can guard them separately.

use vstd::prelude::*;

use crate::message::JoinGroupRequest;

verus! {

/// Identity of the signed-in account.
#[derive(Clone, Debug, PartialEq, Eq)]
pub struct AccountInfo {
    pub nickname: String,
    pub age: u16,
    pub gender: u16,
}

/// Server address books: main command servers, other services, and the
/// file-storage service list.
#[derive(Clone, Debug, PartialEq, Eq)]
pub struct AddressInfo {
    pub srv_sso_addrs: Vec<String>,
    pub other_srv_addrs: Vec<String>,
    pub file_storage_info: Vec<String>,
}

/// Another device signed in on the same account.
#[derive(Clone, Debug, PartialEq, Eq)]
pub struct OtherClientInfo {
    pub app_id: i64,
    pub device_name: String,
    pub device_kind: String,
}

/// The session-scoped signature and cookie material the login exchange
/// yields and a resumed session replays.
#[derive(Clone, Debug, PartialEq, Eq)]
pub struct CacheInfo {
    pub t104: Vec<u8>,
    pub t174: Vec<u8>,
    pub g: Vec<u8>,
    pub t402: Vec<u8>,
    pub t150: Vec<u8>,
    pub t149: Vec<u8>,
    pub t528: Vec<u8>,
    pub t530: Vec<u8>,
    pub rand_seed: Vec<u8>,
    pub rollback_sig: Vec<u8>,
    pub sync_cookie: Vec<u8>,
    pub pub_account_cookie: Vec<u8>,
    pub msg_ctrl_buf: Vec<u8>,
    pub ksid: Vec<u8>,
    pub d2: Vec<u8>,
    pub d2key: Vec<u8>,
    pub tgt: Vec<u8>,
    pub srm_token: Vec<u8>,
    pub encrypted_a1: Vec<u8>,
    pub out_packet_session_id: Vec<u8>,
    pub dpwd: Vec<u8>,
    pub time_diff: i64,
    pub pwd_flag: bool,
}

impl CacheInfo {
    /// Empty session material, as before any login.
    pub fn empty() -> (r: CacheInfo)
        ensures
            r.t104@.len() == 0,
            r.t174@.len() == 0,
            r.g@.len() == 0,
            r.t402@.len() == 0,
            r.t150@.len() == 0,
            r.t149@.len() == 0,
            r.t528@.len() == 0,
            r.t530@.len() == 0,
            r.rand_seed@.len() == 0,
            r.rollback_sig@.len() == 0,
            r.sync_cookie@.len() == 0,
            r.pub_account_cookie@.len() == 0,
            r.msg_ctrl_buf@.len() == 0,
            r.ksid@.len() == 0,
            r.d2@.len() == 0,
            r.d2key@.len() == 0,
            r.tgt@.len() == 0,
            r.srm_token@.len() == 0,
            r.encrypted_a1@.len() == 0,
            r.out_packet_session_id@.len() == 0,
            r.dpwd@.len() == 0,
            r.time_diff == 0,
            !r.pwd_flag,
    {
        CacheInfo {
            t104: Vec::new(),
            t174: Vec::new(),
            g: Vec::new(),
            t402: Vec::new(),
            t150: Vec::new(),
            t149: Vec::new(),
            t528: Vec::new(),
            t530: Vec::new(),
            rand_seed: Vec::new(),
            rollback_sig: Vec::new(),
            sync_cookie: Vec::new(),
            pub_account_cookie: Vec::new(),
            msg_ctrl_buf: Vec::new(),
            ksid: Vec::new(),
            d2: Vec::new(),
            d2key: Vec::new(),
            tgt: Vec::new(),
            srm_token: Vec::new(),
            encrypted_a1: Vec::new(),
            out_packet_session_id: Vec::new(),
            dpwd: Vec::new(),
            time_diff: 0,
            pwd_flag: false,
        }
    }
}

/// The exported snapshot of long-lived session material: enough to resume
/// a session without a full re-authentication.
#[derive(Clone, Debug, PartialEq, Eq)]
pub struct Token {
    pub uin: i64,
    pub d2: Vec<u8>,
    pub d2key: Vec<u8>,
    pub tgt: Vec<u8>,
    pub srm_token: Vec<u8>,
    pub encrypted_a1: Vec<u8>,
    pub out_packet_session_id: Vec<u8>,
    pub ksid: Vec<u8>,
    pub time_diff: i64,
}

/// A bulk-transfer server address.
#[derive(Clone, Copy, Debug, PartialEq, Eq, Structural)]
pub struct HighwayAddr {
    pub ip: u32,
    pub port: u16,
}

/// The bulk-transfer ("highway") sub-session: its own ticket and key,
/// distinct from the main command channel.
#[derive(Clone, Debug, PartialEq, Eq)]
pub struct HighwaySession {
    pub sig_session: Vec<u8>,
    pub session_key: Vec<u8>,
}

/// Cached snapshot of the outstanding group system messages (pending
/// join/invite requests).
#[derive(Clone, Debug, PartialEq, Eq)]
pub struct GroupSystemMessages {
    pub join_group_requests: Vec<JoinGroupRequest>,
}

} // verus!
