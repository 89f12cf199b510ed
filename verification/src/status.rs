//! Connection lifecycle: the network-status state machine and the
//! disconnect broadcast.
//!
//! The status distinguishes why a session left Running — a user stop, a
//! handle drop, a transport fault, or a server-pushed force-offline — so
//! the caller can decide its reconnect policy: NetworkOffline may be
//! reconnected automatically, KickedOffline and MsfOffline must not be by
//! this layer. Every transition away from Running fires the disconnect
//! signal exactly once per disconnect episode; tasks subscribe before the
//! connection starts blocking I/O.

use vstd::prelude::*;

use crate::channels::{broadcast_send_unit, broadcast_sender, broadcast_subscribe};

verus! {

/// Lifecycle of the connection underneath a client session.
#[derive(Clone, Copy, Debug, PartialEq, Eq, Structural)]
pub enum NetworkStatus {
    /// Not started yet.
    Unknown,
    /// Connected and serving.
    Running,
    /// Stopped by the user.
    Stop,
    /// The owning handle was released.
    Drop,
    /// Lost to an I/O fault on the underlying stream.
    NetworkOffline,
    /// Another client took over the session; no automatic reconnect here.
    KickedOffline,
    /// The server forcibly ended the session; no automatic reconnect here.
    MsfOffline,
}

/// What one disconnect transition does to (status, signal count): only a
/// session that is Running leaves it, and exactly that departure fires the
/// disconnect signal.
pub open spec fn spec_disconnect(
    status: NetworkStatus,
    signals: nat,
    target: NetworkStatus,
) -> (NetworkStatus, nat) {
    if status is Running {
        (target, signals + 1)
    } else {
        (status, signals)
    }
}

/// The mutable connection state: current status, the latched online flag,
/// and the broadcast that fans a disconnect out to every subscribed
/// background task.
pub struct ConnectionLifecycle {
    status: NetworkStatus,
    online: bool,
    signals_sent: u64,
    disconnect: tokio::sync::broadcast::Sender<()>,
}

impl ConnectionLifecycle {
    /// The current status.
    pub closed spec fn status(self) -> NetworkStatus {
        self.status
    }

    /// Whether the session believes itself online.
    pub closed spec fn is_online(self) -> bool {
        self.online
    }

    /// How many times the disconnect signal has fired.
    pub closed spec fn signals(self) -> u64 {
        self.signals_sent
    }

    /// A fresh lifecycle, not yet started. `capacity` sizes the disconnect
    /// broadcast; one slot is plenty for a zero-payload cancellation.
    pub fn new(capacity: usize) -> (r: ConnectionLifecycle)
        requires
            1 <= capacity <= usize::MAX / 2,
        ensures
            r.status() is Unknown,
            !r.is_online(),
            r.signals() == 0,
    {
        ConnectionLifecycle {
            status: NetworkStatus::Unknown,
            online: false,
            signals_sent: 0,
            disconnect: broadcast_sender(capacity),
        }
    }

    /// Reads the current status.
    pub fn current_status(&self) -> (r: NetworkStatus)
        ensures
            r == self.status(),
    {
        self.status
    }

    /// Reads the online flag.
    pub fn online(&self) -> (r: bool)
        ensures
            r == self.is_online(),
    {
        self.online
    }

    /// A fresh subscription to the disconnect broadcast. Subscribe before
    /// the guarded task starts blocking I/O: a subscriber only observes
    /// sends made after it subscribed.
    pub fn subscribe(&self) -> tokio::sync::broadcast::Receiver<()> {
        broadcast_subscribe(&self.disconnect)
    }

    /// A successful connect (re)starts an episode: Running, online, and no
    /// signal fired.
    pub fn connect(&mut self)
        ensures
            final(self).status() is Running,
            final(self).is_online(),
            final(self).signals() == old(self).signals(),
    {
        self.status = NetworkStatus::Running;
        self.online = true;
    }

    /// Resets to the pre-Running state a freshly imported session token
    /// requires. Only a session that is not Running may be reset; a live
    /// one must disconnect first so the episode fires its signal.
    pub fn reset(&mut self)
        requires
            !(old(self).status() is Running),
        ensures
            final(self).status() is Unknown,
            !final(self).is_online(),
            final(self).signals() == old(self).signals(),
    {
        self.status = NetworkStatus::Unknown;
        self.online = false;
    }

    /// The one disconnect path: from Running, latch offline, record the
    /// cause and fire the signal once; from any other status, change
    /// nothing. Returns whether the signal fired.
    fn transition(&mut self, target: NetworkStatus) -> (fired: bool)
        requires
            !(target is Running),
            old(self).signals() < u64::MAX,
        ensures
            fired == (old(self).status() is Running),
            (final(self).status(), final(self).signals() as nat) == spec_disconnect(
                old(self).status(),
                old(self).signals() as nat,
                target,
            ),
            final(self).is_online() == (old(self).is_online() && !(old(
                self,
            ).status() is Running)),
    {
        match self.status {
            NetworkStatus::Running => {
                self.status = target;
                self.online = false;
                self.signals_sent = self.signals_sent + 1;
                let _ = broadcast_send_unit(&self.disconnect);
                true
            },
            _ => false,
        }
    }

    /// Explicit user-initiated stop.
    pub fn stop(&mut self) -> (fired: bool)
        requires
            old(self).signals() < u64::MAX,
        ensures
            fired == (old(self).status() is Running),
            (final(self).status(), final(self).signals() as nat) == spec_disconnect(
                old(self).status(),
                old(self).signals() as nat,
                NetworkStatus::Stop,
            ),
            old(self).status() is Running ==> !final(self).is_online(),
    {
        self.transition(NetworkStatus::Stop)
    }

    /// The owning handle was fully released.
    pub fn drop_connection(&mut self) -> (fired: bool)
        requires
            old(self).signals() < u64::MAX,
        ensures
            fired == (old(self).status() is Running),
            (final(self).status(), final(self).signals() as nat) == spec_disconnect(
                old(self).status(),
                old(self).signals() as nat,
                NetworkStatus::Drop,
            ),
    {
        self.transition(NetworkStatus::Drop)
    }

    /// An I/O error on the underlying stream, not user-initiated and not a
    /// server force-offline notice: the caller may reconnect.
    pub fn network_offline(&mut self) -> (fired: bool)
        requires
            old(self).signals() < u64::MAX,
        ensures
            fired == (old(self).status() is Running),
            (final(self).status(), final(self).signals() as nat) == spec_disconnect(
                old(self).status(),
                old(self).signals() as nat,
                NetworkStatus::NetworkOffline,
            ),
            old(self).status() is Running ==> final(self).status() is NetworkOffline,
    {
        self.transition(NetworkStatus::NetworkOffline)
    }

    /// The server reported that another client took over the session.
    pub fn kicked_offline(&mut self) -> (fired: bool)
        requires
            old(self).signals() < u64::MAX,
        ensures
            fired == (old(self).status() is Running),
            (final(self).status(), final(self).signals() as nat) == spec_disconnect(
                old(self).status(),
                old(self).signals() as nat,
                NetworkStatus::KickedOffline,
            ),
            old(self).status() is Running ==> final(self).status() is KickedOffline,
    {
        self.transition(NetworkStatus::KickedOffline)
    }

    /// The server forcibly ended the session.
    pub fn msf_offline(&mut self) -> (fired: bool)
        requires
            old(self).signals() < u64::MAX,
        ensures
            fired == (old(self).status() is Running),
            (final(self).status(), final(self).signals() as nat) == spec_disconnect(
                old(self).status(),
                old(self).signals() as nat,
                NetworkStatus::MsfOffline,
            ),
            old(self).status() is Running ==> final(self).status() is MsfOffline,
    {
        self.transition(NetworkStatus::MsfOffline)
    }

    /// Whether a send may touch the network: only while Running.
    pub fn can_send(&self) -> (r: bool)
        ensures
            r == (self.status() is Running),
    {
        match self.status {
            NetworkStatus::Running => true,
            _ => false,
        }
    }
}

/// Law of the disconnect episode: from Running, the first transition away
/// fires the signal and records its cause; any further disconnect before
/// the next connect fires nothing and changes nothing, so one episode
/// fires exactly one signal.
pub proof fn lemma_disconnect_fires_exactly_once(
    signals: nat,
    t1: NetworkStatus,
    t2: NetworkStatus,
)
    requires
        !(t1 is Running),
        !(t2 is Running),
    ensures
        ({
            let (s1, n1) = spec_disconnect(NetworkStatus::Running, signals, t1);
            let (s2, n2) = spec_disconnect(s1, n1, t2);
            s1 == t1 && s2 == t1 && n1 == signals + 1 && n2 == signals + 1
        }),
{
}

} // verus!
