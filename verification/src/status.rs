//! What a runtime status snapshot shows of a session: connectivity, the trust state that
//! applies to the peer, and the session identifier only while the session is active.

use vstd::prelude::*;

use crate::bytes::bytes_eq;
use crate::node::SessionState;

verus! {

#[derive(Debug, Clone, Copy, PartialEq, Eq, Structural)]
pub enum ConnectivityState {
    Connected,
    Disconnected,
}

/// A transport that is closed is shown disconnected.
pub fn connectivity_of(transport_closed: bool) -> (r: ConnectivityState)
    ensures
        r == (if transport_closed {
            ConnectivityState::Disconnected
        } else {
            ConnectivityState::Connected
        }),
{
    if transport_closed {
        ConnectivityState::Disconnected
    } else {
        ConnectivityState::Connected
    }
}

/// The session identifier a snapshot shows: only that of an active session.
pub fn visible_session_id<S>(state: SessionState, session_id: Option<S>) -> (r: Option<S>)
    ensures
        r == (if state == SessionState::Active {
            session_id
        } else {
            None
        }),
{
    if state == SessionState::Active {
        session_id
    } else {
        None
    }
}

/// The owner and peer device an authenticated session context names.
#[derive(Debug, Clone, Copy, PartialEq, Eq)]
pub struct SessionPeer {
    pub owner_id: [u8; 32],
    pub peer_device_id: [u8; 32],
}

/// A trust record applies to a session only when it is for the session's owner and peer
/// device; otherwise (or without a context) the snapshot shows trust as pending.
pub fn trust_record_applies(
    context: Option<SessionPeer>,
    trust_owner_id: &[u8; 32],
    trust_device_id: &[u8; 32],
) -> (r: bool)
    ensures
        r == match context {
            Some(c) => c.owner_id@ == trust_owner_id@ && c.peer_device_id@ == trust_device_id@,
            None => false,
        },
{
    match context {
        Some(c) => bytes_eq(&c.owner_id, trust_owner_id) && bytes_eq(
            &c.peer_device_id,
            trust_device_id,
        ),
        None => false,
    }
}

} // verus!
