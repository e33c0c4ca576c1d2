//! Promotion of a freshly bootstrapped pair of connections: both sides' logical sessions must
//! be active before the pair carries control traffic.

use vstd::prelude::*;

use crate::node::SessionState;

verus! {

#[derive(Debug, Clone, Copy, PartialEq, Eq, Structural)]
pub enum BootstrapError {
    SessionNotActive,
}

/// Accepts a pair only when the client's and the server's sessions are both active.
pub fn require_active(client: SessionState, server: SessionState) -> (r: Result<
    (),
    BootstrapError,
>)
    ensures
        r is Ok <==> (client == SessionState::Active && server == SessionState::Active),
        r is Err ==> r == Err::<(), BootstrapError>(BootstrapError::SessionNotActive),
{
    if client == SessionState::Active && server == SessionState::Active {
        Ok(())
    } else {
        Err(BootstrapError::SessionNotActive)
    }
}

} // verus!
