//! Decisions of a runtime node about its logical session: which state admits control traffic,
//! how a session is closed from each state, which dispatch failures end the session, when a
//! policy may replace the current one, and how the handling of an inbound or outbound control
//! frame ends.

use vstd::prelude::*;

verus! {

/// The lifecycle state of a logical session.
#[derive(Debug, Clone, Copy, PartialEq, Eq, Structural)]
pub enum SessionState {
    Created,
    Authenticating,
    Active,
    Closing,
    Closed,
    Revoked,
}

/// Control traffic, streams and subscriptions need an active session.
pub fn admits_control(state: SessionState) -> (r: bool)
    ensures
        r == (state == SessionState::Active),
{
    state == SessionState::Active
}

/// The session operations that closing a session takes from its current state.
#[derive(Debug, Clone, Copy, PartialEq, Eq, Structural)]
pub struct ClosePlan {
    pub begin_close: bool,
    pub finish_close: bool,
}

pub open spec fn close_plan(state: SessionState) -> ClosePlan {
    match state {
        SessionState::Active => ClosePlan { begin_close: true, finish_close: true },
        SessionState::Closing | SessionState::Revoked => ClosePlan {
            begin_close: false,
            finish_close: true,
        },
        _ => ClosePlan { begin_close: false, finish_close: false },
    }
}

/// How a node closes its session when it shuts down or fails closed: an active session is
/// closed in both phases, a closing or revoked one is finished, any other is left alone.
pub fn shutdown_plan(state: SessionState) -> (r: ClosePlan)
    ensures
        r == close_plan(state),
{
    match state {
        SessionState::Active => ClosePlan { begin_close: true, finish_close: true },
        SessionState::Closing | SessionState::Revoked => ClosePlan {
            begin_close: false,
            finish_close: true,
        },
        _ => ClosePlan { begin_close: false, finish_close: false },
    }
}

/// How a node closes its session when the peer closed it: as on shutdown, except that a
/// session that never became active cannot receive a close.
pub fn close_received_plan(state: SessionState) -> (r: Option<ClosePlan>)
    ensures
        (state == SessionState::Created || state == SessionState::Authenticating) ==> r is None,
        !(state == SessionState::Created || state == SessionState::Authenticating) ==> r == Some(
            close_plan(state),
        ),
{
    match state {
        SessionState::Created | SessionState::Authenticating => None,
        _ => Some(shutdown_plan(state)),
    }
}

/// Why authorization refused an inbound request.
#[derive(Debug, Clone, Copy, PartialEq, Eq, Structural)]
pub enum DenialReason {
    UntrustedPeer,
    RevokedPeer,
    Other,
}

/// Why the control dispatcher refused an envelope.
#[derive(Debug, Clone, Copy, PartialEq, Eq, Structural)]
pub enum DispatchFailure {
    InvalidSession,
    IncompatibleProtocol,
    PeerTrustMismatch,
    PeerCredentialEpochChanged,
    PeerTrustRevisionChanged,
    Sequence,
    ResourceLimit,
    AuthorizationDenied(DenialReason),
    Other,
}

pub open spec fn fatal_dispatch(failure: DispatchFailure) -> bool {
    match failure {
        DispatchFailure::AuthorizationDenied(reason) => reason != DenialReason::Other,
        DispatchFailure::Other => false,
        _ => true,
    }
}

/// Whether an inbound dispatch failure ends the session: a broken session, protocol or
/// sequence, a change in the peer's trust, exhausted state, or a peer that is no longer
/// trusted. Other refusals leave the session open.
pub fn is_fatal_dispatch(failure: DispatchFailure) -> (r: bool)
    ensures
        r == fatal_dispatch(failure),
{
    match failure {
        DispatchFailure::AuthorizationDenied(reason) => match reason {
            DenialReason::UntrustedPeer => true,
            DenialReason::RevokedPeer => true,
            DenialReason::Other => false,
        },
        DispatchFailure::Other => false,
        _ => true,
    }
}

/// What the transport gave when the node asked it for a control frame.
#[derive(Debug, Clone, Copy, PartialEq, Eq, Structural)]
pub enum ControlReceipt {
    Frame,
    Empty,
    Closed,
}

/// The kinds of control message that the dispatcher accepts from the peer.
#[derive(Debug, Clone, Copy, PartialEq, Eq, Structural)]
pub enum InboundKind {
    CapabilityAdvertisement,
    Request,
    Response,
    Event,
    Cancelled,
    ProtocolFailure,
    SessionClose,
}

/// What a failed step does to the session: nothing, the teardown that follows a lost
/// transport (session state and streams cancelled, session marked lost), or a fail-closed
/// teardown (session state and streams cancelled, session closed, transport closed).
#[derive(Debug, Clone, Copy, PartialEq, Eq, Structural)]
pub enum Teardown {
    Keep,
    TransportLost,
    FailClosed,
}

/// How the handling of one inbound control frame ends.
#[derive(Debug, Clone, Copy, PartialEq, Eq, Structural)]
pub enum ReceiveOutcome {
    /// The transport had no frame (`Empty`) or is gone (`Closed`).
    ReceiveFailed(ControlReceipt),
    /// The frame is not a control envelope.
    WireRejected,
    /// The session has no context to dispatch in.
    NoSession,
    /// The dispatcher refused the envelope.
    DispatchFailed(DispatchFailure),
    /// The envelope was accepted; a `SessionClose` goes on to close the session.
    Accepted(InboundKind),
}

#[derive(Debug, Clone, Copy, PartialEq, Eq, Structural)]
pub struct ReceiveDecision {
    pub outcome: ReceiveOutcome,
    pub teardown: Teardown,
}

/// Decides the handling of one inbound control frame from what each step gave: the transport
/// receipt, whether the frame decoded, whether the session has a context, and what the
/// dispatcher made of the envelope. Steps after the first that fails are not consulted.
pub fn decide_receive(
    receipt: ControlReceipt,
    decoded: bool,
    has_context: bool,
    dispatch: Result<InboundKind, DispatchFailure>,
) -> (r: ReceiveDecision)
    ensures
        receipt != ControlReceipt::Frame ==> r.outcome == ReceiveOutcome::ReceiveFailed(receipt)
            && (r.teardown == if receipt == ControlReceipt::Closed {
            Teardown::TransportLost
        } else {
            Teardown::Keep
        }),
        receipt == ControlReceipt::Frame && !decoded ==> r == (ReceiveDecision {
            outcome: ReceiveOutcome::WireRejected,
            teardown: Teardown::FailClosed,
        }),
        receipt == ControlReceipt::Frame && decoded && !has_context ==> r == (ReceiveDecision {
            outcome: ReceiveOutcome::NoSession,
            teardown: Teardown::Keep,
        }),
        receipt == ControlReceipt::Frame && decoded && has_context ==> match dispatch {
            Ok(kind) => r == (ReceiveDecision {
                outcome: ReceiveOutcome::Accepted(kind),
                teardown: Teardown::Keep,
            }),
            Err(failure) => r.outcome == ReceiveOutcome::DispatchFailed(failure) && (r.teardown
                == if fatal_dispatch(failure) {
                Teardown::FailClosed
            } else {
                Teardown::Keep
            }),
        },
{
    match receipt {
        ControlReceipt::Frame => {},
        ControlReceipt::Empty => {
            return ReceiveDecision {
                outcome: ReceiveOutcome::ReceiveFailed(receipt),
                teardown: Teardown::Keep,
            };
        },
        ControlReceipt::Closed => {
            return ReceiveDecision {
                outcome: ReceiveOutcome::ReceiveFailed(receipt),
                teardown: Teardown::TransportLost,
            };
        },
    }
    if !decoded {
        return ReceiveDecision { outcome: ReceiveOutcome::WireRejected, teardown: Teardown::FailClosed };
    }
    if !has_context {
        return ReceiveDecision { outcome: ReceiveOutcome::NoSession, teardown: Teardown::Keep };
    }
    match dispatch {
        Ok(kind) => ReceiveDecision { outcome: ReceiveOutcome::Accepted(kind), teardown: Teardown::Keep },
        Err(failure) => {
            let teardown = if is_fatal_dispatch(failure) {
                Teardown::FailClosed
            } else {
                Teardown::Keep
            };
            ReceiveDecision { outcome: ReceiveOutcome::DispatchFailed(failure), teardown }
        },
    }
}

/// What the transport made of an outbound control frame.
#[derive(Debug, Clone, Copy, PartialEq, Eq, Structural)]
pub enum ControlSendResult {
    Sent,
    Full,
    TooLarge,
    Closed,
}

/// How sending one control message ends.
#[derive(Debug, Clone, Copy, PartialEq, Eq, Structural)]
pub enum SendOutcome {
    /// The session is not active, or has no context.
    SessionInvalid,
    /// The dispatcher refused to prepare the envelope.
    DispatchFailed(DispatchFailure),
    /// The envelope could not be encoded.
    WireRejected,
    /// The transport did not take the frame.
    SendFailed(ControlSendResult),
    /// The frame left; the dispatcher commits the envelope.
    Committed,
}

#[derive(Debug, Clone, Copy, PartialEq, Eq, Structural)]
pub struct SendDecision {
    pub outcome: SendOutcome,
    pub teardown: Teardown,
}

/// Decides how sending one control message ends, from the session state, whether it has a
/// context, whether the dispatcher prepared the envelope, whether it encoded, and what the
/// transport did with the frame. Only a closed transport tears the session down, and only a
/// frame that left is committed.
pub fn decide_send(
    state: SessionState,
    has_context: bool,
    prepared: Result<(), DispatchFailure>,
    encoded: bool,
    sent: ControlSendResult,
) -> (r: SendDecision)
    ensures
        state != SessionState::Active || !has_context ==> r == (SendDecision {
            outcome: SendOutcome::SessionInvalid,
            teardown: Teardown::Keep,
        }),
        state == SessionState::Active && has_context ==> match prepared {
            Err(failure) => r == (SendDecision {
                outcome: SendOutcome::DispatchFailed(failure),
                teardown: Teardown::Keep,
            }),
            Ok(()) => if !encoded {
                r == (SendDecision { outcome: SendOutcome::WireRejected, teardown: Teardown::Keep })
            } else if sent == ControlSendResult::Sent {
                r == (SendDecision { outcome: SendOutcome::Committed, teardown: Teardown::Keep })
            } else {
                r.outcome == SendOutcome::SendFailed(sent) && (r.teardown
                    == if sent == ControlSendResult::Closed {
                    Teardown::TransportLost
                } else {
                    Teardown::Keep
                })
            },
        },
{
    if state != SessionState::Active || !has_context {
        return SendDecision { outcome: SendOutcome::SessionInvalid, teardown: Teardown::Keep };
    }
    match prepared {
        Err(failure) => {
            return SendDecision {
                outcome: SendOutcome::DispatchFailed(failure),
                teardown: Teardown::Keep,
            };
        },
        Ok(()) => {},
    }
    if !encoded {
        return SendDecision { outcome: SendOutcome::WireRejected, teardown: Teardown::Keep };
    }
    match sent {
        ControlSendResult::Sent => SendDecision { outcome: SendOutcome::Committed, teardown: Teardown::Keep },
        ControlSendResult::Closed => SendDecision {
            outcome: SendOutcome::SendFailed(sent),
            teardown: Teardown::TransportLost,
        },
        _ => SendDecision { outcome: SendOutcome::SendFailed(sent), teardown: Teardown::Keep },
    }
}

/// A policy may not roll back to an older or equal revision.
#[derive(Debug, Clone, Copy, PartialEq, Eq, Structural)]
pub struct PolicyRevisionRollback;

/// Whether a policy replaces the current one: an identical policy changes nothing
/// (`Ok(false)`), a newer revision replaces it (`Ok(true)`, after which the node cancels its
/// session state and streams), and any other is refused.
pub fn policy_replacement(identical: bool, current_revision: u64, new_revision: u64) -> (r:
    Result<bool, PolicyRevisionRollback>)
    ensures
        identical ==> r == Ok::<bool, PolicyRevisionRollback>(false),
        !identical && new_revision <= current_revision ==> r is Err,
        !identical && new_revision > current_revision ==> r == Ok::<bool, PolicyRevisionRollback>(
            true,
        ),
{
    if identical {
        return Ok(false);
    }
    if new_revision <= current_revision {
        return Err(PolicyRevisionRollback);
    }
    Ok(true)
}

/// The revisions of the policies a node holds, one after another, as replacements are
/// offered: each offer (whether it is the same policy, and its revision) either replaces the
/// current policy or leaves it.
pub open spec fn policy_revisions_after(current: u64, offers: Seq<(bool, u64)>) -> u64
    decreases offers.len(),
{
    if offers.len() == 0 {
        current
    } else {
        let next = if !offers[0].0 && offers[0].1 > current {
            offers[0].1
        } else {
            current
        };
        policy_revisions_after(next, offers.drop_first())
    }
}

/// Whatever policies are offered, the revision a node holds never goes back.
pub proof fn policy_revision_never_rolls_back(current: u64, offers: Seq<(bool, u64)>)
    ensures
        policy_revisions_after(current, offers) >= current,
    decreases offers.len(),
{
    if offers.len() > 0 {
        let next = if !offers[0].0 && offers[0].1 > current {
            offers[0].1
        } else {
            current
        };
        policy_revision_never_rolls_back(next, offers.drop_first());
    }
}

/// A session that is closed or failing closed is never left active: every state that can
/// still carry control traffic is closed in both phases.
pub proof fn shutdown_closes_every_active_session(state: SessionState)
    ensures
        state == SessionState::Active ==> close_plan(state).begin_close && close_plan(
            state,
        ).finish_close,
        close_plan(state).begin_close ==> state == SessionState::Active,
{
}

/// Shutting down or failing closed touches only a session that is live: one that is active is
/// closed in both phases, one that is closing or revoked is finished, and one that was created,
/// is still authenticating or is already closed is left alone.
pub proof fn shutdown_touches_only_live_sessions(state: SessionState)
    ensures
        close_plan(state).begin_close <==> state == SessionState::Active,
        close_plan(state).finish_close <==> (state == SessionState::Active || state
            == SessionState::Closing || state == SessionState::Revoked),
        (state == SessionState::Created || state == SessionState::Authenticating || state
            == SessionState::Closed) ==> !close_plan(state).begin_close && !close_plan(
            state,
        ).finish_close,
{
}

/// A refusal because the peer is no longer trusted (untrusted or revoked) ends the session
/// (the handling of the frame fails closed); only an authorization denial for another reason,
/// or a failure outside the listed kinds, leaves the session open. Every other refusal, of a
/// broken session, protocol or sequence, a changed peer trust or exhausted state, is fatal.
pub proof fn untrusted_peer_refusal_is_fatal(failure: DispatchFailure)
    ensures
        failure matches DispatchFailure::AuthorizationDenied(reason) ==> (fatal_dispatch(failure)
            <==> (reason == DenialReason::UntrustedPeer || reason == DenialReason::RevokedPeer)),
        !fatal_dispatch(failure) <==> (failure == DispatchFailure::Other || failure
            == DispatchFailure::AuthorizationDenied(DenialReason::Other)),
{
}

} // verus!
