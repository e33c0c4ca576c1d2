use crosslab_runtime::actor::{
    ActorAction, ActorEvent, ActorInput, ActorPhase, ActorState, ActorStep, actor_step, CommandQueueFailure, DrainContext, DrainStep, InboundResult,
    RuntimeActorConfig, RuntimeActorError, after_drain, decide_actor_action, decide_drain_step,
    queue_failure_error, reconnect_check, start_check,
};
use crosslab_runtime::node::{
    ClosePlan, ControlReceipt, ControlSendResult, DenialReason, DispatchFailure, InboundKind,
    ReceiveDecision, ReceiveOutcome, SendDecision, SendOutcome, SessionState, Teardown,
    admits_control, close_received_plan, decide_receive, decide_send, is_fatal_dispatch,
    policy_replacement, shutdown_plan,
};
use crosslab_runtime::status::{
    ConnectivityState, SessionPeer, connectivity_of, trust_record_applies, visible_session_id,
};
use crosslab_runtime::stream::{
    ChunkReceipt, OpenRefusal, SendFailure, StreamEvent, StreamRegistry, StreamRegistryError,
    validate_open_for_session,
};

#[test]
fn closed_outbound_stream_releases_runtime_capacity() {
    let stream_id = [0x52; 16];
    let mut streams: StreamRegistry<&'static str> = StreamRegistry::new(1);
    let opened: Result<(), StreamRegistryError<()>> = streams.open(stream_id, || Ok("closed-send-stream"));
    opened.unwrap();
    let payload = b"unsent-private-bytes".to_vec();

    assert_eq!(
        streams.try_send(&stream_id, payload.clone(), |stream, chunk| (stream, Err(SendFailure::Closed(chunk)))),
        Err(SendFailure::Closed(payload))
    );
    assert_eq!(streams.len(), 0);
}

#[test]
fn stream_registry_is_bounded_and_refuses_duplicates() {
    let mut streams: StreamRegistry<u8> = StreamRegistry::new(2);
    let first: Result<(), StreamRegistryError<()>> = streams.open([1; 16], || Ok(1));
    first.unwrap();
    let duplicate: Result<(), StreamRegistryError<()>> = streams.open([1; 16], || Ok(9));
    assert_eq!(duplicate, Err(StreamRegistryError::DuplicateStream));
    let refused: Result<(), StreamRegistryError<&str>> = streams.open([2; 16], || Err("closed"));
    assert_eq!(refused, Err(StreamRegistryError::Open("closed")));
    let second: Result<(), StreamRegistryError<()>> = streams.open([3; 16], || Ok(3));
    second.unwrap();
    let mut opened = false;
    let full: Result<(), StreamRegistryError<()>> = streams.open([4; 16], || {
        opened = true;
        Ok(4)
    });
    assert_eq!(full, Err(StreamRegistryError::ResourceLimit));
    assert!(!opened);
    assert!(streams.is_full());

    assert_eq!(streams.try_send(&[3; 16], 7u8, |h, c| (h + c, Ok(()))), Ok(()));
    assert_eq!(streams.try_send(&[3; 16], 1u8, |h, c| (h, Err(SendFailure::Full(c)))), Err(SendFailure::Full(1)));
    assert_eq!(streams.len(), 2);
    assert_eq!(streams.take(&[3; 16]), Ok(10));
    assert_eq!(streams.take(&[3; 16]), Err(StreamRegistryError::StreamNotFound));
    assert!(matches!(streams.insert([1; 16], 5), Err((5, StreamRegistryError::DuplicateStream))));
    assert!(streams.insert([6; 16], 6).is_ok());
    assert_eq!(streams.take_all(), vec![1, 6]);
    assert_eq!(streams.len(), 0);
}

#[test]
fn actor_config_and_errors() {
    let config = RuntimeActorConfig::new(4);
    assert_eq!(config.command_capacity(), 4);
    assert_eq!(queue_failure_error(CommandQueueFailure::Full), RuntimeActorError::CommandQueueFull);
    assert_eq!(queue_failure_error(CommandQueueFailure::Closed), RuntimeActorError::ActorClosed);
    assert_eq!(start_check(true, true), Err(RuntimeActorError::AlreadyRunning));
    assert_eq!(start_check(false, false), Err(RuntimeActorError::NoAsyncRuntime));
    assert_eq!(start_check(false, true), Ok(()));
    assert_eq!(RuntimeActorError::StaleSession.message(), "reconnect requires a fresh authenticated session");
}

#[test]
fn reconnect_requires_a_fresh_session() {
    assert_eq!(reconnect_check(&[1; 32], &[1; 32]), Err(RuntimeActorError::StaleSession));
    assert_eq!(reconnect_check(&[1; 32], &[2; 32]), Ok(()));
    assert_eq!(decide_actor_action(ActorInput::Reconnect { fresh: false }), ActorAction::RejectStale);
    assert_eq!(decide_actor_action(ActorInput::Reconnect { fresh: true }), ActorAction::Replace);
}

#[test]
fn actor_decisions_follow_each_input() {
    assert_eq!(decide_actor_action(ActorInput::NetworkLost), ActorAction::ApplyAndPublish);
    assert_eq!(decide_actor_action(ActorInput::SendRequest), ActorAction::Apply);
    assert_eq!(decide_actor_action(ActorInput::Stop), ActorAction::ShutDown);
    assert_eq!(decide_actor_action(ActorInput::ControlReady { changed: true }), ActorAction::Drain);
    assert_eq!(decide_actor_action(ActorInput::ControlReady { changed: false }), ActorAction::ShutDown);
    assert_eq!(decide_drain_step(InboundResult::Empty), DrainStep::Idle);
    assert_eq!(decide_drain_step(InboundResult::CapabilitiesUpdated), DrainStep::PublishAndContinue);
    assert_eq!(
        decide_drain_step(InboundResult::Event { closes_session: true, delivered: true }),
        DrainStep::PublishAndEnd
    );
    assert_eq!(
        decide_drain_step(InboundResult::Event { closes_session: false, delivered: false }),
        DrainStep::ShutDownAndEnd
    );
    assert_eq!(decide_drain_step(InboundResult::Failed { session_active: false }), DrainStep::PublishAndEnd);
    assert_eq!(after_drain(DrainContext::ControlReady, false), Some(true));
    assert_eq!(after_drain(DrainContext::SessionStart, false), Some(false));
    assert_eq!(after_drain(DrainContext::SessionStart, true), None);
}

#[test]
fn node_session_decisions() {
    assert!(admits_control(SessionState::Active));
    assert!(!admits_control(SessionState::Created));
    assert_eq!(shutdown_plan(SessionState::Active), ClosePlan { begin_close: true, finish_close: true });
    assert_eq!(shutdown_plan(SessionState::Revoked), ClosePlan { begin_close: false, finish_close: true });
    assert_eq!(shutdown_plan(SessionState::Closed), ClosePlan { begin_close: false, finish_close: false });
    assert_eq!(close_received_plan(SessionState::Authenticating), None);
    assert_eq!(
        close_received_plan(SessionState::Closing),
        Some(ClosePlan { begin_close: false, finish_close: true })
    );
    assert!(is_fatal_dispatch(DispatchFailure::Sequence));
    assert!(is_fatal_dispatch(DispatchFailure::AuthorizationDenied(DenialReason::RevokedPeer)));
    assert!(!is_fatal_dispatch(DispatchFailure::AuthorizationDenied(DenialReason::Other)));
    assert!(!is_fatal_dispatch(DispatchFailure::Other));
}

#[test]
fn policy_replacement_never_rolls_back() {
    assert_eq!(policy_replacement(true, 3, 1), Ok(false));
    assert!(policy_replacement(false, 3, 3).is_err());
    assert!(policy_replacement(false, 3, 2).is_err());
    assert_eq!(policy_replacement(false, 3, 4), Ok(true));
}

#[test]
fn inactive_status_drops_session_id() {
    assert_eq!(visible_session_id(SessionState::Active, Some([7u8; 16])), Some([7u8; 16]));
    assert_eq!(visible_session_id(SessionState::Closed, Some([7u8; 16])), None);
    assert_eq!(connectivity_of(true), ConnectivityState::Disconnected);
    assert_eq!(connectivity_of(false), ConnectivityState::Connected);
    let peer = SessionPeer { owner_id: [1; 32], peer_device_id: [2; 32] };
    assert!(trust_record_applies(Some(peer), &[1; 32], &[2; 32]));
    assert!(!trust_record_applies(Some(peer), &[1; 32], &[3; 32]));
    assert!(!trust_record_applies(None, &[1; 32], &[2; 32]));
}

#[test]
fn inbound_frame_handling_tears_down_only_on_fatal_steps() {
    let ok: Result<InboundKind, DispatchFailure> = Ok(InboundKind::Request);
    assert_eq!(
        decide_receive(ControlReceipt::Empty, true, true, ok),
        ReceiveDecision { outcome: ReceiveOutcome::ReceiveFailed(ControlReceipt::Empty), teardown: Teardown::Keep }
    );
    assert_eq!(
        decide_receive(ControlReceipt::Closed, true, true, ok),
        ReceiveDecision {
            outcome: ReceiveOutcome::ReceiveFailed(ControlReceipt::Closed),
            teardown: Teardown::TransportLost,
        }
    );
    assert_eq!(
        decide_receive(ControlReceipt::Frame, false, true, ok),
        ReceiveDecision { outcome: ReceiveOutcome::WireRejected, teardown: Teardown::FailClosed }
    );
    assert_eq!(
        decide_receive(ControlReceipt::Frame, true, false, ok),
        ReceiveDecision { outcome: ReceiveOutcome::NoSession, teardown: Teardown::Keep }
    );
    assert_eq!(
        decide_receive(ControlReceipt::Frame, true, true, Ok(InboundKind::SessionClose)),
        ReceiveDecision { outcome: ReceiveOutcome::Accepted(InboundKind::SessionClose), teardown: Teardown::Keep }
    );
    let denied = DispatchFailure::AuthorizationDenied(DenialReason::RevokedPeer);
    assert_eq!(
        decide_receive(ControlReceipt::Frame, true, true, Err(denied)),
        ReceiveDecision { outcome: ReceiveOutcome::DispatchFailed(denied), teardown: Teardown::FailClosed }
    );
    let refused = DispatchFailure::AuthorizationDenied(DenialReason::Other);
    assert_eq!(
        decide_receive(ControlReceipt::Frame, true, true, Err(refused)),
        ReceiveDecision { outcome: ReceiveOutcome::DispatchFailed(refused), teardown: Teardown::Keep }
    );
}

#[test]
fn outbound_frame_commits_only_when_sent() {
    assert_eq!(
        decide_send(SessionState::Closing, true, Ok(()), true, ControlSendResult::Sent),
        SendDecision { outcome: SendOutcome::SessionInvalid, teardown: Teardown::Keep }
    );
    assert_eq!(
        decide_send(SessionState::Active, false, Ok(()), true, ControlSendResult::Sent),
        SendDecision { outcome: SendOutcome::SessionInvalid, teardown: Teardown::Keep }
    );
    assert_eq!(
        decide_send(SessionState::Active, true, Err(DispatchFailure::ResourceLimit), true, ControlSendResult::Sent),
        SendDecision { outcome: SendOutcome::DispatchFailed(DispatchFailure::ResourceLimit), teardown: Teardown::Keep }
    );
    assert_eq!(
        decide_send(SessionState::Active, true, Ok(()), false, ControlSendResult::Sent),
        SendDecision { outcome: SendOutcome::WireRejected, teardown: Teardown::Keep }
    );
    assert_eq!(
        decide_send(SessionState::Active, true, Ok(()), true, ControlSendResult::Sent),
        SendDecision { outcome: SendOutcome::Committed, teardown: Teardown::Keep }
    );
    assert_eq!(
        decide_send(SessionState::Active, true, Ok(()), true, ControlSendResult::Full),
        SendDecision { outcome: SendOutcome::SendFailed(ControlSendResult::Full), teardown: Teardown::Keep }
    );
    assert_eq!(
        decide_send(SessionState::Active, true, Ok(()), true, ControlSendResult::Closed),
        SendDecision {
            outcome: SendOutcome::SendFailed(ControlSendResult::Closed),
            teardown: Teardown::TransportLost,
        }
    );
}

#[test]
fn stream_open_must_match_session_and_negotiated_capability() {
    let session = [0x31; 16];
    let negotiated = vec![("clipboard.write".to_owned(), 1u32), ("files.transfer".to_owned(), 2u32)];
    assert_eq!(
        validate_open_for_session(None, &negotiated, &session, "files.transfer", 2),
        Err(OpenRefusal::InvalidState)
    );
    assert_eq!(
        validate_open_for_session(Some(&[0x32; 16]), &negotiated, &session, "files.transfer", 2),
        Err(OpenRefusal::InvalidSession)
    );
    assert_eq!(
        validate_open_for_session(Some(&session), &negotiated, &session, "files.transfer", 2),
        Ok(())
    );
    assert_eq!(
        validate_open_for_session(Some(&session), &negotiated, &session, "files.transfer", 1),
        Err(OpenRefusal::CapabilityNotNegotiated)
    );
    assert_eq!(
        validate_open_for_session(Some(&session), &negotiated, &session, "files.read", 2),
        Err(OpenRefusal::CapabilityNotNegotiated)
    );
}

fn scripted(mut script: Vec<ChunkReceipt>) -> (Vec<ChunkReceipt>, ChunkReceipt) {
    if script.is_empty() {
        (script, ChunkReceipt::Empty)
    } else {
        let next = script.remove(0);
        (script, next)
    }
}

#[test]
fn inbound_polling_reports_the_first_stream_with_something() {
    let mut streams: StreamRegistry<Vec<ChunkReceipt>> = StreamRegistry::new(3);
    let a = [0xa1; 16];
    let b = [0xb2; 16];
    let c = [0xc3; 16];
    let opened: Result<(), StreamRegistryError<()>> = streams.open(a, || Ok(vec![ChunkReceipt::Empty, ChunkReceipt::Finished]));
    opened.unwrap();
    let opened: Result<(), StreamRegistryError<()>> = streams.open(b, || Ok(vec![ChunkReceipt::Chunk(vec![7, 8]), ChunkReceipt::Cancelled]));
    opened.unwrap();
    let opened: Result<(), StreamRegistryError<()>> = streams.open(c, || Ok(vec![]));
    opened.unwrap();

    assert_eq!(streams.receive_next(scripted), Some(StreamEvent::Chunk(b, vec![7, 8])));
    assert_eq!(streams.len(), 3);
    assert_eq!(streams.receive_next(scripted), Some(StreamEvent::Finished(a)));
    assert_eq!(streams.len(), 2);
    assert_eq!(streams.position(&b), Some(0));
    assert_eq!(streams.receive_next(scripted), Some(StreamEvent::Cancelled(b)));
    assert_eq!(streams.len(), 1);
    assert_eq!(streams.receive_next(scripted), None);
    assert_eq!(streams.len(), 1);
    assert_eq!(streams.position(&c), Some(0));
}

#[test]
fn actor_loop_ends_with_no_active_session_published() {
    let start = ActorState {
        phase: ActorPhase::Draining(DrainContext::SessionStart),
        session_active: true,
        published_active: Some(true),
    };
    let (waiting, step) = actor_step(start, ActorEvent::Inbound(InboundResult::Empty), true);
    assert_eq!(step, ActorStep::Drained(DrainStep::Idle, None));
    assert_eq!(waiting.phase, ActorPhase::Waiting);

    let (same, step) = actor_step(waiting, ActorEvent::Input(ActorInput::Reconnect { fresh: false }), true);
    assert_eq!(step, ActorStep::Act(ActorAction::RejectStale));
    assert_eq!(same, waiting);

    let (draining, step) = actor_step(waiting, ActorEvent::Input(ActorInput::ControlReady { changed: true }), true);
    assert_eq!(step, ActorStep::Act(ActorAction::Drain));
    assert_eq!(draining.phase, ActorPhase::Draining(DrainContext::ControlReady));

    let (ended, step) = actor_step(draining, ActorEvent::Inbound(InboundResult::Closed), false);
    assert_eq!(step, ActorStep::Drained(DrainStep::PublishAndEnd, Some(true)));
    assert_eq!(
        ended,
        ActorState { phase: ActorPhase::Ended, session_active: false, published_active: Some(false) }
    );
    let (after, step) = actor_step(ended, ActorEvent::Input(ActorInput::NetworkLost), true);
    assert_eq!(step, ActorStep::Ignored);
    assert_eq!(after, ended);

    let (stopped, step) = actor_step(waiting, ActorEvent::Input(ActorInput::Stop), true);
    assert_eq!(step, ActorStep::Act(ActorAction::ShutDown));
    assert_eq!(stopped.published_active, Some(false));

    let (failed, step) = actor_step(
        start,
        ActorEvent::Inbound(InboundResult::Failed { session_active: false }),
        true,
    );
    assert_eq!(step, ActorStep::Drained(DrainStep::PublishAndEnd, Some(false)));
    assert_eq!(failed.published_active, Some(false));
    assert_eq!(failed.phase, ActorPhase::Ended);
}
