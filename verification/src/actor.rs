//! Decisions of the runtime actor: its configuration, its errors, and what it does with each
//! command and with each result of draining inbound control traffic, and the loop as a step
//! function from its state and an event to its next state and what it does. The actor's task, its
//! channels and the session it drives live with the async runtime; they follow these
//! decisions.

use vstd::prelude::*;

verus! {

/// How many commands may wait for the actor at once (never zero).
#[derive(Debug, Clone, Copy, PartialEq, Eq, Structural)]
pub struct RuntimeActorConfig {
    command_capacity: usize,
}

impl View for RuntimeActorConfig {
    type V = usize;

    closed spec fn view(&self) -> usize {
        self.command_capacity
    }
}

impl RuntimeActorConfig {
    #[verifier::type_invariant]
    spec fn nonzero_capacity(self) -> bool {
        self.command_capacity > 0
    }

    pub fn new(command_capacity: usize) -> (r: Self)
        requires
            command_capacity > 0,
        ensures
            r@ == command_capacity,
    {
        RuntimeActorConfig { command_capacity }
    }

    pub fn command_capacity(self) -> (r: usize)
        ensures
            r == self@,
            r > 0,
    {
        proof {
            use_type_invariant(&self);
        }
        self.command_capacity
    }
}

#[derive(Debug, Clone, Copy, PartialEq, Eq, Structural)]
pub enum RuntimeActorError {
    AlreadyRunning,
    NotRunning,
    CommandQueueFull,
    StaleSession,
    ActorClosed,
    NoAsyncRuntime,
    TaskCancelled,
    PeerRevocationRejected,
    PolicyRejected,
    ControlRejected,
}

pub open spec fn actor_error_text(e: RuntimeActorError) -> Seq<char> {
    match e {
        RuntimeActorError::AlreadyRunning => "runtime actor is already running"@,
        RuntimeActorError::NotRunning => "runtime actor is not running"@,
        RuntimeActorError::CommandQueueFull => "runtime actor command queue is full"@,
        RuntimeActorError::StaleSession => "reconnect requires a fresh authenticated session"@,
        RuntimeActorError::ActorClosed => "runtime actor is closed"@,
        RuntimeActorError::NoAsyncRuntime => "runtime actor requires an active Tokio runtime"@,
        RuntimeActorError::TaskCancelled => "runtime actor task was cancelled"@,
        RuntimeActorError::PeerRevocationRejected => "runtime actor rejected peer revocation"@,
        RuntimeActorError::PolicyRejected => "runtime actor rejected stale policy state"@,
        RuntimeActorError::ControlRejected => "runtime actor rejected control operation"@,
    }
}

impl RuntimeActorError {
    pub fn message(&self) -> (r: &'static str)
        ensures
            r@ == actor_error_text(*self),
    {
        match self {
            RuntimeActorError::AlreadyRunning => "runtime actor is already running",
            RuntimeActorError::NotRunning => "runtime actor is not running",
            RuntimeActorError::CommandQueueFull => "runtime actor command queue is full",
            RuntimeActorError::StaleSession => "reconnect requires a fresh authenticated session",
            RuntimeActorError::ActorClosed => "runtime actor is closed",
            RuntimeActorError::NoAsyncRuntime => "runtime actor requires an active Tokio runtime",
            RuntimeActorError::TaskCancelled => "runtime actor task was cancelled",
            RuntimeActorError::PeerRevocationRejected => "runtime actor rejected peer revocation",
            RuntimeActorError::PolicyRejected => "runtime actor rejected stale policy state",
            RuntimeActorError::ControlRejected => "runtime actor rejected control operation",
        }
    }
}

/// Why a command could not be queued without waiting.
#[derive(Debug, Clone, Copy, PartialEq, Eq, Structural)]
pub enum CommandQueueFailure {
    Full,
    Closed,
}

/// The error a caller sees when a command could not be queued.
pub fn queue_failure_error(failure: CommandQueueFailure) -> (r: RuntimeActorError)
    ensures
        r == match failure {
            CommandQueueFailure::Full => RuntimeActorError::CommandQueueFull,
            CommandQueueFailure::Closed => RuntimeActorError::ActorClosed,
        },
{
    match failure {
        CommandQueueFailure::Full => RuntimeActorError::CommandQueueFull,
        CommandQueueFailure::Closed => RuntimeActorError::ActorClosed,
    }
}

/// Whether the actor handle can start a session: a handle that owns a task refuses a second
/// start, and a start needs an async runtime.
pub fn start_check(has_task: bool, has_async_runtime: bool) -> (r: Result<(), RuntimeActorError>)
    ensures
        has_task ==> r == Err::<(), _>(RuntimeActorError::AlreadyRunning),
        !has_task && !has_async_runtime ==> r == Err::<(), _>(RuntimeActorError::NoAsyncRuntime),
        !has_task && has_async_runtime ==> r is Ok,
{
    if has_task {
        return Err(RuntimeActorError::AlreadyRunning);
    }
    if !has_async_runtime {
        return Err(RuntimeActorError::NoAsyncRuntime);
    }
    Ok(())
}

/// A reconnect is accepted only with a session other than the current one.
pub fn reconnect_check(current_session: &[u8], replacement_session: &[u8]) -> (r: Result<
    (),
    RuntimeActorError,
>)
    ensures
        (current_session@ == replacement_session@) == (r == Err::<(), _>(
            RuntimeActorError::StaleSession,
        )),
        r is Ok || r == Err::<(), _>(RuntimeActorError::StaleSession),
{
    if current_session.len() == replacement_session.len() {
        let mut i: usize = 0;
        while i < current_session.len()
            invariant
                current_session@.len() == replacement_session@.len(),
                i <= current_session@.len(),
                forall|j: int| 0 <= j < i ==> current_session@[j] == replacement_session@[j],
            decreases current_session@.len() - i,
        {
            if current_session[i] != replacement_session[i] {
                assert(current_session@[i as int] != replacement_session@[i as int]);
                return Ok(());
            }
            i = i + 1;
        }
        assert(current_session@ =~= replacement_session@);
        Err(RuntimeActorError::StaleSession)
    } else {
        Ok(())
    }
}

/// What reaches the actor's loop.
#[derive(Debug, Clone, Copy, PartialEq, Eq, Structural)]
pub enum ActorInput {
    NetworkLost,
    PeerRevoked,
    ReplacePolicy,
    SendCapabilities,
    SendRequest,
    SendResponse,
    /// A reconnect, with whether its session differs from the current one.
    Reconnect { fresh: bool },
    Stop,
    /// Every command sender is gone.
    CommandsClosed,
    /// The control-ready signal fired, or (`changed` false) its sender is gone.
    ControlReady { changed: bool },
}

/// What the actor does with an input.
#[derive(Debug, Clone, Copy, PartialEq, Eq, Structural)]
pub enum ActorAction {
    /// Apply the command to the session, publish the new status, and reply.
    ApplyAndPublish,
    /// Apply the command to the session and reply.
    Apply,
    /// Shut the offered session down and reply that it is stale.
    RejectStale,
    /// Shut the current session down, adopt the fresh one, publish its status, reply, and
    /// drain its inbound traffic.
    Replace,
    /// Drain inbound traffic.
    Drain,
    /// Shut the session down, publish its status (and reply to a stop), and end the loop.
    ShutDown,
}

pub open spec fn actor_action(input: ActorInput) -> ActorAction {
    match input {
        ActorInput::NetworkLost => ActorAction::ApplyAndPublish,
        ActorInput::PeerRevoked => ActorAction::ApplyAndPublish,
        ActorInput::ReplacePolicy => ActorAction::Apply,
        ActorInput::SendCapabilities => ActorAction::Apply,
        ActorInput::SendRequest => ActorAction::Apply,
        ActorInput::SendResponse => ActorAction::Apply,
        ActorInput::Reconnect { fresh } => if fresh {
            ActorAction::Replace
        } else {
            ActorAction::RejectStale
        },
        ActorInput::Stop => ActorAction::ShutDown,
        ActorInput::CommandsClosed => ActorAction::ShutDown,
        ActorInput::ControlReady { changed } => if changed {
            ActorAction::Drain
        } else {
            ActorAction::ShutDown
        },
    }
}

/// Decides what the actor does with an input.
pub fn decide_actor_action(input: ActorInput) -> (r: ActorAction)
    ensures
        r == actor_action(input),
{
    match input {
        ActorInput::NetworkLost => ActorAction::ApplyAndPublish,
        ActorInput::PeerRevoked => ActorAction::ApplyAndPublish,
        ActorInput::ReplacePolicy => ActorAction::Apply,
        ActorInput::SendCapabilities => ActorAction::Apply,
        ActorInput::SendRequest => ActorAction::Apply,
        ActorInput::SendResponse => ActorAction::Apply,
        ActorInput::Reconnect { fresh } => if fresh {
            ActorAction::Replace
        } else {
            ActorAction::RejectStale
        },
        ActorInput::Stop => ActorAction::ShutDown,
        ActorInput::CommandsClosed => ActorAction::ShutDown,
        ActorInput::ControlReady { changed } => if changed {
            ActorAction::Drain
        } else {
            ActorAction::ShutDown
        },
    }
}

/// One result of receiving inbound control traffic while draining it.
#[derive(Debug, Clone, Copy, PartialEq, Eq, Structural)]
pub enum InboundResult {
    /// The peer's capabilities were renegotiated.
    CapabilitiesUpdated,
    /// An event for the application; `closes_session` when it reports the session closed,
    /// `delivered` whether the application still took it.
    Event { closes_session: bool, delivered: bool },
    /// Nothing more is waiting.
    Empty,
    /// The control channel is closed.
    Closed,
    /// Receiving failed otherwise; `session_active` whether the session is still active
    /// after the failure.
    Failed { session_active: bool },
}

/// What draining does after one receive.
#[derive(Debug, Clone, Copy, PartialEq, Eq, Structural)]
pub enum DrainStep {
    /// Publish the status and receive again.
    PublishAndContinue,
    /// Receive again.
    Continue,
    /// Stop draining; the session stays usable.
    Idle,
    /// Publish the status and report the session unusable.
    PublishAndEnd,
    /// Shut the session down, publish the status and report the session unusable.
    ShutDownAndEnd,
}

pub open spec fn drain_step(result: InboundResult) -> DrainStep {
    match result {
        InboundResult::CapabilitiesUpdated => DrainStep::PublishAndContinue,
        InboundResult::Event { closes_session, delivered } => if !delivered {
            DrainStep::ShutDownAndEnd
        } else if closes_session {
            DrainStep::PublishAndEnd
        } else {
            DrainStep::Continue
        },
        InboundResult::Empty => DrainStep::Idle,
        InboundResult::Closed => DrainStep::PublishAndEnd,
        InboundResult::Failed { session_active } => if session_active {
            DrainStep::PublishAndContinue
        } else {
            DrainStep::PublishAndEnd
        },
    }
}

/// Decides what draining does after one receive.
pub fn decide_drain_step(result: InboundResult) -> (r: DrainStep)
    ensures
        r == drain_step(result),
{
    match result {
        InboundResult::CapabilitiesUpdated => DrainStep::PublishAndContinue,
        InboundResult::Event { closes_session, delivered } => if !delivered {
            DrainStep::ShutDownAndEnd
        } else if closes_session {
            DrainStep::PublishAndEnd
        } else {
            DrainStep::Continue
        },
        InboundResult::Empty => DrainStep::Idle,
        InboundResult::Closed => DrainStep::PublishAndEnd,
        InboundResult::Failed { session_active } => if session_active {
            DrainStep::PublishAndContinue
        } else {
            DrainStep::PublishAndEnd
        },
    }
}

/// Where a drain ran: when the session was started or replaced, a drain that found the session
/// unusable simply ends the loop; after a control-ready signal the actor also shuts the session
/// down and publishes its status.
#[derive(Debug, Clone, Copy, PartialEq, Eq, Structural)]
pub enum DrainContext {
    SessionStart,
    ControlReady,
}

/// What the loop does after a drain: `None` to keep running, or whether to shut down and
/// publish before it ends.
pub fn after_drain(context: DrainContext, session_usable: bool) -> (r: Option<bool>)
    ensures
        session_usable ==> r is None,
        !session_usable ==> r == Some(context == DrainContext::ControlReady),
{
    if session_usable {
        None
    } else {
        Some(context == DrainContext::ControlReady)
    }
}

/// A session replacement never keeps the current session: a stale one is refused and the
/// current session goes on, a fresh one replaces the current session, which is shut down.
pub proof fn reconnect_replaces_only_with_fresh_session(fresh: bool)
    ensures
        actor_action(ActorInput::Reconnect { fresh }) == ActorAction::Replace <==> fresh,
        actor_action(ActorInput::Reconnect { fresh }) == ActorAction::RejectStale <==> !fresh,
{
}

/// Loss of the control channel, of its readiness signal or of every command sender ends the
/// actor with the session shut down or reported closed.
pub proof fn channel_loss_ends_the_actor(closes_session: bool)
    ensures
        actor_action(ActorInput::CommandsClosed) == ActorAction::ShutDown,
        actor_action(ActorInput::ControlReady { changed: false }) == ActorAction::ShutDown,
        drain_step(InboundResult::Closed) == DrainStep::PublishAndEnd,
        drain_step(InboundResult::Event { closes_session, delivered: false })
            == DrainStep::ShutDownAndEnd,
{
}

/// Where the actor's loop is: waiting for an input, draining inbound traffic (and why), or
/// ended.
#[derive(Debug, Clone, Copy, PartialEq, Eq, Structural)]
pub enum ActorPhase {
    Waiting,
    Draining(DrainContext),
    Ended,
}

/// What the actor's loop knows: its phase, whether its session is active, and whether the
/// status it last published showed an active session (`None` before the first one).
#[derive(Debug, Clone, Copy, PartialEq, Eq, Structural)]
pub struct ActorState {
    pub phase: ActorPhase,
    pub session_active: bool,
    pub published_active: Option<bool>,
}

/// What reaches the loop: an input while it waits, or a receive result while it drains.
#[derive(Debug, Clone, Copy, PartialEq, Eq, Structural)]
pub enum ActorEvent {
    Input(ActorInput),
    Inbound(InboundResult),
}

/// What the loop does with an event.
#[derive(Debug, Clone, Copy, PartialEq, Eq, Structural)]
pub enum ActorStep {
    /// The input's action.
    Act(ActorAction),
    /// The drain's step, and, when the drain ended with the session unusable, whether the
    /// loop then shuts the session down and publishes before it ends.
    Drained(DrainStep, Option<bool>),
    /// The event does not belong to the loop's phase (or the loop has ended): nothing.
    Ignored,
}

/// The actor's state after an event, where `active_after` is whether the session is active
/// after the session work that the event caused (a failed receive reports this itself).
pub open spec fn actor_next(state: ActorState, event: ActorEvent, active_after: bool) -> (
    ActorState,
    ActorStep,
) {
    let ended = ActorState { phase: ActorPhase::Ended, session_active: false, published_active: Some(false) };
    match (state.phase, event) {
        (ActorPhase::Waiting, ActorEvent::Input(input)) => {
            let action = actor_action(input);
            let next = match action {
                ActorAction::ApplyAndPublish => ActorState {
                    session_active: active_after,
                    published_active: Some(active_after),
                    ..state
                },
                ActorAction::Apply => ActorState { session_active: active_after, ..state },
                ActorAction::RejectStale => state,
                ActorAction::Replace => ActorState {
                    phase: ActorPhase::Draining(DrainContext::SessionStart),
                    session_active: active_after,
                    published_active: Some(active_after),
                },
                ActorAction::Drain => ActorState {
                    phase: ActorPhase::Draining(DrainContext::ControlReady),
                    ..state
                },
                ActorAction::ShutDown => ended,
            };
            (next, ActorStep::Act(action))
        },
        (ActorPhase::Draining(context), ActorEvent::Inbound(result)) => {
            let step = drain_step(result);
            let active = match result {
                InboundResult::Failed { session_active } => session_active,
                _ => active_after,
            };
            match step {
                DrainStep::PublishAndContinue => (
                    ActorState { session_active: active, published_active: Some(active), ..state },
                    ActorStep::Drained(step, None),
                ),
                DrainStep::Continue => (
                    ActorState { session_active: active, ..state },
                    ActorStep::Drained(step, None),
                ),
                DrainStep::Idle => (
                    ActorState { phase: ActorPhase::Waiting, ..state },
                    ActorStep::Drained(step, None),
                ),
                DrainStep::PublishAndEnd => {
                    let shut = context == DrainContext::ControlReady;
                    (
                        if shut {
                            ended
                        } else {
                            ActorState {
                                phase: ActorPhase::Ended,
                                session_active: active,
                                published_active: Some(active),
                            }
                        },
                        ActorStep::Drained(step, Some(shut)),
                    )
                },
                DrainStep::ShutDownAndEnd => (
                    ended,
                    ActorStep::Drained(step, Some(context == DrainContext::ControlReady)),
                ),
            }
        },
        _ => (state, ActorStep::Ignored),
    }
}

/// Steps the actor's loop: decides what it does with an event and where it stands after.
pub fn actor_step(state: ActorState, event: ActorEvent, active_after: bool) -> (r: (
    ActorState,
    ActorStep,
))
    ensures
        r == actor_next(state, event, active_after),
{
    let ended = ActorState {
        phase: ActorPhase::Ended,
        session_active: false,
        published_active: Some(false),
    };
    match (state.phase, event) {
        (ActorPhase::Waiting, ActorEvent::Input(input)) => {
            let action = decide_actor_action(input);
            let next = match action {
                ActorAction::ApplyAndPublish => ActorState {
                    session_active: active_after,
                    published_active: Some(active_after),
                    ..state
                },
                ActorAction::Apply => ActorState { session_active: active_after, ..state },
                ActorAction::RejectStale => state,
                ActorAction::Replace => ActorState {
                    phase: ActorPhase::Draining(DrainContext::SessionStart),
                    session_active: active_after,
                    published_active: Some(active_after),
                },
                ActorAction::Drain => ActorState {
                    phase: ActorPhase::Draining(DrainContext::ControlReady),
                    ..state
                },
                ActorAction::ShutDown => ended,
            };
            (next, ActorStep::Act(action))
        },
        (ActorPhase::Draining(context), ActorEvent::Inbound(result)) => {
            let step = decide_drain_step(result);
            let active = match result {
                InboundResult::Failed { session_active } => session_active,
                _ => active_after,
            };
            match step {
                DrainStep::PublishAndContinue => (
                    ActorState { session_active: active, published_active: Some(active), ..state },
                    ActorStep::Drained(step, None),
                ),
                DrainStep::Continue => (
                    ActorState { session_active: active, ..state },
                    ActorStep::Drained(step, None),
                ),
                DrainStep::Idle => (
                    ActorState { phase: ActorPhase::Waiting, ..state },
                    ActorStep::Drained(step, None),
                ),
                DrainStep::PublishAndEnd => {
                    let shut = after_drain(context, false) == Some(true);
                    let next = if shut {
                        ended
                    } else {
                        ActorState {
                            phase: ActorPhase::Ended,
                            session_active: active,
                            published_active: Some(active),
                        }
                    };
                    (next, ActorStep::Drained(step, Some(shut)))
                },
                DrainStep::ShutDownAndEnd => {
                    let shut = after_drain(context, false);
                    (ended, ActorStep::Drained(step, shut))
                },
            }
        },
        _ => (state, ActorStep::Ignored),
    }
}

/// The session reports itself inactive after an inbound result that ends it: a closed
/// control channel, or a delivered event that closed the session.
pub open spec fn reports_end_inactive(event: ActorEvent, active_after: bool) -> bool {
    match event {
        ActorEvent::Inbound(InboundResult::Closed) => !active_after,
        ActorEvent::Inbound(InboundResult::Event { closes_session: true, delivered: true }) =>
            !active_after,
        _ => true,
    }
}

/// The actor's state after a run of events, each with the session's activity after it.
pub open spec fn actor_run(state: ActorState, events: Seq<(ActorEvent, bool)>) -> ActorState
    decreases events.len(),
{
    if events.len() == 0 {
        state
    } else {
        actor_run(actor_next(state, events[0].0, events[0].1).0, events.drop_first())
    }
}

/// When the actor's loop ends, no session authority outlives it: the session is inactive and
/// the last status it published shows no active session; an ended loop stays ended and
/// changes nothing. This holds whenever the session reports itself inactive after a closed
/// control channel or a session-closing event.
pub proof fn ended_actor_leaves_no_active_session(
    state: ActorState,
    events: Seq<(ActorEvent, bool)>,
)
    requires
        state.phase == ActorPhase::Ended ==> !state.session_active && state.published_active
            == Some(false),
        forall|i: int|
            0 <= i < events.len() ==> reports_end_inactive(#[trigger] events[i].0, events[i].1),
    ensures
        actor_run(state, events).phase == ActorPhase::Ended ==> !actor_run(
            state,
            events,
        ).session_active && actor_run(state, events).published_active == Some(false),
        state.phase == ActorPhase::Ended ==> actor_run(state, events) == state,
    decreases events.len(),
{
    if events.len() > 0 {
        let next = actor_next(state, events[0].0, events[0].1).0;
        assert(reports_end_inactive(events[0].0, events[0].1));
        assert forall|i: int| 0 <= i < events.drop_first().len() implies reports_end_inactive(
            #[trigger] events.drop_first()[i].0,
            events.drop_first()[i].1,
        ) by {
            assert(events.drop_first()[i] == events[i + 1]);
        }
        ended_actor_leaves_no_active_session(next, events.drop_first());
    }
}

/// Whether an action publishes the session's status to subscribers.
pub open spec fn publishes_status(action: ActorAction) -> bool {
    action == ActorAction::ApplyAndPublish || action == ActorAction::Replace || action
        == ActorAction::ShutDown
}

/// Every command that changes the peer's trust or the session's connectivity (a revoked peer,
/// a lost network) is applied to the session and followed by a status publish; commands that
/// only send or change policy are applied without one.
pub proof fn trust_and_connectivity_changes_are_published(input: ActorInput)
    ensures
        (input == ActorInput::PeerRevoked || input == ActorInput::NetworkLost) ==> actor_action(
            input,
        ) == ActorAction::ApplyAndPublish,
        actor_action(input) == ActorAction::ApplyAndPublish ==> (input == ActorInput::PeerRevoked
            || input == ActorInput::NetworkLost),
        publishes_status(actor_action(ActorInput::PeerRevoked)),
        publishes_status(actor_action(ActorInput::NetworkLost)),
{
}

/// Whether draining receives again after a step.
pub open spec fn keeps_draining(step: DrainStep) -> bool {
    step == DrainStep::Continue || step == DrainStep::PublishAndContinue
}

/// Draining pauses only when nothing more is waiting: the step is `Idle` exactly for an empty
/// receive. A delivered event that does not close the session, and renegotiated
/// capabilities, keep the drain going; a closed channel, a session-closing or undelivered
/// event, or a failure that left the session inactive end it.
pub proof fn drain_pauses_only_when_empty(result: InboundResult)
    ensures
        drain_step(result) == DrainStep::Idle <==> result == InboundResult::Empty,
        result == (InboundResult::Event { closes_session: false, delivered: true }) ==> keeps_draining(
            drain_step(result),
        ),
        result == InboundResult::CapabilitiesUpdated ==> keeps_draining(drain_step(result)),
        (result == InboundResult::Closed || result == (InboundResult::Failed {
            session_active: false,
        }) || result matches InboundResult::Event { delivered: false, .. } || result
            == (InboundResult::Event { closes_session: true, delivered: true })) ==> !keeps_draining(
            drain_step(result),
        ) && drain_step(result) != DrainStep::Idle,
{
}

} // verus!
