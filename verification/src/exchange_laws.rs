//! Laws of the pairing exchange that every exchange step follows.

use vstd::prelude::*;

use crate::exchange::{
    ExchangeStep, MessageClass, ProductPairingExchangeState, exchange_expected_state,
    exchange_transition, is_exchange_terminal,
};
use crate::pairing::{PairingRole, StepOutcome};

verus! {

/// The exchange state reached from `state` by the given steps, each with how its message read
/// and the outcome of its work.
pub open spec fn run_exchange(
    role: PairingRole,
    state: ProductPairingExchangeState,
    steps: Seq<(ExchangeStep, MessageClass, StepOutcome)>,
) -> ProductPairingExchangeState
    decreases steps.len(),
{
    if steps.len() == 0 {
        state
    } else {
        run_exchange(
            role,
            exchange_transition(role, state, steps[0].0, steps[0].1, steps[0].2),
            steps.drop_first(),
        )
    }
}

/// The steps of an exchange in which every message is the expected one and all work
/// succeeds.
pub open spec fn successful_exchange() -> Seq<(ExchangeStep, MessageClass, StepOutcome)> {
    seq![
        (ExchangeStep::Hello, MessageClass::Expected, StepOutcome::Done),
        (ExchangeStep::Confirmation, MessageClass::Expected, StepOutcome::Done),
        (ExchangeStep::Credential, MessageClass::Expected, StepOutcome::Done),
        (ExchangeStep::Finalize, MessageClass::Expected, StepOutcome::Done),
        (ExchangeStep::LocalPersisted, MessageClass::Expected, StepOutcome::Done),
        (ExchangeStep::PeerAck, MessageClass::Expected, StepOutcome::Done),
    ]
}

/// An exchange in which every message arrives in order and all work succeeds carries both
/// sides to completion.
pub proof fn successful_exchange_completes(role: PairingRole)
    ensures
        run_exchange(role, ProductPairingExchangeState::AwaitingPeerHello, successful_exchange())
            == ProductPairingExchangeState::Complete,
{
    reveal_with_fuel(run_exchange, 7);
    let s = successful_exchange();
    assert(s.drop_first().drop_first().drop_first().drop_first().drop_first().drop_first().len()
        == 0);
}

/// A complete, cancelled or failed exchange stays as it is, whatever arrives.
pub proof fn terminal_exchange_absorbs(
    role: PairingRole,
    state: ProductPairingExchangeState,
    step: ExchangeStep,
    class: MessageClass,
    outcome: StepOutcome,
)
    requires
        is_exchange_terminal(state),
    ensures
        exchange_transition(role, state, step, class, outcome) == state,
{
}

/// A message handled out of sequence (a replay of an earlier step, or a skip ahead) fails an
/// exchange in progress.
pub proof fn out_of_sequence_message_fails(
    role: PairingRole,
    state: ProductPairingExchangeState,
    step: ExchangeStep,
    class: MessageClass,
    outcome: StepOutcome,
)
    requires
        !is_exchange_terminal(state),
        step != ExchangeStep::Cancel,
        state != exchange_expected_state(role, step),
    ensures
        exchange_transition(role, state, step, class, outcome)
            == ProductPairingExchangeState::Failed,
{
}

/// A message of the wrong kind fails the exchange in the state that awaits it, before any
/// work on it is done; before the secret confirmation this keeps an unconfirmed peer from
/// moving the pairing on.
pub proof fn wrong_message_fails(
    role: PairingRole,
    step: ExchangeStep,
    outcome: StepOutcome,
)
    requires
        step != ExchangeStep::Cancel,
    ensures
        exchange_transition(
            role,
            exchange_expected_state(role, step),
            step,
            MessageClass::Unexpected,
            outcome,
        ) == ProductPairingExchangeState::Failed,
        exchange_transition(
            role,
            ProductPairingExchangeState::AwaitingPeerConfirmation,
            ExchangeStep::Confirmation,
            MessageClass::Unexpected,
            outcome,
        ) == ProductPairingExchangeState::Failed,
{
}

/// The peer's cancel, received where a message is expected, cancels the exchange.
pub proof fn peer_cancel_cancels(role: PairingRole, step: ExchangeStep, outcome: StepOutcome)
    requires
        step != ExchangeStep::Cancel,
    ensures
        exchange_transition(
            role,
            exchange_expected_state(role, step),
            step,
            MessageClass::PeerCancelled,
            outcome,
        ) == ProductPairingExchangeState::Cancelled,
{
}

/// Whatever arrives, an exchange completes only on the peer's acknowledgement received while
/// awaiting it, and that state is reached only after the local side stored the pairing.
pub proof fn completion_follows_peer_acknowledgement(
    role: PairingRole,
    state: ProductPairingExchangeState,
    steps: Seq<(ExchangeStep, MessageClass, StepOutcome)>,
)
    requires
        state != ProductPairingExchangeState::Complete,
        run_exchange(role, state, steps) == ProductPairingExchangeState::Complete,
    ensures
        exists|i: int|
            0 <= i < steps.len() && run_exchange(role, state, #[trigger] steps.take(i))
                == exchange_expected_state(role, ExchangeStep::PeerAck) && steps[i] == (
                ExchangeStep::PeerAck,
                MessageClass::Expected,
                StepOutcome::Done,
            ),
    decreases steps.len(),
{
    let next = exchange_transition(role, state, steps[0].0, steps[0].1, steps[0].2);
    assert(steps.take(0) =~= Seq::<(ExchangeStep, MessageClass, StepOutcome)>::empty());
    if next == ProductPairingExchangeState::Complete {
        assert(run_exchange(role, state, steps.take(0)) == state);
    } else {
        completion_follows_peer_acknowledgement(role, next, steps.drop_first());
        let j = choose|j: int|
            0 <= j < steps.drop_first().len() && run_exchange(
                role,
                next,
                #[trigger] steps.drop_first().take(j),
            ) == exchange_expected_state(role, ExchangeStep::PeerAck) && steps.drop_first()[j] == (
                ExchangeStep::PeerAck,
                MessageClass::Expected,
                StepOutcome::Done,
            );
        let t = steps.take(j + 1);
        assert(t.len() > 0);
        assert(t[0] == steps[0]);
        assert(t.drop_first() =~= steps.drop_first().take(j));
        assert(run_exchange(role, state, t) == run_exchange(role, next, steps.drop_first().take(j)));
    }
}

/// The state awaiting the peer's acknowledgement is entered only by storing the pairing
/// locally while awaiting local persistence.
pub proof fn acknowledgement_awaits_local_persistence(
    role: PairingRole,
    state: ProductPairingExchangeState,
    step: ExchangeStep,
    class: MessageClass,
    outcome: StepOutcome,
)
    requires
        state != exchange_expected_state(role, ExchangeStep::PeerAck),
        exchange_transition(role, state, step, class, outcome) == exchange_expected_state(
            role,
            ExchangeStep::PeerAck,
        ),
    ensures
        state == ProductPairingExchangeState::AwaitingLocalPersistence,
        step == ExchangeStep::LocalPersisted,
        outcome == StepOutcome::Done,
{
}

} // verus!
