//! Laws of the pairing state machine that every coordinator step follows.

use vstd::prelude::*;

use crate::pairing::{
    PairingRole, PairingStep, ProductPairingState, StepOutcome, expected_state, is_terminal,
    pairing_transition,
};

verus! {

/// The state reached from `state` by the given steps, each with the outcome of its work.
pub open spec fn run_steps(
    role: PairingRole,
    state: ProductPairingState,
    steps: Seq<(PairingStep, StepOutcome)>,
) -> ProductPairingState
    decreases steps.len(),
{
    if steps.len() == 0 {
        state
    } else {
        run_steps(
            role,
            pairing_transition(role, state, steps[0].0, steps[0].1),
            steps.drop_first(),
        )
    }
}

/// The steps of a pairing in which every piece of work succeeds and the outcome is stored.
pub open spec fn successful_pairing() -> Seq<(PairingStep, StepOutcome)> {
    seq![
        (PairingStep::AcceptPeerHello, StepOutcome::Done),
        (PairingStep::VerifyPeerConfirmation, StepOutcome::Done),
        (PairingStep::Credential, StepOutcome::Done),
        (PairingStep::Finalize, StepOutcome::Done),
        (PairingStep::MarkPersisted, StepOutcome::Done),
    ]
}

/// Once a pairing is complete, cancelled or failed, no step changes its state.
pub proof fn terminal_states_absorb(
    role: PairingRole,
    state: ProductPairingState,
    step: PairingStep,
    outcome: StepOutcome,
)
    requires
        is_terminal(state),
    ensures
        pairing_transition(role, state, step, outcome) == state,
{
}

/// A step taken out of order (a replayed or skipped message) fails a pairing in progress,
/// whatever its work would have returned.
pub proof fn out_of_order_step_fails(
    role: PairingRole,
    state: ProductPairingState,
    step: PairingStep,
    outcome: StepOutcome,
)
    requires
        !is_terminal(state),
        step != PairingStep::Cancel,
        state != expected_state(role, step),
    ensures
        pairing_transition(role, state, step, outcome) == ProductPairingState::Failed,
{
}

/// A single step completes a pairing only when it records persistence while the pairing awaits
/// it.
pub proof fn completion_requires_persistence(
    role: PairingRole,
    state: ProductPairingState,
    step: PairingStep,
    outcome: StepOutcome,
)
    requires
        state != ProductPairingState::Complete,
        pairing_transition(role, state, step, outcome) == ProductPairingState::Complete,
    ensures
        state == ProductPairingState::AwaitingPersistence,
        step == PairingStep::MarkPersisted,
        outcome == StepOutcome::Done,
{
}

/// Whatever steps a pairing goes through, it reaches `Complete` only by recording persistence
/// while awaiting it.
pub proof fn completion_passes_through_persistence(
    role: PairingRole,
    state: ProductPairingState,
    steps: Seq<(PairingStep, StepOutcome)>,
)
    requires
        state != ProductPairingState::Complete,
        run_steps(role, state, steps) == ProductPairingState::Complete,
    ensures
        exists|i: int|
            0 <= i < steps.len() && run_steps(role, state, #[trigger] steps.take(i))
                == ProductPairingState::AwaitingPersistence && steps[i] == (
                PairingStep::MarkPersisted,
                StepOutcome::Done,
            ),
    decreases steps.len(),
{
    let next = pairing_transition(role, state, steps[0].0, steps[0].1);
    assert(steps.take(0) =~= Seq::<(PairingStep, StepOutcome)>::empty());
    if next == ProductPairingState::Complete {
        completion_requires_persistence(role, state, steps[0].0, steps[0].1);
        assert(run_steps(role, state, steps.take(0)) == state);
    } else {
        completion_passes_through_persistence(role, next, steps.drop_first());
        let j = choose|j: int|
            0 <= j < steps.drop_first().len() && run_steps(
                role,
                next,
                #[trigger] steps.drop_first().take(j),
            ) == ProductPairingState::AwaitingPersistence && steps.drop_first()[j] == (
                PairingStep::MarkPersisted,
                StepOutcome::Done,
            );
        let t = steps.take(j + 1);
        assert(t.len() > 0);
        assert(t[0] == steps[0]);
        assert(t.drop_first() =~= steps.drop_first().take(j));
        assert(run_steps(role, state, t) == run_steps(role, next, steps.drop_first().take(j)));
    }
}

/// A pairing whose every step succeeds ends complete, on either side.
pub proof fn successful_pairing_completes(role: PairingRole)
    ensures
        run_steps(role, ProductPairingState::AwaitingPeerHello, successful_pairing())
            == ProductPairingState::Complete,
{
    reveal_with_fuel(run_steps, 6);
    let s = successful_pairing();
    assert(s.drop_first().drop_first().drop_first().drop_first().drop_first().len() == 0);
}

/// A failed attempt to store the outcome ends the pairing: it is failed, and recording
/// persistence afterwards neither succeeds nor changes that.
pub proof fn persistence_failure_is_terminal(role: PairingRole, outcome: StepOutcome)
    ensures
        pairing_transition(
            role,
            ProductPairingState::AwaitingPersistence,
            PairingStep::PersistenceFailed,
            StepOutcome::Done,
        ) == ProductPairingState::Failed,
        pairing_transition(role, ProductPairingState::Failed, PairingStep::MarkPersisted, outcome)
            == ProductPairingState::Failed,
        expected_state(role, PairingStep::MarkPersisted) != ProductPairingState::Failed,
{
}

/// Cancelling a pairing in progress leaves it cancelled for good.
pub proof fn cancellation_is_final(
    role: PairingRole,
    state: ProductPairingState,
    steps: Seq<(PairingStep, StepOutcome)>,
)
    requires
        !is_terminal(state),
    ensures
        run_steps(
            role,
            pairing_transition(role, state, PairingStep::Cancel, StepOutcome::Done),
            steps,
        ) == ProductPairingState::Cancelled,
    decreases steps.len(),
{
    if steps.len() > 0 {
        terminal_states_absorb(role, ProductPairingState::Cancelled, steps[0].0, steps[0].1);
        cancelled_stays_cancelled(role, steps.drop_first());
    }
}

proof fn cancelled_stays_cancelled(role: PairingRole, steps: Seq<(PairingStep, StepOutcome)>)
    ensures
        run_steps(role, ProductPairingState::Cancelled, steps) == ProductPairingState::Cancelled,
    decreases steps.len(),
{
    if steps.len() > 0 {
        cancelled_stays_cancelled(role, steps.drop_first());
    }
}

} // verus!
