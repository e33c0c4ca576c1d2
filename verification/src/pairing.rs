//! Product pairing coordinators: the order of the pairing steps on each side, and what a
//! failed, out-of-order or cancelled step leaves behind.
//!
//! The cryptographic work of each step (the pairing flow, credential issuance, trust
//! establishment) is handed in as a closure; the coordinator decides whether the step may run,
//! runs it at most once, keeps what it produced and moves to the next state.

use vstd::prelude::*;

use crate::bytes::bytes_eq;

verus! {

/// Where a product pairing coordinator stands.
#[derive(Debug, Clone, Copy, PartialEq, Eq, Structural)]
pub enum ProductPairingState {
    AwaitingPeerHello,
    AwaitingPeerConfirmation,
    AwaitingCredential,
    AwaitingCredentialAcceptance,
    AwaitingPeerTrust,
    AwaitingPersistence,
    Complete,
    Cancelled,
    Failed,
}

/// Which side of a pairing a coordinator or a hello speaks for.
#[derive(Debug, Clone, Copy, PartialEq, Eq, Structural)]
pub enum PairingRole {
    Inviter,
    Joiner,
}

/// The steps of a pairing coordinator, named for both sides.
#[derive(Debug, Clone, Copy, PartialEq, Eq, Structural)]
pub enum PairingStep {
    /// Inviter: accept the joiner's hello. Joiner: accept the inviter's hello.
    AcceptPeerHello,
    /// Verify the peer's secret confirmation.
    VerifyPeerConfirmation,
    /// Inviter: issue the joiner's credential. Joiner: accept the issued credential.
    Credential,
    /// Inviter: verify the credential acceptance. Joiner: accept the inviter's trust.
    Finalize,
    MarkPersisted,
    PersistenceFailed,
    Cancel,
}

/// How the work of a step that was allowed to run ended.
#[derive(Debug, Clone, Copy, PartialEq, Eq, Structural)]
pub enum StepOutcome {
    /// The step's work succeeded.
    Done,
    /// The step's work, or a check of the step, rejected the input.
    Rejected,
    /// Secure randomness was unavailable before the step's work began.
    Unavailable,
}

#[derive(Debug, Clone, Copy, PartialEq, Eq)]
pub enum ProductPairingError<I, F> {
    Random,
    InvalidState,
    LocalIdentityMismatch,
    BootstrapPeerMismatch,
    Identity(I),
    Flow(F),
}

/// Terminal states admit no further step.
pub open spec fn is_terminal(state: ProductPairingState) -> bool {
    state == ProductPairingState::Complete || state == ProductPairingState::Cancelled
        || state == ProductPairingState::Failed
}

/// The state a failure leaves behind: a terminal state stays, any other becomes `Failed`.
pub open spec fn after_failure(state: ProductPairingState) -> ProductPairingState {
    if is_terminal(state) {
        state
    } else {
        ProductPairingState::Failed
    }
}

/// The state in which a step may run, for the given side.
pub open spec fn expected_state(role: PairingRole, step: PairingStep) -> ProductPairingState {
    match step {
        PairingStep::AcceptPeerHello => ProductPairingState::AwaitingPeerHello,
        PairingStep::VerifyPeerConfirmation => ProductPairingState::AwaitingPeerConfirmation,
        PairingStep::Credential => ProductPairingState::AwaitingCredential,
        PairingStep::Finalize => match role {
            PairingRole::Inviter => ProductPairingState::AwaitingCredentialAcceptance,
            PairingRole::Joiner => ProductPairingState::AwaitingPeerTrust,
        },
        _ => ProductPairingState::AwaitingPersistence,
    }
}

/// The state a step leads to when its work succeeds.
pub open spec fn success_state(role: PairingRole, step: PairingStep) -> ProductPairingState {
    match step {
        PairingStep::AcceptPeerHello => ProductPairingState::AwaitingPeerConfirmation,
        PairingStep::VerifyPeerConfirmation => ProductPairingState::AwaitingCredential,
        PairingStep::Credential => match role {
            PairingRole::Inviter => ProductPairingState::AwaitingCredentialAcceptance,
            PairingRole::Joiner => ProductPairingState::AwaitingPeerTrust,
        },
        PairingStep::Finalize => ProductPairingState::AwaitingPersistence,
        PairingStep::MarkPersisted => ProductPairingState::Complete,
        PairingStep::PersistenceFailed => ProductPairingState::Failed,
        PairingStep::Cancel => ProductPairingState::Cancelled,
    }
}

/// The pairing state machine of one side.
///
/// Cancelling moves any non-terminal state to `Cancelled` and leaves a terminal one as it is.
/// Any other step in a state other than the one it expects fails the pairing. A step in its
/// expected state moves on when its work is done, fails the pairing when its work is rejected,
/// and leaves the state unchanged when randomness was unavailable.
pub open spec fn pairing_transition(
    role: PairingRole,
    state: ProductPairingState,
    step: PairingStep,
    outcome: StepOutcome,
) -> ProductPairingState {
    if step == PairingStep::Cancel {
        if is_terminal(state) {
            state
        } else {
            ProductPairingState::Cancelled
        }
    } else if state != expected_state(role, step) {
        after_failure(state)
    } else {
        match outcome {
            StepOutcome::Done => success_state(role, step),
            StepOutcome::Rejected => ProductPairingState::Failed,
            StepOutcome::Unavailable => state,
        }
    }
}

/// How a step's result reads as an outcome.
pub open spec fn outcome_of<T, I, F>(r: Result<T, ProductPairingError<I, F>>) -> StepOutcome {
    match r {
        Ok(_) => StepOutcome::Done,
        Err(ProductPairingError::Random) => StepOutcome::Unavailable,
        Err(_) => StepOutcome::Rejected,
    }
}

/// The error a step returns when it is called in a state other than the one it expects.
pub open spec fn out_of_sequence<T, I, F>(r: Result<T, ProductPairingError<I, F>>) -> bool {
    r == Err::<T, ProductPairingError<I, F>>(ProductPairingError::InvalidState)
}

/// What a step on the flow returned, read against the step's result: the flow's error is
/// passed on as `Flow`.
pub open spec fn flow_result_matches<R, I, F>(
    out: Result<R, F>,
    r: Result<R, ProductPairingError<I, F>>,
) -> bool {
    match out {
        Ok(v) => r == Ok::<R, ProductPairingError<I, F>>(v),
        Err(e) => r == Err::<R, ProductPairingError<I, F>>(ProductPairingError::Flow(e)),
    }
}

fn is_terminal_exec(state: ProductPairingState) -> (r: bool)
    ensures
        r == is_terminal(state),
{
    state == ProductPairingState::Complete || state == ProductPairingState::Cancelled
        || state == ProductPairingState::Failed
}

/// A peer's credential, the trust transition it carries and the trust record derived from it.
#[derive(Debug, Clone, Copy, PartialEq, Eq)]
pub struct ProductPairingCommit<Cred, Trans, Trust> {
    peer_credential: Cred,
    peer_transition: Trans,
    peer_trust: Trust,
}

impl<Cred, Trans, Trust> View for ProductPairingCommit<Cred, Trans, Trust> {
    type V = (Cred, Trans, Trust);

    closed spec fn view(&self) -> (Cred, Trans, Trust) {
        (self.peer_credential, self.peer_transition, self.peer_trust)
    }
}

impl<Cred: Copy, Trans: Copy, Trust: Copy> ProductPairingCommit<Cred, Trans, Trust> {
    pub fn peer_credential(&self) -> (r: Cred)
        ensures
            r == self@.0,
    {
        self.peer_credential
    }

    pub fn peer_transition(&self) -> (r: Trans)
        ensures
            r == self@.1,
    {
        self.peer_transition
    }

    pub fn peer_trust(&self) -> (r: Trust)
        ensures
            r == self@.2,
    {
        self.peer_trust
    }
}

/// A credential together with the trust transition that vouches for it.
#[derive(Debug, Clone, Copy, PartialEq, Eq)]
pub struct ProductPairingTrustBundle<Cred, Trans> {
    credential: Cred,
    transition: Trans,
}

impl<Cred, Trans> View for ProductPairingTrustBundle<Cred, Trans> {
    type V = (Cred, Trans);

    closed spec fn view(&self) -> (Cred, Trans) {
        (self.credential, self.transition)
    }
}

impl<Cred, Trans> ProductPairingTrustBundle<Cred, Trans> {
    pub fn new(credential: Cred, transition: Trans) -> (r: Self)
        ensures
            r@ == (credential, transition),
    {
        ProductPairingTrustBundle { credential, transition }
    }
}

impl<Cred: Copy, Trans: Copy> ProductPairingTrustBundle<Cred, Trans> {
    pub fn credential(&self) -> (r: Cred)
        ensures
            r == self@.0,
    {
        self.credential
    }

    pub fn transition(&self) -> (r: Trans)
        ensures
            r == self@.1,
    {
        self.transition
    }
}

/// What the inviter hands on once the joiner's acceptance is verified: the commit on the
/// joiner, and the inviter's own credential with the reciprocal transition.
#[derive(Debug, Clone, Copy, PartialEq, Eq)]
pub struct ProductPairingInviterCompletion<Cred, Trans, Trust> {
    commit: ProductPairingCommit<Cred, Trans, Trust>,
    reciprocal_trust: ProductPairingTrustBundle<Cred, Trans>,
}

impl<Cred, Trans, Trust> View for ProductPairingInviterCompletion<Cred, Trans, Trust> {
    type V = ((Cred, Trans, Trust), (Cred, Trans));

    closed spec fn view(&self) -> ((Cred, Trans, Trust), (Cred, Trans)) {
        (self.commit@, self.reciprocal_trust@)
    }
}

impl<Cred: Copy, Trans: Copy, Trust: Copy> ProductPairingInviterCompletion<Cred, Trans, Trust> {
    pub fn commit(&self) -> (r: ProductPairingCommit<Cred, Trans, Trust>)
        ensures
            r@ == self@.0,
    {
        self.commit
    }

    pub fn reciprocal_trust(&self) -> (r: ProductPairingTrustBundle<Cred, Trans>)
        ensures
            r@ == self@.1,
    {
        self.reciprocal_trust
    }
}

/// What the joiner keeps once the inviter's trust is established: the owner root and the
/// device-signing delegation it accepted the credential under, its own credential, and the
/// commit on the inviter.
#[derive(Debug, Clone, Copy, PartialEq, Eq)]
pub struct ProductPairingJoinerCompletion<Root, Deleg, Cred, Trans, Trust> {
    owner_root: Root,
    device_signing: Deleg,
    local_credential: Cred,
    peer_commit: ProductPairingCommit<Cred, Trans, Trust>,
}

impl<Root, Deleg, Cred, Trans, Trust> View for ProductPairingJoinerCompletion<
    Root,
    Deleg,
    Cred,
    Trans,
    Trust,
> {
    type V = (Root, Deleg, Cred, (Cred, Trans, Trust));

    closed spec fn view(&self) -> (Root, Deleg, Cred, (Cred, Trans, Trust)) {
        (self.owner_root, self.device_signing, self.local_credential, self.peer_commit@)
    }
}

impl<
    Root: Copy,
    Deleg: Copy,
    Cred: Copy,
    Trans: Copy,
    Trust: Copy,
> ProductPairingJoinerCompletion<Root, Deleg, Cred, Trans, Trust> {
    pub fn owner_root(&self) -> (r: Root)
        ensures
            r == self@.0,
    {
        self.owner_root
    }

    pub fn device_signing(&self) -> (r: Deleg)
        ensures
            r == self@.1,
    {
        self.device_signing
    }

    pub fn local_credential(&self) -> (r: Cred)
        ensures
            r == self@.2,
    {
        self.local_credential
    }

    pub fn peer_commit(&self) -> (r: ProductPairingCommit<Cred, Trans, Trust>)
        ensures
            r@ == self@.3,
    {
        self.peer_commit
    }
}

/// What an inviter holds, as the contracts see it.
pub struct InviterView<Inv, Flow, Cred> {
    pub state: ProductPairingState,
    pub invitation: Option<Inv>,
    pub flow: Option<Flow>,
    pub issued_credential: Option<Cred>,
}

impl<Inv, Flow, Cred> InviterView<Inv, Flow, Cred> {
    /// Each state holds what its next step needs, and a cancelled pairing holds nothing.
    pub open spec fn wf(self) -> bool {
        &&& self.state != ProductPairingState::AwaitingPeerTrust
        &&& self.state == ProductPairingState::AwaitingPeerHello ==> self.invitation is Some
        &&& (self.state == ProductPairingState::AwaitingPeerConfirmation || self.state
            == ProductPairingState::AwaitingCredential || self.state
            == ProductPairingState::AwaitingCredentialAcceptance || self.state
            == ProductPairingState::AwaitingPersistence) ==> self.flow is Some
        &&& self.state == ProductPairingState::AwaitingCredentialAcceptance
            ==> self.issued_credential is Some
        &&& self.state == ProductPairingState::Cancelled ==> {
            &&& self.invitation is None
            &&& self.flow is None
            &&& self.issued_credential is None
        }
    }
}

/// The inviter's side of a product pairing.
pub struct ProductPairingInviter<Inv, Flow, Cred, Hello> {
    local_credential: Cred,
    hello: Hello,
    invitation: Option<Inv>,
    flow: Option<Flow>,
    issued_credential: Option<Cred>,
    state: ProductPairingState,
}

impl<Inv, Flow, Cred, Hello> View for ProductPairingInviter<Inv, Flow, Cred, Hello> {
    type V = InviterView<Inv, Flow, Cred>;

    closed spec fn view(&self) -> InviterView<Inv, Flow, Cred> {
        InviterView {
            state: self.state,
            invitation: self.invitation,
            flow: self.flow,
            issued_credential: self.issued_credential,
        }
    }
}

impl<Inv, Flow, Cred, Hello> ProductPairingInviter<Inv, Flow, Cred, Hello> {
    pub closed spec fn spec_local_credential(&self) -> Cred {
        self.local_credential
    }

    pub closed spec fn spec_hello(&self) -> Hello {
        self.hello
    }

    /// Starts an inviter on an invitation (for `invitation_owner` and
    /// `invitation_inviter_device`) with the local device's credential (for `credential_owner`
    /// and `credential_device`). A credential that failed verification against the owner
    /// authority (`credential_verified`) refuses with its error; an invitation issued for
    /// another owner or another device refuses with `LocalIdentityMismatch`.
    pub fn new<I, F>(
        invitation: Inv,
        invitation_owner: [u8; 32],
        invitation_inviter_device: [u8; 32],
        local_credential: Cred,
        credential_owner: [u8; 32],
        credential_device: [u8; 32],
        credential_verified: Result<(), I>,
        hello: Hello,
    ) -> (r: Result<Self, ProductPairingError<I, F>>)
        ensures
            credential_verified matches Err(e) ==> r == Err::<Self, _>(
                ProductPairingError::<I, F>::Identity(e),
            ),
            credential_verified is Ok ==> ((r is Err) == !(invitation_owner@ == credential_owner@
                && invitation_inviter_device@ == credential_device@)),
            credential_verified is Ok && r is Err ==> r == Err::<Self, _>(
                ProductPairingError::<I, F>::LocalIdentityMismatch,
            ),
            r matches Ok(v) ==> {
                &&& v@.wf()
                &&& v@.state == ProductPairingState::AwaitingPeerHello
                &&& v@.invitation == Some(invitation)
                &&& v@.flow is None
                &&& v@.issued_credential is None
                &&& v.spec_local_credential() == local_credential
                &&& v.spec_hello() == hello
            },
    {
        match credential_verified {
            Err(e) => return Err(ProductPairingError::Identity(e)),
            Ok(()) => {},
        }
        if !local_identity_matches(
            &invitation_owner,
            &invitation_inviter_device,
            &credential_owner,
            &credential_device,
        ) {
            return Err(ProductPairingError::LocalIdentityMismatch);
        }
        Ok(
            ProductPairingInviter {
                local_credential,
                hello,
                invitation: Some(invitation),
                flow: None,
                issued_credential: None,
                state: ProductPairingState::AwaitingPeerHello,
            },
        )
    }

    pub fn state(&self) -> (r: ProductPairingState)
        ensures
            r == self@.state,
    {
        self.state
    }

    pub fn hello(&self) -> (r: &Hello)
        ensures
            *r == self.spec_hello(),
    {
        &self.hello
    }

    pub fn local_credential(&self) -> (r: &Cred)
        ensures
            *r == self.spec_local_credential(),
    {
        &self.local_credential
    }

    fn fail<T, I, F>(&mut self, error: ProductPairingError<I, F>) -> (r: Result<
        T,
        ProductPairingError<I, F>,
    >)
        ensures
            r == Err::<T, ProductPairingError<I, F>>(error),
            final(self)@ == (InviterView { state: after_failure(old(self)@.state), ..old(self)@ }),
            final(self).spec_local_credential() == old(self).spec_local_credential(),
            final(self).spec_hello() == old(self).spec_hello(),
    {
        if !is_terminal_exec(self.state) {
            self.state = ProductPairingState::Failed;
        }
        Err(error)
    }

    /// Accepts the joiner's hello: hands the invitation to `make_flow`, which starts the
    /// inviter flow, and keeps the flow.
    pub fn accept_joiner_hello<I, F, Make>(&mut self, make_flow: Make) -> (r: Result<
        (),
        ProductPairingError<I, F>,
    >) where Make: FnOnce(Inv) -> Result<Flow, F>
        requires
            old(self)@.wf(),
            forall|i: Inv| make_flow.requires((i,)),
        ensures
            final(self)@.wf(),
            final(self)@.state == pairing_transition(
                PairingRole::Inviter,
                old(self)@.state,
                PairingStep::AcceptPeerHello,
                outcome_of(r),
            ),
            final(self).spec_local_credential() == old(self).spec_local_credential(),
            final(self).spec_hello() == old(self).spec_hello(),
            final(self)@.issued_credential == old(self)@.issued_credential,
            old(self)@.state != ProductPairingState::AwaitingPeerHello ==> {
                &&& out_of_sequence(r)
                &&& final(self)@.invitation == old(self)@.invitation
                &&& final(self)@.flow == old(self)@.flow
            },
            old(self)@.state == ProductPairingState::AwaitingPeerHello ==> {
                &&& final(self)@.invitation is None
                &&& exists|out: Result<Flow, F>|
                    #![trigger make_flow.ensures((old(self)@.invitation.unwrap(),), out)]
                    make_flow.ensures((old(self)@.invitation.unwrap(),), out) && match out {
                        Ok(flow) => r is Ok && final(self)@.flow == Some(flow),
                        Err(e) => r == Err::<(), ProductPairingError<I, F>>(
                            ProductPairingError::Flow(e),
                        ) && final(self)@.flow == old(self)@.flow,
                    }
            },
    {
        if self.state != ProductPairingState::AwaitingPeerHello {
            return self.fail(ProductPairingError::InvalidState);
        }
        let invitation = match self.invitation.take() {
            Some(invitation) => invitation,
            None => return Err(ProductPairingError::InvalidState),
        };
        let out = make_flow(invitation);
        match out {
            Ok(flow) => {
                self.flow = Some(flow);
                self.state = ProductPairingState::AwaitingPeerConfirmation;
                Ok(())
            },
            Err(error) => self.fail(ProductPairingError::Flow(error)),
        }
    }

    /// Runs a step on the flow and puts the flow back, whatever the step returned.
    fn call_flow<R, F, Step>(&mut self, step: Step) -> (out: Result<R, F>) where
        Step: FnOnce(Flow) -> (Flow, Result<R, F>),

        requires
            old(self).flow is Some,
            forall|f: Flow| step.requires((f,)),
        ensures
            final(self)@ == (InviterView { flow: final(self)@.flow, ..old(self)@ }),
            final(self).spec_local_credential() == old(self).spec_local_credential(),
            final(self).spec_hello() == old(self).spec_hello(),
            exists|f: Flow|
                #![trigger step.ensures((old(self)@.flow.unwrap(),), (f, out))]
                step.ensures((old(self)@.flow.unwrap(),), (f, out)) && final(self)@.flow == Some(
                    f,
                ),
    {
        let flow = self.flow.take().unwrap();
        let (flow, out) = step(flow);
        self.flow = Some(flow);
        out
    }

    /// Verifies the joiner's secret confirmation with `verify`, which returns the inviter's
    /// own confirmation for the joiner.
    pub fn verify_joiner_confirmation<R, I, F, Step>(&mut self, verify: Step) -> (r: Result<
        R,
        ProductPairingError<I, F>,
    >) where Step: FnOnce(Flow) -> (Flow, Result<R, F>)
        requires
            old(self)@.wf(),
            forall|f: Flow| verify.requires((f,)),
        ensures
            final(self)@.wf(),
            final(self)@.state == pairing_transition(
                PairingRole::Inviter,
                old(self)@.state,
                PairingStep::VerifyPeerConfirmation,
                outcome_of(r),
            ),
            final(self).spec_local_credential() == old(self).spec_local_credential(),
            final(self).spec_hello() == old(self).spec_hello(),
            final(self)@.invitation == old(self)@.invitation,
            final(self)@.issued_credential == old(self)@.issued_credential,
            old(self)@.state != ProductPairingState::AwaitingPeerConfirmation ==> out_of_sequence(r)
                && final(self)@.flow == old(self)@.flow,
            old(self)@.state == ProductPairingState::AwaitingPeerConfirmation ==> exists|
                f: Flow,
                out: Result<R, F>,
            |
                #![trigger verify.ensures((old(self)@.flow.unwrap(),), (f, out))]
                verify.ensures((old(self)@.flow.unwrap(),), (f, out)) && final(self)@.flow == Some(f)
                    && flow_result_matches(out, r),
    {
        if self.state != ProductPairingState::AwaitingPeerConfirmation {
            return self.fail(ProductPairingError::InvalidState);
        }
        match self.call_flow(verify) {
            Ok(response) => {
                self.state = ProductPairingState::AwaitingCredential;
                Ok(response)
            },
            Err(error) => self.fail(ProductPairingError::Flow(error)),
        }
    }

    /// Issues the joiner's initial credential with `issue` and keeps it for the acceptance
    /// check.
    pub fn issue_joiner_credential<I, F, Step>(&mut self, issue: Step) -> (r: Result<
        Cred,
        ProductPairingError<I, F>,
    >) where Step: FnOnce(Flow) -> (Flow, Result<Cred, F>), Cred: Copy
        requires
            old(self)@.wf(),
            forall|f: Flow| issue.requires((f,)),
        ensures
            final(self)@.wf(),
            final(self)@.state == pairing_transition(
                PairingRole::Inviter,
                old(self)@.state,
                PairingStep::Credential,
                outcome_of(r),
            ),
            final(self).spec_local_credential() == old(self).spec_local_credential(),
            final(self).spec_hello() == old(self).spec_hello(),
            final(self)@.invitation == old(self)@.invitation,
            old(self)@.state != ProductPairingState::AwaitingCredential ==> out_of_sequence(r)
                && final(self)@.flow == old(self)@.flow && final(self)@.issued_credential == old(
                self,
            )@.issued_credential,
            old(self)@.state == ProductPairingState::AwaitingCredential ==> exists|
                f: Flow,
                out: Result<Cred, F>,
            |
                #![trigger issue.ensures((old(self)@.flow.unwrap(),), (f, out))]
                issue.ensures((old(self)@.flow.unwrap(),), (f, out)) && final(self)@.flow == Some(f)
                    && flow_result_matches(out, r) && final(self)@.issued_credential == match out {
                    Ok(c) => Some(c),
                    Err(_) => old(self)@.issued_credential,
                },
    {
        if self.state != ProductPairingState::AwaitingCredential {
            return self.fail(ProductPairingError::InvalidState);
        }
        match self.call_flow(issue) {
            Ok(credential) => {
                self.issued_credential = Some(credential);
                self.state = ProductPairingState::AwaitingCredentialAcceptance;
                Ok(credential)
            },
            Err(error) => self.fail(ProductPairingError::Flow(error)),
        }
    }

    /// Verifies the joiner's credential acceptance and establishes trust in both directions.
    ///
    /// `transition_id` is the fresh identifier for the reciprocal trust transition, or the
    /// failure to draw one. `commit` gets the flow, the issued credential and that identifier,
    /// and returns the joiner's trust transition, the trust record on the joiner and the
    /// reciprocal transition on the inviter's own credential.
    pub fn verify_credential_acceptance<Id, E, Trans, Trust, I, F, Step>(
        &mut self,
        transition_id: Result<Id, E>,
        commit: Step,
    ) -> (r: Result<ProductPairingInviterCompletion<Cred, Trans, Trust>, ProductPairingError<I, F>>) where
        Step: FnOnce(Flow, Cred, Id) -> (Flow, Result<(Trans, Trust, Trans), F>),
        Cred: Copy,

        requires
            old(self)@.wf(),
            forall|f: Flow, c: Cred, i: Id| commit.requires((f, c, i)),
        ensures
            final(self)@.wf(),
            final(self)@.state == pairing_transition(
                PairingRole::Inviter,
                old(self)@.state,
                PairingStep::Finalize,
                outcome_of(r),
            ),
            final(self).spec_local_credential() == old(self).spec_local_credential(),
            final(self).spec_hello() == old(self).spec_hello(),
            final(self)@.invitation == old(self)@.invitation,
            final(self)@.issued_credential == old(self)@.issued_credential,
            old(self)@.state != ProductPairingState::AwaitingCredentialAcceptance ==> out_of_sequence(
                r,
            ) && final(self)@.flow == old(self)@.flow,
            old(self)@.state == ProductPairingState::AwaitingCredentialAcceptance ==> match transition_id {
                Err(_) => r == Err::<ProductPairingInviterCompletion<Cred, Trans, Trust>, _>(
                    ProductPairingError::<I, F>::Random,
                ) && final(self)@.flow == old(self)@.flow,
                Ok(id) => exists|f: Flow, out: Result<(Trans, Trust, Trans), F>|
                    #![trigger commit.ensures((old(self)@.flow.unwrap(), old(self)@.issued_credential.unwrap(), id), (f, out))]
                    commit.ensures(
                        (old(self)@.flow.unwrap(), old(self)@.issued_credential.unwrap(), id),
                        (f, out),
                    ) && final(self)@.flow == Some(f) && match out {
                        Ok(t) => r matches Ok(c) && c@ == (
                            (old(self)@.issued_credential.unwrap(), t.0, t.1),
                            (old(self).spec_local_credential(), t.2),
                        ),
                        Err(e) => r == Err::<ProductPairingInviterCompletion<Cred, Trans, Trust>, _>(
                            ProductPairingError::<I, F>::Flow(e),
                        ),
                    },
            },
    {
        if self.state != ProductPairingState::AwaitingCredentialAcceptance {
            return self.fail(ProductPairingError::InvalidState);
        }
        let id = match transition_id {
            Ok(id) => id,
            Err(_) => return Err(ProductPairingError::Random),
        };
        let credential = match self.issued_credential {
            Some(credential) => credential,
            None => return Err(ProductPairingError::InvalidState),
        };
        let flow = self.flow.take().unwrap();
        let (flow, out) = commit(flow, credential, id);
        self.flow = Some(flow);
        match out {
            Ok((peer_transition, peer_trust, reciprocal_transition)) => {
                self.state = ProductPairingState::AwaitingPersistence;
                Ok(ProductPairingInviterCompletion {
                    commit: ProductPairingCommit {
                        peer_credential: credential,
                        peer_transition,
                        peer_trust,
                    },
                    reciprocal_trust: ProductPairingTrustBundle {
                        credential: self.local_credential,
                        transition: reciprocal_transition,
                    },
                })
            },
            Err(error) => self.fail(ProductPairingError::Flow(error)),
        }
    }

    /// Records that the pairing outcome was stored.
    pub fn mark_persisted<I, F>(&mut self) -> (r: Result<(), ProductPairingError<I, F>>)
        requires
            old(self)@.wf(),
        ensures
            final(self)@.wf(),
            final(self)@ == (InviterView {
                state: pairing_transition(
                    PairingRole::Inviter,
                    old(self)@.state,
                    PairingStep::MarkPersisted,
                    StepOutcome::Done,
                ),
                ..old(self)@
            }),
            final(self).spec_local_credential() == old(self).spec_local_credential(),
            final(self).spec_hello() == old(self).spec_hello(),
            (old(self)@.state == ProductPairingState::AwaitingPersistence) == (r is Ok),
            r is Err ==> out_of_sequence(r),
    {
        if self.state != ProductPairingState::AwaitingPersistence {
            return self.fail(ProductPairingError::InvalidState);
        }
        self.state = ProductPairingState::Complete;
        Ok(())
    }

    /// Records that storing the pairing outcome failed; the pairing is then over.
    pub fn persistence_failed<I, F>(&mut self) -> (r: Result<(), ProductPairingError<I, F>>)
        requires
            old(self)@.wf(),
        ensures
            final(self)@.wf(),
            final(self)@ == (InviterView {
                state: pairing_transition(
                    PairingRole::Inviter,
                    old(self)@.state,
                    PairingStep::PersistenceFailed,
                    StepOutcome::Done,
                ),
                ..old(self)@
            }),
            final(self).spec_local_credential() == old(self).spec_local_credential(),
            final(self).spec_hello() == old(self).spec_hello(),
            (old(self)@.state == ProductPairingState::AwaitingPersistence) == (r is Ok),
            r is Err ==> out_of_sequence(r),
    {
        if self.state != ProductPairingState::AwaitingPersistence {
            return self.fail(ProductPairingError::InvalidState);
        }
        self.state = ProductPairingState::Failed;
        Ok(())
    }

    /// Cancels a pairing that is not over, dropping the invitation, the flow and the issued
    /// credential.
    pub fn cancel<I, F>(&mut self) -> (r: Result<(), ProductPairingError<I, F>>)
        requires
            old(self)@.wf(),
        ensures
            final(self)@.wf(),
            final(self)@.state == pairing_transition(
                PairingRole::Inviter,
                old(self)@.state,
                PairingStep::Cancel,
                StepOutcome::Done,
            ),
            final(self).spec_local_credential() == old(self).spec_local_credential(),
            final(self).spec_hello() == old(self).spec_hello(),
            is_terminal(old(self)@.state) ==> out_of_sequence(r) && final(self)@ == old(self)@,
            !is_terminal(old(self)@.state) ==> r is Ok && final(self)@.invitation is None
                && final(self)@.flow is None && final(self)@.issued_credential is None,
    {
        if is_terminal_exec(self.state) {
            return Err(ProductPairingError::InvalidState);
        }
        self.invitation = None;
        self.flow = None;
        self.issued_credential = None;
        self.state = ProductPairingState::Cancelled;
        Ok(())
    }
}

/// The owner and inviter device that a scanned bootstrap code binds a pairing to.
#[derive(Debug, Clone, Copy, PartialEq, Eq)]
pub struct PairingBootstrapBinding {
    pub pairing_id: [u8; 16],
    pub owner_id: [u8; 32],
    pub inviter_device_id: [u8; 32],
}

/// The identifying fields of a pairing hello.
#[derive(Debug, Clone, Copy, PartialEq, Eq)]
pub struct PairingHelloSummary {
    pub role: PairingRole,
    pub pairing_id: [u8; 16],
    pub owner_id: [u8; 32],
    pub device_id: [u8; 32],
}

/// An inviter hello is acceptable to a joiner only when it comes from the inviter device, for
/// the pairing and the owner, that the scanned bootstrap names.
pub open spec fn hello_matches_bootstrap(
    peer: PairingHelloSummary,
    binding: PairingBootstrapBinding,
) -> bool {
    &&& peer.role == PairingRole::Inviter
    &&& peer.pairing_id@ == binding.pairing_id@
    &&& peer.owner_id@ == binding.owner_id@
    &&& peer.device_id@ == binding.inviter_device_id@
}

/// Checks a hello against a scanned bootstrap.
pub fn hello_matches_bootstrap_exec(
    peer: &PairingHelloSummary,
    binding: &PairingBootstrapBinding,
) -> (r: bool)
    ensures
        r == hello_matches_bootstrap(*peer, *binding),
{
    peer.role == PairingRole::Inviter && bytes_eq(&peer.pairing_id, &binding.pairing_id)
        && bytes_eq(&peer.owner_id, &binding.owner_id) && bytes_eq(
        &peer.device_id,
        &binding.inviter_device_id,
    )
}

/// An inviter may only start on an invitation issued for its own owner and its own device.
pub fn local_identity_matches(
    invitation_owner: &[u8; 32],
    invitation_inviter_device: &[u8; 32],
    credential_owner: &[u8; 32],
    credential_device: &[u8; 32],
) -> (r: bool)
    ensures
        r == (invitation_owner@ == credential_owner@ && invitation_inviter_device@
            == credential_device@),
{
    bytes_eq(invitation_owner, credential_owner) && bytes_eq(
        invitation_inviter_device,
        credential_device,
    )
}

/// What a joiner holds, as the contracts see it.
pub struct JoinerView<Secret, Flow, Cred, Root, Deleg> {
    pub state: ProductPairingState,
    pub secret: Option<Secret>,
    pub flow: Option<Flow>,
    pub owner_root: Option<Root>,
    pub device_signing: Option<Deleg>,
    pub accepted_credential: Option<Cred>,
}

impl<Secret, Flow, Cred, Root, Deleg> JoinerView<Secret, Flow, Cred, Root, Deleg> {
    /// Each state holds what its next step needs, and a cancelled pairing holds nothing.
    pub open spec fn wf(self) -> bool {
        &&& self.state != ProductPairingState::AwaitingCredentialAcceptance
        &&& self.state == ProductPairingState::AwaitingPeerHello ==> self.secret is Some
        &&& (self.state == ProductPairingState::AwaitingPeerConfirmation || self.state
            == ProductPairingState::AwaitingCredential || self.state
            == ProductPairingState::AwaitingPeerTrust || self.state
            == ProductPairingState::AwaitingPersistence) ==> self.flow is Some
        &&& (self.state == ProductPairingState::AwaitingPeerTrust || self.state
            == ProductPairingState::AwaitingPersistence) ==> {
            &&& self.owner_root is Some
            &&& self.device_signing is Some
            &&& self.accepted_credential is Some
        }
        &&& self.state == ProductPairingState::Cancelled ==> {
            &&& self.secret is None
            &&& self.flow is None
            &&& self.owner_root is None
            &&& self.device_signing is None
            &&& self.accepted_credential is None
        }
    }
}

/// The joiner's side of a product pairing.
pub struct ProductPairingJoiner<Secret, Flow, Cred, Root, Deleg, Hello> {
    hello: Hello,
    binding: PairingBootstrapBinding,
    secret: Option<Secret>,
    flow: Option<Flow>,
    owner_root: Option<Root>,
    device_signing: Option<Deleg>,
    accepted_credential: Option<Cred>,
    state: ProductPairingState,
}

impl<Secret, Flow, Cred, Root, Deleg, Hello> View for ProductPairingJoiner<
    Secret,
    Flow,
    Cred,
    Root,
    Deleg,
    Hello,
> {
    type V = JoinerView<Secret, Flow, Cred, Root, Deleg>;

    closed spec fn view(&self) -> JoinerView<Secret, Flow, Cred, Root, Deleg> {
        JoinerView {
            state: self.state,
            secret: self.secret,
            flow: self.flow,
            owner_root: self.owner_root,
            device_signing: self.device_signing,
            accepted_credential: self.accepted_credential,
        }
    }
}

impl<Secret, Flow, Cred, Root, Deleg, Hello> ProductPairingJoiner<
    Secret,
    Flow,
    Cred,
    Root,
    Deleg,
    Hello,
> {
    pub closed spec fn spec_hello(&self) -> Hello {
        self.hello
    }

    pub closed spec fn spec_binding(&self) -> PairingBootstrapBinding {
        self.binding
    }

    /// Starts a joiner from a scanned bootstrap: its binding and its pairing secret. A device
    /// cannot join its own invitation.
    pub fn new<I, F>(
        binding: PairingBootstrapBinding,
        secret: Secret,
        local_device_id: [u8; 32],
        hello: Hello,
    ) -> (r: Result<Self, ProductPairingError<I, F>>)
        ensures
            (local_device_id@ == binding.inviter_device_id@) == (r is Err),
            r matches Err(e) ==> e == ProductPairingError::<I, F>::LocalIdentityMismatch,
            r matches Ok(j) ==> {
                &&& j@.wf()
                &&& j@.state == ProductPairingState::AwaitingPeerHello
                &&& j@.secret == Some(secret)
                &&& j@.flow is None
                &&& j@.owner_root is None
                &&& j@.device_signing is None
                &&& j@.accepted_credential is None
                &&& j.spec_hello() == hello
                &&& j.spec_binding() == binding
            },
    {
        if bytes_eq(&local_device_id, &binding.inviter_device_id) {
            return Err(ProductPairingError::LocalIdentityMismatch);
        }
        Ok(ProductPairingJoiner {
            hello,
            binding,
            secret: Some(secret),
            flow: None,
            owner_root: None,
            device_signing: None,
            accepted_credential: None,
            state: ProductPairingState::AwaitingPeerHello,
        })
    }

    pub fn state(&self) -> (r: ProductPairingState)
        ensures
            r == self@.state,
    {
        self.state
    }

    pub fn hello(&self) -> (r: &Hello)
        ensures
            *r == self.spec_hello(),
    {
        &self.hello
    }

    pub fn binding(&self) -> (r: PairingBootstrapBinding)
        ensures
            r == self.spec_binding(),
    {
        self.binding
    }

    pub fn accepted_credential(&self) -> (r: Option<Cred>) where Cred: Copy
        ensures
            r == self@.accepted_credential,
    {
        self.accepted_credential
    }

    fn fail<T, I, F>(&mut self, error: ProductPairingError<I, F>) -> (r: Result<
        T,
        ProductPairingError<I, F>,
    >)
        ensures
            r == Err::<T, ProductPairingError<I, F>>(error),
            final(self)@ == (JoinerView { state: after_failure(old(self)@.state), ..old(self)@ }),
            final(self).spec_hello() == old(self).spec_hello(),
            final(self).spec_binding() == old(self).spec_binding(),
    {
        if !is_terminal_exec(self.state) {
            self.state = ProductPairingState::Failed;
        }
        Err(error)
    }

    /// Runs a step on the flow and puts the flow back, whatever the step returned.
    fn call_flow<R, F, Step>(&mut self, step: Step) -> (out: Result<R, F>) where
        Step: FnOnce(Flow) -> (Flow, Result<R, F>),

        requires
            old(self).flow is Some,
            forall|f: Flow| step.requires((f,)),
        ensures
            final(self)@ == (JoinerView { flow: final(self)@.flow, ..old(self)@ }),
            final(self).spec_hello() == old(self).spec_hello(),
            final(self).spec_binding() == old(self).spec_binding(),
            exists|f: Flow|
                #![trigger step.ensures((old(self)@.flow.unwrap(),), (f, out))]
                step.ensures((old(self)@.flow.unwrap(),), (f, out)) && final(self)@.flow == Some(
                    f,
                ),
    {
        let flow = self.flow.take().unwrap();
        let (flow, out) = step(flow);
        self.flow = Some(flow);
        out
    }

    /// Accepts the inviter's hello: it must match the scanned bootstrap; then `make_flow`
    /// starts the joiner flow from the pairing secret and returns the joiner's confirmation.
    /// The pairing secret is used up either way.
    pub fn accept_inviter_hello<Conf, I, F, Make>(
        &mut self,
        inviter: PairingHelloSummary,
        make_flow: Make,
    ) -> (r: Result<Conf, ProductPairingError<I, F>>) where
        Make: FnOnce(Secret) -> Result<(Flow, Conf), F>,

        requires
            old(self)@.wf(),
            forall|s: Secret| make_flow.requires((s,)),
        ensures
            final(self)@.wf(),
            final(self)@.state == pairing_transition(
                PairingRole::Joiner,
                old(self)@.state,
                PairingStep::AcceptPeerHello,
                outcome_of(r),
            ),
            final(self).spec_hello() == old(self).spec_hello(),
            final(self).spec_binding() == old(self).spec_binding(),
            final(self)@.owner_root == old(self)@.owner_root,
            final(self)@.device_signing == old(self)@.device_signing,
            final(self)@.accepted_credential == old(self)@.accepted_credential,
            old(self)@.state != ProductPairingState::AwaitingPeerHello ==> out_of_sequence(r)
                && final(self)@.secret == old(self)@.secret && final(self)@.flow == old(
                self,
            )@.flow,
            old(self)@.state == ProductPairingState::AwaitingPeerHello ==> final(self)@.secret is None,
            old(self)@.state == ProductPairingState::AwaitingPeerHello && !hello_matches_bootstrap(
                inviter,
                old(self).spec_binding(),
            ) ==> r == Err::<Conf, _>(ProductPairingError::<I, F>::BootstrapPeerMismatch)
                && final(self)@.flow == old(self)@.flow,
            old(self)@.state == ProductPairingState::AwaitingPeerHello && hello_matches_bootstrap(
                inviter,
                old(self).spec_binding(),
            ) ==> exists|out: Result<(Flow, Conf), F>|
                #![trigger make_flow.ensures((old(self)@.secret.unwrap(),), out)]
                make_flow.ensures((old(self)@.secret.unwrap(),), out) && match out {
                    Ok(p) => r == Ok::<Conf, ProductPairingError<I, F>>(p.1) && final(self)@.flow
                        == Some(p.0),
                    Err(e) => r == Err::<Conf, _>(ProductPairingError::<I, F>::Flow(e))
                        && final(self)@.flow == old(self)@.flow,
                },
    {
        if self.state != ProductPairingState::AwaitingPeerHello {
            return self.fail(ProductPairingError::InvalidState);
        }
        let secret = match self.secret.take() {
            Some(secret) => secret,
            None => return Err(ProductPairingError::InvalidState),
        };
        if !hello_matches_bootstrap_exec(&inviter, &self.binding) {
            return self.fail(ProductPairingError::BootstrapPeerMismatch);
        }
        match make_flow(secret) {
            Ok((flow, confirmation)) => {
                self.flow = Some(flow);
                self.state = ProductPairingState::AwaitingPeerConfirmation;
                Ok(confirmation)
            },
            Err(error) => self.fail(ProductPairingError::Flow(error)),
        }
    }

    /// Verifies the inviter's secret confirmation with `verify`.
    pub fn verify_inviter_confirmation<I, F, Step>(&mut self, verify: Step) -> (r: Result<
        (),
        ProductPairingError<I, F>,
    >) where Step: FnOnce(Flow) -> (Flow, Result<(), F>)
        requires
            old(self)@.wf(),
            forall|f: Flow| verify.requires((f,)),
        ensures
            final(self)@.wf(),
            final(self)@.state == pairing_transition(
                PairingRole::Joiner,
                old(self)@.state,
                PairingStep::VerifyPeerConfirmation,
                outcome_of(r),
            ),
            final(self).spec_hello() == old(self).spec_hello(),
            final(self).spec_binding() == old(self).spec_binding(),
            final(self)@.secret == old(self)@.secret,
            final(self)@.owner_root == old(self)@.owner_root,
            final(self)@.device_signing == old(self)@.device_signing,
            final(self)@.accepted_credential == old(self)@.accepted_credential,
            old(self)@.state != ProductPairingState::AwaitingPeerConfirmation ==> out_of_sequence(r)
                && final(self)@.flow == old(self)@.flow,
            old(self)@.state == ProductPairingState::AwaitingPeerConfirmation ==> exists|
                f: Flow,
                out: Result<(), F>,
            |
                #![trigger verify.ensures((old(self)@.flow.unwrap(),), (f, out))]
                verify.ensures((old(self)@.flow.unwrap(),), (f, out)) && final(self)@.flow == Some(f)
                    && flow_result_matches(out, r),
    {
        if self.state != ProductPairingState::AwaitingPeerConfirmation {
            return self.fail(ProductPairingError::InvalidState);
        }
        match self.call_flow(verify) {
            Ok(()) => {
                self.state = ProductPairingState::AwaitingCredential;
                Ok(())
            },
            Err(error) => self.fail(ProductPairingError::Flow(error)),
        }
    }

    /// Accepts the issued credential under the owner root and the current device-signing
    /// delegation (or the error of looking that delegation up); `accept` checks the
    /// credential on the flow and returns the signed acceptance.
    pub fn accept_credential<Acc, I, F, Step>(
        &mut self,
        owner_root: Root,
        device_signing: Result<Deleg, I>,
        credential: Cred,
        accept: Step,
    ) -> (r: Result<Acc, ProductPairingError<I, F>>) where
        Step: FnOnce(Flow) -> (Flow, Result<Acc, F>),

        requires
            old(self)@.wf(),
            forall|f: Flow| accept.requires((f,)),
        ensures
            final(self)@.wf(),
            final(self)@.state == pairing_transition(
                PairingRole::Joiner,
                old(self)@.state,
                PairingStep::Credential,
                outcome_of(r),
            ),
            final(self).spec_hello() == old(self).spec_hello(),
            final(self).spec_binding() == old(self).spec_binding(),
            final(self)@.secret == old(self)@.secret,
            old(self)@.state != ProductPairingState::AwaitingCredential || r is Err ==> {
                &&& final(self)@.owner_root == old(self)@.owner_root
                &&& final(self)@.device_signing == old(self)@.device_signing
                &&& final(self)@.accepted_credential == old(self)@.accepted_credential
            },
            old(self)@.state != ProductPairingState::AwaitingCredential ==> out_of_sequence(r)
                && final(self)@.flow == old(self)@.flow,
            old(self)@.state == ProductPairingState::AwaitingCredential ==> match device_signing {
                Err(e) => r == Err::<Acc, _>(ProductPairingError::<I, F>::Identity(e))
                    && final(self)@.flow == old(self)@.flow,
                Ok(d) => (exists|f: Flow, out: Result<Acc, F>|
                    #![trigger accept.ensures((old(self)@.flow.unwrap(),), (f, out))]
                    accept.ensures((old(self)@.flow.unwrap(),), (f, out)) && final(self)@.flow
                        == Some(f) && flow_result_matches(out, r)) && (r is Ok ==> {
                    &&& final(self)@.owner_root == Some(owner_root)
                    &&& final(self)@.device_signing == Some(d)
                    &&& final(self)@.accepted_credential == Some(credential)
                }),
            },
    {
        if self.state != ProductPairingState::AwaitingCredential {
            return self.fail(ProductPairingError::InvalidState);
        }
        let delegation = match device_signing {
            Ok(delegation) => delegation,
            Err(error) => return self.fail(ProductPairingError::Identity(error)),
        };
        match self.call_flow(accept) {
            Ok(accepted) => {
                self.owner_root = Some(owner_root);
                self.device_signing = Some(delegation);
                self.accepted_credential = Some(credential);
                self.state = ProductPairingState::AwaitingPeerTrust;
                Ok(accepted)
            },
            Err(error) => self.fail(ProductPairingError::Flow(error)),
        }
    }

    /// Establishes trust in the inviter from its credential and reciprocal transition;
    /// `establish` checks them against the pairing evidence and returns the trust record.
    pub fn accept_inviter_trust<Trans, Trust, I, F, Step>(
        &mut self,
        bundle: ProductPairingTrustBundle<Cred, Trans>,
        establish: Step,
    ) -> (r: Result<
        ProductPairingJoinerCompletion<Root, Deleg, Cred, Trans, Trust>,
        ProductPairingError<I, F>,
    >) where
        Step: FnOnce(Flow, Cred, Trans) -> (Flow, Result<Trust, F>),
        Root: Copy,
        Deleg: Copy,
        Cred: Copy,
        Trans: Copy,

        requires
            old(self)@.wf(),
            forall|f: Flow, c: Cred, t: Trans| establish.requires((f, c, t)),
        ensures
            final(self)@.wf(),
            final(self)@.state == pairing_transition(
                PairingRole::Joiner,
                old(self)@.state,
                PairingStep::Finalize,
                outcome_of(r),
            ),
            final(self).spec_hello() == old(self).spec_hello(),
            final(self).spec_binding() == old(self).spec_binding(),
            final(self)@.secret == old(self)@.secret,
            final(self)@.owner_root == old(self)@.owner_root,
            final(self)@.device_signing == old(self)@.device_signing,
            final(self)@.accepted_credential == old(self)@.accepted_credential,
            old(self)@.state != ProductPairingState::AwaitingPeerTrust ==> out_of_sequence(r)
                && final(self)@.flow == old(self)@.flow,
            old(self)@.state == ProductPairingState::AwaitingPeerTrust ==> exists|
                f: Flow,
                out: Result<Trust, F>,
            |
                #![trigger establish.ensures((old(self)@.flow.unwrap(), bundle@.0, bundle@.1), (f, out))]
                establish.ensures((old(self)@.flow.unwrap(), bundle@.0, bundle@.1), (f, out))
                    && final(self)@.flow == Some(f) && match out {
                    Ok(t) => r matches Ok(c) && c@ == (
                        old(self)@.owner_root.unwrap(),
                        old(self)@.device_signing.unwrap(),
                        old(self)@.accepted_credential.unwrap(),
                        (bundle@.0, bundle@.1, t),
                    ),
                    Err(e) => r == Err::<
                        ProductPairingJoinerCompletion<Root, Deleg, Cred, Trans, Trust>,
                        _,
                    >(ProductPairingError::<I, F>::Flow(e)),
                },
    {
        if self.state != ProductPairingState::AwaitingPeerTrust {
            return self.fail(ProductPairingError::InvalidState);
        }
        let owner_root = match self.owner_root {
            Some(root) => root,
            None => return self.fail(ProductPairingError::InvalidState),
        };
        let device_signing = match self.device_signing {
            Some(delegation) => delegation,
            None => return self.fail(ProductPairingError::InvalidState),
        };
        let local_credential = match self.accepted_credential {
            Some(credential) => credential,
            None => return self.fail(ProductPairingError::InvalidState),
        };
        let credential = bundle.credential;
        let transition = bundle.transition;
        let flow = self.flow.take().unwrap();
        let (flow, out) = establish(flow, credential, transition);
        self.flow = Some(flow);
        match out {
            Ok(trust) => {
                self.state = ProductPairingState::AwaitingPersistence;
                Ok(ProductPairingJoinerCompletion {
                    owner_root,
                    device_signing,
                    local_credential,
                    peer_commit: ProductPairingCommit {
                        peer_credential: credential,
                        peer_transition: transition,
                        peer_trust: trust,
                    },
                })
            },
            Err(error) => self.fail(ProductPairingError::Flow(error)),
        }
    }

    /// Records that the pairing outcome was stored.
    pub fn mark_persisted<I, F>(&mut self) -> (r: Result<(), ProductPairingError<I, F>>)
        requires
            old(self)@.wf(),
        ensures
            final(self)@.wf(),
            final(self)@ == (JoinerView {
                state: pairing_transition(
                    PairingRole::Joiner,
                    old(self)@.state,
                    PairingStep::MarkPersisted,
                    StepOutcome::Done,
                ),
                ..old(self)@
            }),
            final(self).spec_hello() == old(self).spec_hello(),
            final(self).spec_binding() == old(self).spec_binding(),
            (old(self)@.state == ProductPairingState::AwaitingPersistence) == (r is Ok),
            r is Err ==> out_of_sequence(r),
    {
        if self.state != ProductPairingState::AwaitingPersistence {
            return self.fail(ProductPairingError::InvalidState);
        }
        self.state = ProductPairingState::Complete;
        Ok(())
    }

    /// Records that storing the pairing outcome failed; the pairing is then over.
    pub fn persistence_failed<I, F>(&mut self) -> (r: Result<(), ProductPairingError<I, F>>)
        requires
            old(self)@.wf(),
        ensures
            final(self)@.wf(),
            final(self)@ == (JoinerView {
                state: pairing_transition(
                    PairingRole::Joiner,
                    old(self)@.state,
                    PairingStep::PersistenceFailed,
                    StepOutcome::Done,
                ),
                ..old(self)@
            }),
            final(self).spec_hello() == old(self).spec_hello(),
            final(self).spec_binding() == old(self).spec_binding(),
            (old(self)@.state == ProductPairingState::AwaitingPersistence) == (r is Ok),
            r is Err ==> out_of_sequence(r),
    {
        if self.state != ProductPairingState::AwaitingPersistence {
            return self.fail(ProductPairingError::InvalidState);
        }
        self.state = ProductPairingState::Failed;
        Ok(())
    }

    /// Cancels a pairing that is not over, dropping the secret, the flow and everything
    /// accepted so far.
    pub fn cancel<I, F>(&mut self) -> (r: Result<(), ProductPairingError<I, F>>)
        requires
            old(self)@.wf(),
        ensures
            final(self)@.wf(),
            final(self)@.state == pairing_transition(
                PairingRole::Joiner,
                old(self)@.state,
                PairingStep::Cancel,
                StepOutcome::Done,
            ),
            final(self).spec_hello() == old(self).spec_hello(),
            final(self).spec_binding() == old(self).spec_binding(),
            is_terminal(old(self)@.state) ==> out_of_sequence(r) && final(self)@ == old(self)@,
            !is_terminal(old(self)@.state) ==> r is Ok && final(self)@.secret is None
                && final(self)@.flow is None && final(self)@.owner_root is None
                && final(self)@.device_signing is None && final(self)@.accepted_credential is None,
    {
        if is_terminal_exec(self.state) {
            return Err(ProductPairingError::InvalidState);
        }
        self.secret = None;
        self.flow = None;
        self.owner_root = None;
        self.device_signing = None;
        self.accepted_credential = None;
        self.state = ProductPairingState::Cancelled;
        Ok(())
    }
}

} // verus!
