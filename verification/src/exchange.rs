//! The network exchange that carries a product pairing between the two devices: which message
//! each side expects next, what a cancel from the peer or a message out of sequence does, and
//! what each side sends in reply.

use vstd::prelude::*;

use crate::bytes::bytes_eq;
use crate::pairing::{
    PairingHelloSummary, PairingRole, PairingStep, ProductPairingError, ProductPairingInviter,
    ProductPairingInviterCompletion, ProductPairingJoiner, ProductPairingJoinerCompletion, ProductPairingState, ProductPairingTrustBundle, StepOutcome,
    pairing_transition,
};

verus! {

/// Where a pairing exchange stands.
#[derive(Debug, Clone, Copy, PartialEq, Eq, Structural)]
pub enum ProductPairingExchangeState {
    AwaitingPeerHello,
    AwaitingPeerConfirmation,
    AwaitingCredential,
    AwaitingCredentialAcceptance,
    AwaitingPeerTrust,
    AwaitingLocalPersistence,
    AwaitingPeerPersistence,
    AwaitingCompletion,
    Complete,
    Cancelled,
    Failed,
}

#[derive(Debug, Clone, Copy, PartialEq, Eq, Structural)]
pub enum ProductPairingAckKind {
    Persisted,
    Complete,
}

/// An acknowledgement that one side persisted, or completed, a pairing.
#[derive(Debug, Clone, Copy, PartialEq, Eq)]
pub struct ProductPairingAck {
    pub pairing_id: [u8; 16],
    pub role: PairingRole,
    pub kind: ProductPairingAckKind,
}

/// The owner authority and credential an inviter issues to a joiner, with the owners that
/// the root record and the delegation name.
#[derive(Debug, Clone, Copy, PartialEq, Eq)]
pub struct ProductPairingCredentialBundle<Root, Deleg, Cred> {
    pub owner_root: Root,
    pub root_owner_id: [u8; 32],
    pub device_signing: Deleg,
    pub signing_owner_id: [u8; 32],
    pub credential: Cred,
}

/// A message of the pairing exchange.
#[derive(Debug, Clone, Copy, PartialEq, Eq)]
pub enum ProductPairingMessage<Hello, Conf, Root, Deleg, Cred, Acc, Trans> {
    Hello(Hello),
    Confirmation(Conf),
    CredentialBundle(ProductPairingCredentialBundle<Root, Deleg, Cred>),
    CredentialAccepted(Acc),
    TrustBundle(ProductPairingTrustBundle<Cred, Trans>),
    Ack(ProductPairingAck),
    Cancel { pairing_id: [u8; 16] },
}

#[derive(Debug, Clone, Copy, PartialEq, Eq)]
pub enum ProductPairingNetworkError<I, F> {
    UnexpectedMessage,
    PeerCancelled,
    Pairing(ProductPairingError<I, F>),
}

/// The steps of an exchange, named for both sides.
#[derive(Debug, Clone, Copy, PartialEq, Eq, Structural)]
pub enum ExchangeStep {
    /// Receive the peer's hello.
    Hello,
    /// Receive the peer's confirmation.
    Confirmation,
    /// Inviter: issue the credential bundle. Joiner: receive it.
    Credential,
    /// Inviter: receive the credential acceptance. Joiner: receive the trust bundle.
    Finalize,
    LocalPersisted,
    PersistenceFailed,
    /// Inviter: receive the joiner's persisted acknowledgement. Joiner: receive the
    /// inviter's completion acknowledgement.
    PeerAck,
    Cancel,
}

/// How a received message reads for the step that expects it.
#[derive(Debug, Clone, Copy, PartialEq, Eq, Structural)]
pub enum MessageClass {
    /// The message the step expects (a step without a message always reads so).
    Expected,
    /// A cancel for this pairing.
    PeerCancelled,
    /// Anything else.
    Unexpected,
}

pub open spec fn is_exchange_terminal(state: ProductPairingExchangeState) -> bool {
    state == ProductPairingExchangeState::Complete || state
        == ProductPairingExchangeState::Cancelled || state == ProductPairingExchangeState::Failed
}

pub open spec fn exchange_after_failure(state: ProductPairingExchangeState) -> ProductPairingExchangeState {
    if is_exchange_terminal(state) {
        state
    } else {
        ProductPairingExchangeState::Failed
    }
}

pub open spec fn exchange_expected_state(role: PairingRole, step: ExchangeStep) -> ProductPairingExchangeState {
    match step {
        ExchangeStep::Hello => ProductPairingExchangeState::AwaitingPeerHello,
        ExchangeStep::Confirmation => ProductPairingExchangeState::AwaitingPeerConfirmation,
        ExchangeStep::Credential => ProductPairingExchangeState::AwaitingCredential,
        ExchangeStep::Finalize => match role {
            PairingRole::Inviter => ProductPairingExchangeState::AwaitingCredentialAcceptance,
            PairingRole::Joiner => ProductPairingExchangeState::AwaitingPeerTrust,
        },
        ExchangeStep::LocalPersisted => ProductPairingExchangeState::AwaitingLocalPersistence,
        ExchangeStep::PersistenceFailed => ProductPairingExchangeState::AwaitingLocalPersistence,
        ExchangeStep::PeerAck => match role {
            PairingRole::Inviter => ProductPairingExchangeState::AwaitingPeerPersistence,
            PairingRole::Joiner => ProductPairingExchangeState::AwaitingCompletion,
        },
        ExchangeStep::Cancel => ProductPairingExchangeState::AwaitingPeerHello,
    }
}

pub open spec fn exchange_success_state(role: PairingRole, step: ExchangeStep) -> ProductPairingExchangeState {
    match step {
        ExchangeStep::Hello => ProductPairingExchangeState::AwaitingPeerConfirmation,
        ExchangeStep::Confirmation => ProductPairingExchangeState::AwaitingCredential,
        ExchangeStep::Credential => match role {
            PairingRole::Inviter => ProductPairingExchangeState::AwaitingCredentialAcceptance,
            PairingRole::Joiner => ProductPairingExchangeState::AwaitingPeerTrust,
        },
        ExchangeStep::Finalize => ProductPairingExchangeState::AwaitingLocalPersistence,
        ExchangeStep::LocalPersisted => match role {
            PairingRole::Inviter => ProductPairingExchangeState::AwaitingPeerPersistence,
            PairingRole::Joiner => ProductPairingExchangeState::AwaitingCompletion,
        },
        ExchangeStep::PersistenceFailed => ProductPairingExchangeState::Failed,
        ExchangeStep::PeerAck => ProductPairingExchangeState::Complete,
        ExchangeStep::Cancel => ProductPairingExchangeState::Cancelled,
    }
}

/// The exchange state machine of one side.
///
/// A local cancel moves a non-terminal exchange to `Cancelled` when the pairing under it
/// could be cancelled, and otherwise leaves the state. Any other step in a state other than
/// the one it expects fails the exchange. In its expected state, a step that receives the
/// peer's cancel for this pairing cancels the exchange, one that receives any other unexpected
/// message fails it, and one that gets its message moves on when its work succeeds, fails the
/// exchange when the work is rejected, and leaves the state when randomness was unavailable.
pub open spec fn exchange_transition(
    role: PairingRole,
    state: ProductPairingExchangeState,
    step: ExchangeStep,
    class: MessageClass,
    outcome: StepOutcome,
) -> ProductPairingExchangeState {
    if step == ExchangeStep::Cancel {
        if is_exchange_terminal(state) || outcome != StepOutcome::Done {
            state
        } else {
            ProductPairingExchangeState::Cancelled
        }
    } else if state != exchange_expected_state(role, step) {
        exchange_after_failure(state)
    } else {
        match class {
            MessageClass::PeerCancelled => ProductPairingExchangeState::Cancelled,
            MessageClass::Unexpected => ProductPairingExchangeState::Failed,
            MessageClass::Expected => match outcome {
                StepOutcome::Done => exchange_success_state(role, step),
                StepOutcome::Rejected => ProductPairingExchangeState::Failed,
                StepOutcome::Unavailable => state,
            },
        }
    }
}

/// How an exchange step's result reads as an outcome.
pub open spec fn net_outcome<T, I, F>(r: Result<T, ProductPairingNetworkError<I, F>>) -> StepOutcome {
    match r {
        Ok(_) => StepOutcome::Done,
        Err(ProductPairingNetworkError::Pairing(ProductPairingError::Random)) => StepOutcome::Unavailable,
        Err(_) => StepOutcome::Rejected,
    }
}

pub open spec fn is_cancel_for<Hello, Conf, Root, Deleg, Cred, Acc, Trans>(
    message: ProductPairingMessage<Hello, Conf, Root, Deleg, Cred, Acc, Trans>,
    pairing_id: [u8; 16],
) -> bool {
    message matches ProductPairingMessage::Cancel { pairing_id: id } && id@ == pairing_id@
}

/// How a message reads for a step that expects messages of one kind (`expected`).
pub open spec fn classify(expected: bool, cancel_for_pairing: bool) -> MessageClass {
    if expected {
        MessageClass::Expected
    } else if cancel_for_pairing {
        MessageClass::PeerCancelled
    } else {
        MessageClass::Unexpected
    }
}

/// The acknowledgement a side expects from its peer: for this pairing, from the other role,
/// of the given kind.
pub open spec fn is_ack_from<Hello, Conf, Root, Deleg, Cred, Acc, Trans>(
    message: ProductPairingMessage<Hello, Conf, Root, Deleg, Cred, Acc, Trans>,
    pairing_id: [u8; 16],
    role: PairingRole,
    kind: ProductPairingAckKind,
) -> bool {
    message matches ProductPairingMessage::Ack(ack) && ack.pairing_id@ == pairing_id@ && ack.role
        == role && ack.kind == kind
}

fn is_exchange_terminal_exec(state: ProductPairingExchangeState) -> (r: bool)
    ensures
        r == is_exchange_terminal(state),
{
    state == ProductPairingExchangeState::Complete || state
        == ProductPairingExchangeState::Cancelled || state == ProductPairingExchangeState::Failed
}

fn cancel_matches<Hello, Conf, Root, Deleg, Cred, Acc, Trans>(
    message: &ProductPairingMessage<Hello, Conf, Root, Deleg, Cred, Acc, Trans>,
    pairing_id: &[u8; 16],
) -> (r: bool)
    ensures
        r == is_cancel_for(*message, *pairing_id),
{
    match message {
        ProductPairingMessage::Cancel { pairing_id: id } => bytes_eq(id, pairing_id),
        _ => false,
    }
}

fn ack_matches<Hello, Conf, Root, Deleg, Cred, Acc, Trans>(
    message: &ProductPairingMessage<Hello, Conf, Root, Deleg, Cred, Acc, Trans>,
    pairing_id: &[u8; 16],
    role: PairingRole,
    kind: ProductPairingAckKind,
) -> (r: bool)
    ensures
        r == is_ack_from(*message, *pairing_id, role, kind),
{
    match message {
        ProductPairingMessage::Ack(ack) => bytes_eq(&ack.pairing_id, pairing_id) && ack.role == role
            && ack.kind == kind,
        _ => false,
    }
}

pub struct ExchangeView<P, C> {
    pub state: ProductPairingExchangeState,
    pub pairing_id: [u8; 16],
    pub pairing: P,
    pub completion: Option<C>,
}

/// The inviter's side of the exchange, driving an inviter coordinator.
pub struct ProductPairingInviterExchange<Inv, Flow, Cred, Hello, Trans, Trust> {
    pairing: ProductPairingInviter<Inv, Flow, Cred, Hello>,
    pairing_id: [u8; 16],
    completion: Option<ProductPairingInviterCompletion<Cred, Trans, Trust>>,
    state: ProductPairingExchangeState,
}

pub type InviterExchangeView<Inv, Flow, Cred, Trans, Trust> = ExchangeView<
    crate::pairing::InviterView<Inv, Flow, Cred>,
    ((Cred, Trans, Trust), (Cred, Trans)),
>;

impl<Inv, Flow, Cred, Hello, Trans, Trust> View for ProductPairingInviterExchange<
    Inv,
    Flow,
    Cred,
    Hello,
    Trans,
    Trust,
> {
    type V = InviterExchangeView<Inv, Flow, Cred, Trans, Trust>;

    closed spec fn view(&self) -> InviterExchangeView<Inv, Flow, Cred, Trans, Trust> {
        ExchangeView {
            state: self.state,
            pairing_id: self.pairing_id,
            pairing: self.pairing@,
            completion: match self.completion {
                Some(c) => Some(c@),
                None => None,
            },
        }
    }
}

impl<Inv, Flow, Cred, Trans, Trust> InviterExchangeView<Inv, Flow, Cred, Trans, Trust> {
    pub open spec fn wf(self) -> bool {
        &&& self.pairing.wf()
        &&& self.state == ProductPairingExchangeState::AwaitingLocalPersistence
            ==> self.completion is Some
    }
}

/// The state of an inviter coordinator after it is cancelled.
pub open spec fn inviter_cancelled(state: ProductPairingState) -> ProductPairingState {
    pairing_transition(PairingRole::Inviter, state, PairingStep::Cancel, StepOutcome::Done)
}

impl<Inv, Flow, Cred, Hello, Trans, Trust> ProductPairingInviterExchange<
    Inv,
    Flow,
    Cred,
    Hello,
    Trans,
    Trust,
> {
    pub closed spec fn spec_hello(&self) -> Hello {
        self.pairing.spec_hello()
    }

    /// Starts the exchange for a pairing with the given identifier (that of the inviter's
    /// hello).
    pub fn new(pairing: ProductPairingInviter<Inv, Flow, Cred, Hello>, pairing_id: [u8; 16]) -> (r:
        Self)
        requires
            pairing@.wf(),
        ensures
            r@.wf(),
            r@.state == ProductPairingExchangeState::AwaitingPeerHello,
            r@.pairing_id == pairing_id,
            r@.pairing == pairing@,
            r@.completion is None,
            r.spec_hello() == pairing.spec_hello(),
    {
        ProductPairingInviterExchange {
            pairing,
            pairing_id,
            completion: None,
            state: ProductPairingExchangeState::AwaitingPeerHello,
        }
    }

    pub fn state(&self) -> (r: ProductPairingExchangeState)
        ensures
            r == self@.state,
    {
        self.state
    }

    /// Fails the exchange (unless it is over) and cancels the pairing under it.
    fn fail<T, I, F>(&mut self, error: ProductPairingNetworkError<I, F>) -> (r: Result<
        T,
        ProductPairingNetworkError<I, F>,
    >)
        requires
            old(self)@.wf(),
        ensures
            final(self)@.wf(),
            r == Err::<T, ProductPairingNetworkError<I, F>>(error),
            final(self)@.state == exchange_after_failure(old(self)@.state),
            final(self)@.pairing_id == old(self)@.pairing_id,
            final(self)@.completion == old(self)@.completion,
            final(self).spec_hello() == old(self).spec_hello(),
            is_exchange_terminal(old(self)@.state) ==> final(self)@.pairing == old(self)@.pairing,
            !is_exchange_terminal(old(self)@.state) ==> final(self)@.pairing.state
                == inviter_cancelled(old(self)@.pairing.state),
    {
        if !is_exchange_terminal_exec(self.state) {
            let _ = self.pairing.cancel::<I, F>();
            self.state = ProductPairingExchangeState::Failed;
        }
        Err(error)
    }

    /// Cancels the exchange on the peer's cancel, and the pairing under it.
    fn peer_cancelled<T, I, F>(&mut self) -> (r: Result<T, ProductPairingNetworkError<I, F>>)
        requires
            old(self)@.wf(),
        ensures
            final(self)@.wf(),
            r == Err::<T, ProductPairingNetworkError<I, F>>(
                ProductPairingNetworkError::PeerCancelled,
            ),
            final(self)@.state == ProductPairingExchangeState::Cancelled,
            final(self)@.pairing_id == old(self)@.pairing_id,
            final(self)@.completion == old(self)@.completion,
            final(self).spec_hello() == old(self).spec_hello(),
            final(self)@.pairing.state == inviter_cancelled(old(self)@.pairing.state),
    {
        let _ = self.pairing.cancel::<I, F>();
        self.state = ProductPairingExchangeState::Cancelled;
        Err(ProductPairingNetworkError::PeerCancelled)
    }

    /// Fails the exchange unless it stands where the step expects it.
    fn require<I, F>(&mut self, expected: ProductPairingExchangeState) -> (r: Result<
        (),
        ProductPairingNetworkError<I, F>,
    >)
        requires
            old(self)@.wf(),
        ensures
            final(self)@.wf(),
            final(self).spec_hello() == old(self).spec_hello(),
            old(self)@.state == expected ==> r is Ok && final(self)@ == old(self)@,
            old(self)@.state != expected ==> {
                &&& r == Err::<(), _>(ProductPairingNetworkError::<I, F>::UnexpectedMessage)
                &&& final(self)@.state == exchange_after_failure(old(self)@.state)
                &&& final(self)@.pairing_id == old(self)@.pairing_id
                &&& final(self)@.completion == old(self)@.completion
                &&& is_exchange_terminal(old(self)@.state)
                    ==> final(self)@.pairing == old(self)@.pairing
                &&& !is_exchange_terminal(old(self)@.state) ==> final(self)@.pairing.state
                    == inviter_cancelled(old(self)@.pairing.state)
            },
    {
        if self.state == expected {
            Ok(())
        } else {
            self.fail(ProductPairingNetworkError::UnexpectedMessage)
        }
    }

    /// Receives the joiner's hello and answers with the inviter's; `make_flow` starts the
    /// inviter flow from the invitation and the joiner's hello.
    pub fn accept_joiner_hello<Conf, Root, Deleg, Acc, I, F, Make>(
        &mut self,
        message: ProductPairingMessage<Hello, Conf, Root, Deleg, Cred, Acc, Trans>,
        make_flow: Make,
    ) -> (r: Result<
        ProductPairingMessage<Hello, Conf, Root, Deleg, Cred, Acc, Trans>,
        ProductPairingNetworkError<I, F>,
    >) where Make: FnOnce(Inv, Hello) -> Result<Flow, F>, Hello: Copy
        requires
            old(self)@.wf(),
            forall|i: Inv, h: Hello| make_flow.requires((i, h)),
        ensures
            final(self)@.wf(),
            final(self)@.pairing_id == old(self)@.pairing_id,
            final(self)@.completion == old(self)@.completion,
            final(self).spec_hello() == old(self).spec_hello(),
            final(self)@.state == exchange_transition(
                PairingRole::Inviter,
                old(self)@.state,
                ExchangeStep::Hello,
                classify(
                    message is Hello,
                    is_cancel_for(message, old(self)@.pairing_id),
                ),
                net_outcome(r),
            ),
            old(self)@.state != ProductPairingExchangeState::AwaitingPeerHello ==> r == Err::<
                ProductPairingMessage<Hello, Conf, Root, Deleg, Cred, Acc, Trans>,
                _,
            >(ProductPairingNetworkError::<I, F>::UnexpectedMessage),
            old(self)@.state == ProductPairingExchangeState::AwaitingPeerHello ==> match message {
                ProductPairingMessage::Hello(_) => {
                    &&& final(self)@.pairing.state == pairing_transition(
                        PairingRole::Inviter,
                        old(self)@.pairing.state,
                        PairingStep::AcceptPeerHello,
                        net_outcome(r),
                    )
                    &&& r matches Ok(m) ==> m == ProductPairingMessage::<
                        Hello,
                        Conf,
                        Root,
                        Deleg,
                        Cred,
                        Acc,
                        Trans,
                    >::Hello(old(self).spec_hello())
                    &&& r matches Err(e) ==> e is Pairing
                },
                _ => {
                    &&& final(self)@.pairing.state == inviter_cancelled(old(self)@.pairing.state)
                    &&& r == Err::<ProductPairingMessage<Hello, Conf, Root, Deleg, Cred, Acc, Trans>, _>(
                        if is_cancel_for(message, old(self)@.pairing_id) {
                            ProductPairingNetworkError::<I, F>::PeerCancelled
                        } else {
                            ProductPairingNetworkError::<I, F>::UnexpectedMessage
                        },
                    )
                },
            },
    {
        self.require(ProductPairingExchangeState::AwaitingPeerHello)?;
        let is_cancel = cancel_matches(&message, &self.pairing_id);
        let hello = match message {
            ProductPairingMessage::Hello(hello) => hello,
            _ => {
                if is_cancel {
                    return self.peer_cancelled();
                }
                return self.fail(ProductPairingNetworkError::UnexpectedMessage);
            },
        };
        let result = self.pairing.accept_joiner_hello(
            move |invitation: Inv| make_flow(invitation, hello),
        );
        if let Err(error) = result {
            return self.fail(ProductPairingNetworkError::Pairing(error));
        }
        self.state = ProductPairingExchangeState::AwaitingPeerConfirmation;
        Ok(ProductPairingMessage::Hello(*self.pairing.hello()))
    }

    /// Receives the joiner's confirmation and answers with the inviter's; `verify` checks it
    /// on the flow.
    pub fn accept_joiner_confirmation<Conf, Root, Deleg, Acc, I, F, Verify>(
        &mut self,
        message: ProductPairingMessage<Hello, Conf, Root, Deleg, Cred, Acc, Trans>,
        verify: Verify,
    ) -> (r: Result<ProductPairingMessage<Hello, Conf, Root, Deleg, Cred, Acc, Trans>, ProductPairingNetworkError<I, F>>) where
        Verify: FnOnce(Flow, Conf) -> (Flow, Result<Conf, F>),

        requires
            old(self)@.wf(),
            forall|f: Flow, c: Conf| verify.requires((f, c)),
        ensures
            final(self)@.wf(),
            final(self)@.pairing_id == old(self)@.pairing_id,
            final(self)@.completion == old(self)@.completion,
            final(self).spec_hello() == old(self).spec_hello(),
            final(self)@.state == exchange_transition(
                PairingRole::Inviter,
                old(self)@.state,
                ExchangeStep::Confirmation,
                classify(message is Confirmation, is_cancel_for(message, old(self)@.pairing_id)),
                net_outcome(r),
            ),
            old(self)@.state != ProductPairingExchangeState::AwaitingPeerConfirmation ==> r == Err::<
                ProductPairingMessage<Hello, Conf, Root, Deleg, Cred, Acc, Trans>,
                _,
            >(ProductPairingNetworkError::<I, F>::UnexpectedMessage),
            old(self)@.state == ProductPairingExchangeState::AwaitingPeerConfirmation ==> match message {
                ProductPairingMessage::Confirmation(_) => {
                    &&& final(self)@.pairing.state == pairing_transition(
                        PairingRole::Inviter,
                        old(self)@.pairing.state,
                        PairingStep::VerifyPeerConfirmation,
                        net_outcome(r),
                    )
                    &&& r matches Ok(m) ==> m is Confirmation
                    &&& r matches Err(e) ==> e is Pairing
                },
                _ => {
                    &&& final(self)@.pairing.state == inviter_cancelled(old(self)@.pairing.state)
                    &&& r == Err::<ProductPairingMessage<Hello, Conf, Root, Deleg, Cred, Acc, Trans>, _>(
                        if is_cancel_for(message, old(self)@.pairing_id) {
                            ProductPairingNetworkError::<I, F>::PeerCancelled
                        } else {
                            ProductPairingNetworkError::<I, F>::UnexpectedMessage
                        },
                    )
                },
            },
    {
        self.require(ProductPairingExchangeState::AwaitingPeerConfirmation)?;
        let is_cancel = cancel_matches(&message, &self.pairing_id);
        let confirmation = match message {
            ProductPairingMessage::Confirmation(confirmation) => confirmation,
            _ => {
                if is_cancel {
                    return self.peer_cancelled();
                }
                return self.fail(ProductPairingNetworkError::UnexpectedMessage);
            },
        };
        let response = match self.pairing.verify_joiner_confirmation(
            move |flow: Flow| verify(flow, confirmation),
        ) {
            Ok(response) => response,
            Err(error) => return self.fail(ProductPairingNetworkError::Pairing(error)),
        };
        self.state = ProductPairingExchangeState::AwaitingCredential;
        Ok(ProductPairingMessage::Confirmation(response))
    }

    /// Issues the joiner's credential with `issue` and sends it with the owner root and the
    /// current device-signing delegation (or the error of looking that delegation up), each
    /// with the owner it names.
    pub fn issue_credential_bundle<Conf, Root, Deleg, Acc, I, F, Issue>(
        &mut self,
        owner_root: Root,
        root_owner_id: [u8; 32],
        device_signing: Result<(Deleg, [u8; 32]), I>,
        issue: Issue,
    ) -> (r: Result<ProductPairingMessage<Hello, Conf, Root, Deleg, Cred, Acc, Trans>, ProductPairingNetworkError<I, F>>) where
        Issue: FnOnce(Flow) -> (Flow, Result<Cred, F>),
        Cred: Copy,

        requires
            old(self)@.wf(),
            forall|f: Flow| issue.requires((f,)),
        ensures
            final(self)@.wf(),
            final(self)@.pairing_id == old(self)@.pairing_id,
            final(self)@.completion == old(self)@.completion,
            final(self).spec_hello() == old(self).spec_hello(),
            final(self)@.state == exchange_transition(
                PairingRole::Inviter,
                old(self)@.state,
                ExchangeStep::Credential,
                MessageClass::Expected,
                net_outcome(r),
            ),
            old(self)@.state != ProductPairingExchangeState::AwaitingCredential ==> r == Err::<
                ProductPairingMessage<Hello, Conf, Root, Deleg, Cred, Acc, Trans>,
                _,
            >(ProductPairingNetworkError::<I, F>::UnexpectedMessage),
            old(self)@.state == ProductPairingExchangeState::AwaitingCredential ==> {
                &&& r matches Err(e) ==> e is Pairing
                &&& r matches Ok(m) ==> {
                    &&& final(self)@.pairing.state
                        == ProductPairingState::AwaitingCredentialAcceptance
                    &&& device_signing matches Ok(d) && m == ProductPairingMessage::<
                        Hello,
                        Conf,
                        Root,
                        Deleg,
                        Cred,
                        Acc,
                        Trans,
                    >::CredentialBundle(
                        ProductPairingCredentialBundle {
                            owner_root,
                            root_owner_id,
                            device_signing: d.0,
                            signing_owner_id: d.1,
                            credential: final(self)@.pairing.issued_credential.unwrap(),
                        },
                    )
                }
            },
    {
        self.require(ProductPairingExchangeState::AwaitingCredential)?;
        let credential = match self.pairing.issue_joiner_credential(issue) {
            Ok(credential) => credential,
            Err(error) => return self.fail(ProductPairingNetworkError::Pairing(error)),
        };
        let (delegation, signing_owner_id) = match device_signing {
            Ok(found) => found,
            Err(error) => return self.fail(
                ProductPairingNetworkError::Pairing(ProductPairingError::Identity(error)),
            ),
        };
        self.state = ProductPairingExchangeState::AwaitingCredentialAcceptance;
        Ok(
            ProductPairingMessage::CredentialBundle(
                ProductPairingCredentialBundle {
                    owner_root,
                    root_owner_id,
                    device_signing: delegation,
                    signing_owner_id,
                    credential,
                },
            ),
        )
    }

    /// Receives the joiner's credential acceptance and commits trust in both directions;
    /// `transition_id` is a fresh identifier for the reciprocal transition (or the failure to
    /// draw one), and `commit` verifies the acceptance on the flow and issues the transitions.
    pub fn accept_credential_proof<Conf, Root, Deleg, Acc, Id, E, I, F, Commit>(
        &mut self,
        message: ProductPairingMessage<Hello, Conf, Root, Deleg, Cred, Acc, Trans>,
        transition_id: Result<Id, E>,
        commit: Commit,
    ) -> (r: Result<crate::pairing::ProductPairingCommit<Cred, Trans, Trust>, ProductPairingNetworkError<I, F>>) where
        Commit: FnOnce(Flow, Cred, Id, Acc) -> (Flow, Result<(Trans, Trust, Trans), F>),
        Cred: Copy,
        Trans: Copy,
        Trust: Copy,

        requires
            old(self)@.wf(),
            forall|f: Flow, c: Cred, i: Id, a: Acc| commit.requires((f, c, i, a)),
        ensures
            final(self)@.wf(),
            final(self)@.pairing_id == old(self)@.pairing_id,
            final(self).spec_hello() == old(self).spec_hello(),
            final(self)@.state == exchange_transition(
                PairingRole::Inviter,
                old(self)@.state,
                ExchangeStep::Finalize,
                classify(message is CredentialAccepted, is_cancel_for(message, old(self)@.pairing_id)),
                net_outcome(r),
            ),
            r is Err ==> final(self)@.completion == old(self)@.completion,
            old(self)@.state != ProductPairingExchangeState::AwaitingCredentialAcceptance ==> r == Err::<
                crate::pairing::ProductPairingCommit<Cred, Trans, Trust>,
                _,
            >(ProductPairingNetworkError::<I, F>::UnexpectedMessage),
            old(self)@.state == ProductPairingExchangeState::AwaitingCredentialAcceptance ==> match message {
                ProductPairingMessage::CredentialAccepted(_) => match transition_id {
                    Err(_) => r == Err::<crate::pairing::ProductPairingCommit<Cred, Trans, Trust>, _>(
                        ProductPairingNetworkError::<I, F>::Pairing(ProductPairingError::Random),
                    ) && final(self)@ == old(self)@,
                    Ok(_) => {
                        &&& final(self)@.pairing.state == pairing_transition(
                            PairingRole::Inviter,
                            old(self)@.pairing.state,
                            PairingStep::Finalize,
                            net_outcome(r),
                        )
                        &&& r matches Err(e) ==> e is Pairing
                        &&& r matches Ok(c) ==> final(self)@.completion matches Some(done) && c@ == done.0
                    },
                },
                _ => {
                    &&& final(self)@.pairing.state == inviter_cancelled(old(self)@.pairing.state)
                    &&& r == Err::<crate::pairing::ProductPairingCommit<Cred, Trans, Trust>, _>(
                        if is_cancel_for(message, old(self)@.pairing_id) {
                            ProductPairingNetworkError::<I, F>::PeerCancelled
                        } else {
                            ProductPairingNetworkError::<I, F>::UnexpectedMessage
                        },
                    )
                },
            },
    {
        self.require(ProductPairingExchangeState::AwaitingCredentialAcceptance)?;
        let is_cancel = cancel_matches(&message, &self.pairing_id);
        let accepted = match message {
            ProductPairingMessage::CredentialAccepted(accepted) => accepted,
            _ => {
                if is_cancel {
                    return self.peer_cancelled();
                }
                return self.fail(ProductPairingNetworkError::UnexpectedMessage);
            },
        };
        let id = match transition_id {
            Ok(id) => id,
            Err(_) => return Err(ProductPairingNetworkError::Pairing(ProductPairingError::Random)),
        };
        let completion = match self.pairing.verify_credential_acceptance(
            Ok::<Id, E>(id),
            move |flow: Flow, credential: Cred, id: Id| commit(flow, credential, id, accepted),
        ) {
            Ok(completion) => completion,
            Err(error) => return self.fail(ProductPairingNetworkError::Pairing(error)),
        };
        let done = completion.commit();
        self.completion = Some(completion);
        self.state = ProductPairingExchangeState::AwaitingLocalPersistence;
        Ok(done)
    }

    /// Records that the inviter stored the pairing, and sends the inviter's own credential
    /// and reciprocal transition to the joiner.
    pub fn local_persisted<Conf, Root, Deleg, Acc, I, F>(&mut self) -> (r: Result<
        ProductPairingMessage<Hello, Conf, Root, Deleg, Cred, Acc, Trans>,
        ProductPairingNetworkError<I, F>,
    >) where Cred: Copy, Trans: Copy, Trust: Copy
        requires
            old(self)@.wf(),
        ensures
            final(self)@.wf(),
            final(self)@.pairing_id == old(self)@.pairing_id,
            final(self)@.completion == old(self)@.completion,
            final(self).spec_hello() == old(self).spec_hello(),
            final(self)@.state == exchange_transition(
                PairingRole::Inviter,
                old(self)@.state,
                ExchangeStep::LocalPersisted,
                MessageClass::Expected,
                net_outcome(r),
            ),
            old(self)@.state != ProductPairingExchangeState::AwaitingLocalPersistence ==> r == Err::<
                ProductPairingMessage<Hello, Conf, Root, Deleg, Cred, Acc, Trans>,
                _,
            >(ProductPairingNetworkError::<I, F>::UnexpectedMessage),
            old(self)@.state == ProductPairingExchangeState::AwaitingLocalPersistence ==> {
                &&& final(self)@.pairing.state == pairing_transition(
                    PairingRole::Inviter,
                    old(self)@.pairing.state,
                    PairingStep::MarkPersisted,
                    net_outcome(r),
                )
                &&& r matches Err(e) ==> e is Pairing
                &&& r matches Ok(m) ==> m matches ProductPairingMessage::TrustBundle(t)
                    && t@ == old(self)@.completion.unwrap().1
            },
    {
        self.require(ProductPairingExchangeState::AwaitingLocalPersistence)?;
        if let Err(error) = self.pairing.mark_persisted::<I, F>() {
            return self.fail(ProductPairingNetworkError::Pairing(error));
        }
        let completion = match self.completion {
            Some(completion) => completion,
            None => return Err(ProductPairingNetworkError::UnexpectedMessage),
        };
        let trust = completion.reciprocal_trust();
        self.state = ProductPairingExchangeState::AwaitingPeerPersistence;
        Ok(ProductPairingMessage::TrustBundle(trust))
    }

    /// Records that storing the pairing failed; the exchange is then over.
    pub fn persistence_failed<I, F>(&mut self) -> (r: Result<(), ProductPairingNetworkError<I, F>>)
        requires
            old(self)@.wf(),
        ensures
            final(self)@.wf(),
            final(self)@.pairing_id == old(self)@.pairing_id,
            final(self)@.completion == old(self)@.completion,
            final(self).spec_hello() == old(self).spec_hello(),
            final(self)@.state == exchange_transition(
                PairingRole::Inviter,
                old(self)@.state,
                ExchangeStep::PersistenceFailed,
                MessageClass::Expected,
                net_outcome(r),
            ),
            old(self)@.state != ProductPairingExchangeState::AwaitingLocalPersistence ==> r == Err::<
                (),
                _,
            >(ProductPairingNetworkError::<I, F>::UnexpectedMessage),
            old(self)@.state == ProductPairingExchangeState::AwaitingLocalPersistence ==> {
                &&& final(self)@.pairing.state == pairing_transition(
                    PairingRole::Inviter,
                    old(self)@.pairing.state,
                    PairingStep::PersistenceFailed,
                    net_outcome(r),
                )
                &&& r matches Err(e) ==> e is Pairing
            },
    {
        self.require(ProductPairingExchangeState::AwaitingLocalPersistence)?;
        if let Err(error) = self.pairing.persistence_failed::<I, F>() {
            return self.fail(ProductPairingNetworkError::Pairing(error));
        }
        self.state = ProductPairingExchangeState::Failed;
        Ok(())
    }

    /// Receives the joiner's acknowledgement that it stored the pairing, and answers that the
    /// pairing is complete.
    pub fn accept_peer_persisted<Conf, Root, Deleg, Acc, I, F>(&mut self, message: ProductPairingMessage<Hello, Conf, Root, Deleg, Cred, Acc, Trans>) -> (r: Result<
        ProductPairingMessage<Hello, Conf, Root, Deleg, Cred, Acc, Trans>,
        ProductPairingNetworkError<I, F>,
    >)
        requires
            old(self)@.wf(),
        ensures
            final(self)@.wf(),
            final(self)@.pairing_id == old(self)@.pairing_id,
            final(self)@.completion == old(self)@.completion,
            final(self).spec_hello() == old(self).spec_hello(),
            final(self)@.state == exchange_transition(
                PairingRole::Inviter,
                old(self)@.state,
                ExchangeStep::PeerAck,
                classify(
                    is_ack_from(
                        message,
                        old(self)@.pairing_id,
                        PairingRole::Joiner,
                        ProductPairingAckKind::Persisted,
                    ),
                    is_cancel_for(message, old(self)@.pairing_id),
                ),
                net_outcome(r),
            ),
            old(self)@.state != ProductPairingExchangeState::AwaitingPeerPersistence ==> r == Err::<
                ProductPairingMessage<Hello, Conf, Root, Deleg, Cred, Acc, Trans>,
                _,
            >(ProductPairingNetworkError::<I, F>::UnexpectedMessage),
            old(self)@.state == ProductPairingExchangeState::AwaitingPeerPersistence ==> if is_ack_from(
                message,
                old(self)@.pairing_id,
                PairingRole::Joiner,
                ProductPairingAckKind::Persisted,
            ) {
                &&& final(self)@.pairing == old(self)@.pairing
                &&& r == Ok::<ProductPairingMessage<Hello, Conf, Root, Deleg, Cred, Acc, Trans>, ProductPairingNetworkError<I, F>>(
                    ProductPairingMessage::Ack(
                        ProductPairingAck {
                            pairing_id: old(self)@.pairing_id,
                            role: PairingRole::Inviter,
                            kind: ProductPairingAckKind::Complete,
                        },
                    ),
                )
            } else {
                &&& final(self)@.pairing.state == inviter_cancelled(old(self)@.pairing.state)
                &&& r == Err::<ProductPairingMessage<Hello, Conf, Root, Deleg, Cred, Acc, Trans>, _>(
                    if is_cancel_for(message, old(self)@.pairing_id) {
                        ProductPairingNetworkError::<I, F>::PeerCancelled
                    } else {
                        ProductPairingNetworkError::<I, F>::UnexpectedMessage
                    },
                )
            },
    {
        self.require(ProductPairingExchangeState::AwaitingPeerPersistence)?;
        if !ack_matches(
            &message,
            &self.pairing_id,
            PairingRole::Joiner,
            ProductPairingAckKind::Persisted,
        ) {
            if cancel_matches(&message, &self.pairing_id) {
                return self.peer_cancelled();
            }
            return self.fail(ProductPairingNetworkError::UnexpectedMessage);
        }
        self.state = ProductPairingExchangeState::Complete;
        Ok(
            ProductPairingMessage::Ack(
                ProductPairingAck {
                    pairing_id: self.pairing_id,
                    role: PairingRole::Inviter,
                    kind: ProductPairingAckKind::Complete,
                },
            ),
        )
    }

    /// Cancels an exchange that is not over, and the pairing under it, and sends the cancel to
    /// the joiner. An exchange whose pairing can no longer be cancelled stays as it is.
    pub fn cancel<Conf, Root, Deleg, Acc, I, F>(&mut self) -> (r: Result<
        ProductPairingMessage<Hello, Conf, Root, Deleg, Cred, Acc, Trans>,
        ProductPairingNetworkError<I, F>,
    >)
        requires
            old(self)@.wf(),
        ensures
            final(self)@.wf(),
            final(self)@.pairing_id == old(self)@.pairing_id,
            final(self)@.completion == old(self)@.completion,
            final(self).spec_hello() == old(self).spec_hello(),
            final(self)@.state == exchange_transition(
                PairingRole::Inviter,
                old(self)@.state,
                ExchangeStep::Cancel,
                MessageClass::Expected,
                net_outcome(r),
            ),
            is_exchange_terminal(old(self)@.state) ==> r == Err::<ProductPairingMessage<Hello, Conf, Root, Deleg, Cred, Acc, Trans>, _>(
                ProductPairingNetworkError::<I, F>::UnexpectedMessage,
            ) && final(self)@ == old(self)@,
            !is_exchange_terminal(old(self)@.state) ==> {
                &&& final(self)@.pairing.state == inviter_cancelled(old(self)@.pairing.state)
                &&& crate::pairing::is_terminal(old(self)@.pairing.state) ==> r == Err::<ProductPairingMessage<Hello, Conf, Root, Deleg, Cred, Acc, Trans>, _>(
                    ProductPairingNetworkError::<I, F>::Pairing(ProductPairingError::InvalidState),
                )
                &&& !crate::pairing::is_terminal(old(self)@.pairing.state) ==> r == Ok::<
                    ProductPairingMessage<Hello, Conf, Root, Deleg, Cred, Acc, Trans>,
                    ProductPairingNetworkError<I, F>,
                >(ProductPairingMessage::Cancel { pairing_id: old(self)@.pairing_id })
            },
    {
        if is_exchange_terminal_exec(self.state) {
            return Err(ProductPairingNetworkError::UnexpectedMessage);
        }
        if let Err(error) = self.pairing.cancel() {
            return Err(ProductPairingNetworkError::Pairing(error));
        }
        self.state = ProductPairingExchangeState::Cancelled;
        Ok(ProductPairingMessage::Cancel { pairing_id: self.pairing_id })
    }
}

/// The joiner's side of the exchange, driving a joiner coordinator.
pub struct ProductPairingJoinerExchange<Secret, Flow, Cred, Root, Deleg, Hello, Auth, Trans, Trust> {
    pairing: ProductPairingJoiner<Secret, Flow, Cred, Root, Deleg, Hello>,
    pairing_id: [u8; 16],
    expected_owner: [u8; 32],
    authority: Option<Auth>,
    completion: Option<ProductPairingJoinerCompletion<Root, Deleg, Cred, Trans, Trust>>,
    state: ProductPairingExchangeState,
}

pub struct JoinerExchangeView<Secret, Flow, Cred, Root, Deleg, Auth, Trans, Trust> {
    pub exchange: ExchangeView<
        crate::pairing::JoinerView<Secret, Flow, Cred, Root, Deleg>,
        (Root, Deleg, Cred, (Cred, Trans, Trust)),
    >,
    pub expected_owner: [u8; 32],
    pub authority: Option<Auth>,
}

impl<Secret, Flow, Cred, Root, Deleg, Auth, Trans, Trust> JoinerExchangeView<
    Secret,
    Flow,
    Cred,
    Root,
    Deleg,
    Auth,
    Trans,
    Trust,
> {
    pub open spec fn wf(self) -> bool {
        &&& self.exchange.pairing.wf()
        &&& self.exchange.state == ProductPairingExchangeState::AwaitingPeerTrust
            ==> self.authority is Some
    }
}

/// The state of a joiner coordinator after it is cancelled.
pub open spec fn joiner_cancelled(state: ProductPairingState) -> ProductPairingState {
    pairing_transition(PairingRole::Joiner, state, PairingStep::Cancel, StepOutcome::Done)
}

impl<Secret, Flow, Cred, Root, Deleg, Hello, Auth, Trans, Trust> View for ProductPairingJoinerExchange<
    Secret,
    Flow,
    Cred,
    Root,
    Deleg,
    Hello,
    Auth,
    Trans,
    Trust,
> {
    type V = JoinerExchangeView<Secret, Flow, Cred, Root, Deleg, Auth, Trans, Trust>;

    closed spec fn view(&self) -> JoinerExchangeView<Secret, Flow, Cred, Root, Deleg, Auth, Trans, Trust> {
        JoinerExchangeView {
            exchange: ExchangeView {
                state: self.state,
                pairing_id: self.pairing_id,
                pairing: self.pairing@,
                completion: match self.completion {
                    Some(c) => Some(c@),
                    None => None,
                },
            },
            expected_owner: self.expected_owner,
            authority: self.authority,
        }
    }
}

impl<Secret, Flow, Cred, Root, Deleg, Hello, Auth, Trans, Trust> ProductPairingJoinerExchange<
    Secret,
    Flow,
    Cred,
    Root,
    Deleg,
    Hello,
    Auth,
    Trans,
    Trust,
> {
    pub closed spec fn spec_hello(&self) -> Hello {
        self.pairing.spec_hello()
    }

    /// Starts the exchange for a joiner; the pairing and the owner it expects are those of
    /// the scanned bootstrap.
    pub fn new(pairing: ProductPairingJoiner<Secret, Flow, Cred, Root, Deleg, Hello>) -> (r: Self)
        requires
            pairing@.wf(),
        ensures
            r@.wf(),
            r@.exchange.state == ProductPairingExchangeState::AwaitingPeerHello,
            r@.exchange.pairing_id == pairing.spec_binding().pairing_id,
            r@.expected_owner == pairing.spec_binding().owner_id,
            r@.exchange.pairing == pairing@,
            r@.exchange.completion is None,
            r@.authority is None,
            r.spec_hello() == pairing.spec_hello(),
    {
        let binding = pairing.binding();
        ProductPairingJoinerExchange {
            pairing,
            pairing_id: binding.pairing_id,
            expected_owner: binding.owner_id,
            authority: None,
            completion: None,
            state: ProductPairingExchangeState::AwaitingPeerHello,
        }
    }

    pub fn state(&self) -> (r: ProductPairingExchangeState)
        ensures
            r == self@.exchange.state,
    {
        self.state
    }

    /// The joiner's hello, to open the exchange.
    pub fn hello<Conf, Acc>(&self) -> (r: ProductPairingMessage<Hello, Conf, Root, Deleg, Cred, Acc, Trans>) where Hello: Copy
        ensures
            r == ProductPairingMessage::<Hello, Conf, Root, Deleg, Cred, Acc, Trans>::Hello(self.spec_hello()),
    {
        ProductPairingMessage::Hello(*self.pairing.hello())
    }

    fn fail<T, I, F>(&mut self, error: ProductPairingNetworkError<I, F>) -> (r: Result<
        T,
        ProductPairingNetworkError<I, F>,
    >)
        requires
            old(self)@.wf(),
        ensures
            final(self)@.wf(),
            r == Err::<T, ProductPairingNetworkError<I, F>>(error),
            final(self)@.exchange.state == exchange_after_failure(old(self)@.exchange.state),
            final(self)@.exchange.pairing_id == old(self)@.exchange.pairing_id,
            final(self)@.exchange.completion == old(self)@.exchange.completion,
            final(self)@.expected_owner == old(self)@.expected_owner,
            final(self)@.authority == old(self)@.authority,
            final(self).spec_hello() == old(self).spec_hello(),
            is_exchange_terminal(old(self)@.exchange.state) ==> final(self)@.exchange.pairing
                == old(self)@.exchange.pairing,
            !is_exchange_terminal(old(self)@.exchange.state) ==> final(self)@.exchange.pairing.state
                == joiner_cancelled(old(self)@.exchange.pairing.state),
    {
        if !is_exchange_terminal_exec(self.state) {
            let _ = self.pairing.cancel::<I, F>();
            self.state = ProductPairingExchangeState::Failed;
        }
        Err(error)
    }

    fn peer_cancelled<T, I, F>(&mut self) -> (r: Result<T, ProductPairingNetworkError<I, F>>)
        requires
            old(self)@.wf(),
        ensures
            final(self)@.wf(),
            r == Err::<T, ProductPairingNetworkError<I, F>>(
                ProductPairingNetworkError::PeerCancelled,
            ),
            final(self)@.exchange.state == ProductPairingExchangeState::Cancelled,
            final(self)@.exchange.pairing_id == old(self)@.exchange.pairing_id,
            final(self)@.exchange.completion == old(self)@.exchange.completion,
            final(self)@.expected_owner == old(self)@.expected_owner,
            final(self)@.authority == old(self)@.authority,
            final(self).spec_hello() == old(self).spec_hello(),
            final(self)@.exchange.pairing.state == joiner_cancelled(old(self)@.exchange.pairing.state),
    {
        let _ = self.pairing.cancel::<I, F>();
        self.state = ProductPairingExchangeState::Cancelled;
        Err(ProductPairingNetworkError::PeerCancelled)
    }

    fn require<I, F>(&mut self, expected: ProductPairingExchangeState) -> (r: Result<
        (),
        ProductPairingNetworkError<I, F>,
    >)
        requires
            old(self)@.wf(),
        ensures
            final(self)@.wf(),
            final(self).spec_hello() == old(self).spec_hello(),
            old(self)@.exchange.state == expected ==> r is Ok && final(self)@ == old(self)@,
            old(self)@.exchange.state != expected ==> {
                &&& r == Err::<(), _>(ProductPairingNetworkError::<I, F>::UnexpectedMessage)
                &&& final(self)@.exchange.state == exchange_after_failure(old(self)@.exchange.state)
                &&& final(self)@.exchange.pairing_id == old(self)@.exchange.pairing_id
                &&& final(self)@.exchange.completion == old(self)@.exchange.completion
                &&& final(self)@.expected_owner == old(self)@.expected_owner
                &&& final(self)@.authority == old(self)@.authority
                &&& is_exchange_terminal(old(self)@.exchange.state)
                    ==> final(self)@.exchange.pairing == old(self)@.exchange.pairing
                &&& !is_exchange_terminal(old(self)@.exchange.state)
                    ==> final(self)@.exchange.pairing.state == joiner_cancelled(
                    old(self)@.exchange.pairing.state,
                )
            },
    {
        if self.state == expected {
            Ok(())
        } else {
            self.fail(ProductPairingNetworkError::UnexpectedMessage)
        }
    }

    /// Receives the inviter's hello, which must come from the bootstrap's inviter, and answers
    /// with the joiner's confirmation; `summarize` reads the hello's identifying fields and
    /// `make_flow` starts the joiner flow from the pairing secret and that hello.
    pub fn accept_inviter_hello<Conf, Acc, I, F, Summarize, Make>(
        &mut self,
        message: ProductPairingMessage<Hello, Conf, Root, Deleg, Cred, Acc, Trans>,
        summarize: Summarize,
        make_flow: Make,
    ) -> (r: Result<ProductPairingMessage<Hello, Conf, Root, Deleg, Cred, Acc, Trans>, ProductPairingNetworkError<I, F>>) where
        Summarize: FnOnce(Hello) -> (Hello, PairingHelloSummary),
        Make: FnOnce(Secret, Hello) -> Result<(Flow, Conf), F>,

        requires
            old(self)@.wf(),
            forall|h: Hello| summarize.requires((h,)),
            forall|s: Secret, h: Hello| make_flow.requires((s, h)),
        ensures
            final(self)@.wf(),
            final(self)@.exchange.pairing_id == old(self)@.exchange.pairing_id,
            final(self)@.expected_owner == old(self)@.expected_owner,
            final(self).spec_hello() == old(self).spec_hello(),
            final(self)@.exchange.completion == old(self)@.exchange.completion,
            final(self)@.authority == old(self)@.authority,
            final(self)@.exchange.state == exchange_transition(
                PairingRole::Joiner,
                old(self)@.exchange.state,
                ExchangeStep::Hello,
                classify(message is Hello, is_cancel_for(message, old(self)@.exchange.pairing_id)),
                net_outcome(r),
            ),
            old(self)@.exchange.state != ProductPairingExchangeState::AwaitingPeerHello ==> r == Err::<
                ProductPairingMessage<Hello, Conf, Root, Deleg, Cred, Acc, Trans>,
                _,
            >(ProductPairingNetworkError::<I, F>::UnexpectedMessage),
            old(self)@.exchange.state == ProductPairingExchangeState::AwaitingPeerHello ==> match message {
                ProductPairingMessage::Hello(_) => {
                    &&& final(self)@.exchange.pairing.state == pairing_transition(
                        PairingRole::Joiner,
                        old(self)@.exchange.pairing.state,
                        PairingStep::AcceptPeerHello,
                        net_outcome(r),
                    )
                    &&& r matches Ok(m) ==> m is Confirmation
                    &&& r matches Err(e) ==> e is Pairing
                },
                _ => {
                    &&& final(self)@.exchange.pairing.state == joiner_cancelled(old(self)@.exchange.pairing.state)
                    &&& r == Err::<ProductPairingMessage<Hello, Conf, Root, Deleg, Cred, Acc, Trans>, _>(
                        if is_cancel_for(message, old(self)@.exchange.pairing_id) {
                            ProductPairingNetworkError::<I, F>::PeerCancelled
                        } else {
                            ProductPairingNetworkError::<I, F>::UnexpectedMessage
                        },
                    )
                },
            },
    {
        self.require(ProductPairingExchangeState::AwaitingPeerHello)?;
        let is_cancel = cancel_matches(&message, &self.pairing_id);
        let hello = match message {
            ProductPairingMessage::Hello(hello) => hello,
            _ => {
                if is_cancel {
                    return self.peer_cancelled();
                }
                return self.fail(ProductPairingNetworkError::UnexpectedMessage);
            },
        };
        let (hello, summary) = summarize(hello);
        let confirmation = match self.pairing.accept_inviter_hello(
            summary,
            move |secret: Secret| make_flow(secret, hello),
        ) {
            Ok(confirmation) => confirmation,
            Err(error) => return self.fail(ProductPairingNetworkError::Pairing(error)),
        };
        self.state = ProductPairingExchangeState::AwaitingPeerConfirmation;
        Ok(ProductPairingMessage::Confirmation(confirmation))
    }

    /// Receives the inviter's confirmation; `verify` checks it on the flow.
    pub fn accept_inviter_confirmation<Conf, Acc, I, F, Verify>(
        &mut self,
        message: ProductPairingMessage<Hello, Conf, Root, Deleg, Cred, Acc, Trans>,
        verify: Verify,
    ) -> (r: Result<(), ProductPairingNetworkError<I, F>>) where
        Verify: FnOnce(Flow, Conf) -> (Flow, Result<(), F>),

        requires
            old(self)@.wf(),
            forall|f: Flow, c: Conf| verify.requires((f, c)),
        ensures
            final(self)@.wf(),
            final(self)@.exchange.pairing_id == old(self)@.exchange.pairing_id,
            final(self)@.expected_owner == old(self)@.expected_owner,
            final(self).spec_hello() == old(self).spec_hello(),
            final(self)@.exchange.completion == old(self)@.exchange.completion,
            final(self)@.authority == old(self)@.authority,
            final(self)@.exchange.state == exchange_transition(
                PairingRole::Joiner,
                old(self)@.exchange.state,
                ExchangeStep::Confirmation,
                classify(message is Confirmation, is_cancel_for(message, old(self)@.exchange.pairing_id)),
                net_outcome(r),
            ),
            old(self)@.exchange.state != ProductPairingExchangeState::AwaitingPeerConfirmation ==> r == Err::<
                (),
                _,
            >(ProductPairingNetworkError::<I, F>::UnexpectedMessage),
            old(self)@.exchange.state == ProductPairingExchangeState::AwaitingPeerConfirmation ==> match message {
                ProductPairingMessage::Confirmation(_) => {
                    &&& final(self)@.exchange.pairing.state == pairing_transition(
                        PairingRole::Joiner,
                        old(self)@.exchange.pairing.state,
                        PairingStep::VerifyPeerConfirmation,
                        net_outcome(r),
                    )
                    &&& r matches Err(e) ==> e is Pairing
                },
                _ => {
                    &&& final(self)@.exchange.pairing.state == joiner_cancelled(old(self)@.exchange.pairing.state)
                    &&& r == Err::<(), _>(
                        if is_cancel_for(message, old(self)@.exchange.pairing_id) {
                            ProductPairingNetworkError::<I, F>::PeerCancelled
                        } else {
                            ProductPairingNetworkError::<I, F>::UnexpectedMessage
                        },
                    )
                },
            },
    {
        self.require(ProductPairingExchangeState::AwaitingPeerConfirmation)?;
        let is_cancel = cancel_matches(&message, &self.pairing_id);
        let confirmation = match message {
            ProductPairingMessage::Confirmation(confirmation) => confirmation,
            _ => {
                if is_cancel {
                    return self.peer_cancelled();
                }
                return self.fail(ProductPairingNetworkError::UnexpectedMessage);
            },
        };
        if let Err(error) = self.pairing.verify_inviter_confirmation(
            move |flow: Flow| verify(flow, confirmation),
        ) {
            return self.fail(ProductPairingNetworkError::Pairing(error));
        }
        self.state = ProductPairingExchangeState::AwaitingCredential;
        Ok(())
    }

    /// Receives the credential bundle. The owner root and the delegation must both be the
    /// owner's that the bootstrap names; `build_authority` accepts the delegation under the
    /// root and returns the authority with the current device-signing delegation (or the error
    /// of looking it up), and `accept` checks the credential on the flow under that authority.
    pub fn accept_credential_bundle<Conf, Acc, I, F, Build, Accept>(
        &mut self,
        message: ProductPairingMessage<Hello, Conf, Root, Deleg, Cred, Acc, Trans>,
        build_authority: Build,
        accept: Accept,
    ) -> (r: Result<ProductPairingMessage<Hello, Conf, Root, Deleg, Cred, Acc, Trans>, ProductPairingNetworkError<I, F>>) where
        Build: FnOnce(Root, Deleg) -> Result<(Auth, Result<Deleg, I>), I>,
        Accept: FnOnce(Flow, &Auth, Cred) -> (Flow, Result<Acc, F>),
        Root: Copy,
        Cred: Copy,

        requires
            old(self)@.wf(),
            forall|root: Root, d: Deleg| build_authority.requires((root, d)),
            forall|f: Flow, a: &Auth, c: Cred| accept.requires((f, a, c)),
        ensures
            final(self)@.wf(),
            final(self)@.exchange.pairing_id == old(self)@.exchange.pairing_id,
            final(self)@.expected_owner == old(self)@.expected_owner,
            final(self).spec_hello() == old(self).spec_hello(),
            final(self)@.exchange.completion == old(self)@.exchange.completion,
            r is Err ==> final(self)@.authority == old(self)@.authority,
            final(self)@.exchange.state == exchange_transition(
                PairingRole::Joiner,
                old(self)@.exchange.state,
                ExchangeStep::Credential,
                classify(message is CredentialBundle, is_cancel_for(message, old(self)@.exchange.pairing_id)),
                net_outcome(r),
            ),
            old(self)@.exchange.state != ProductPairingExchangeState::AwaitingCredential ==> r == Err::<
                ProductPairingMessage<Hello, Conf, Root, Deleg, Cred, Acc, Trans>,
                _,
            >(ProductPairingNetworkError::<I, F>::UnexpectedMessage),
            old(self)@.exchange.state == ProductPairingExchangeState::AwaitingCredential ==> match message {
                ProductPairingMessage::CredentialBundle(bundle) => if bundle.root_owner_id@
                    != old(self)@.expected_owner@ || bundle.signing_owner_id@ != old(self)@.expected_owner@ {
                    &&& r == Err::<ProductPairingMessage<Hello, Conf, Root, Deleg, Cred, Acc, Trans>, _>(
                        ProductPairingNetworkError::<I, F>::Pairing(ProductPairingError::BootstrapPeerMismatch),
                    )
                    &&& final(self)@.exchange.pairing.state == joiner_cancelled(old(self)@.exchange.pairing.state)
                } else {
                    &&& r matches Err(e) ==> e is Pairing
                    &&& r matches Ok(m) ==> m is CredentialAccepted && final(self)@.authority is Some
                        && final(self)@.exchange.pairing.state == ProductPairingState::AwaitingPeerTrust
                        && final(self)@.exchange.pairing.accepted_credential == Some(bundle.credential)
                        && final(self)@.exchange.pairing.owner_root == Some(bundle.owner_root)
                },
                _ => {
                    &&& final(self)@.exchange.pairing.state == joiner_cancelled(old(self)@.exchange.pairing.state)
                    &&& r == Err::<ProductPairingMessage<Hello, Conf, Root, Deleg, Cred, Acc, Trans>, _>(
                        if is_cancel_for(message, old(self)@.exchange.pairing_id) {
                            ProductPairingNetworkError::<I, F>::PeerCancelled
                        } else {
                            ProductPairingNetworkError::<I, F>::UnexpectedMessage
                        },
                    )
                },
            },
    {
        self.require(ProductPairingExchangeState::AwaitingCredential)?;
        let is_cancel = cancel_matches(&message, &self.pairing_id);
        let bundle = match message {
            ProductPairingMessage::CredentialBundle(bundle) => bundle,
            _ => {
                if is_cancel {
                    return self.peer_cancelled();
                }
                return self.fail(ProductPairingNetworkError::UnexpectedMessage);
            },
        };
        if !bytes_eq(&bundle.root_owner_id, &self.expected_owner) || !bytes_eq(
            &bundle.signing_owner_id,
            &self.expected_owner,
        ) {
            return self.fail(
                ProductPairingNetworkError::Pairing(ProductPairingError::BootstrapPeerMismatch),
            );
        }
        let owner_root = bundle.owner_root;
        let credential = bundle.credential;
        let (authority, device_signing) = match build_authority(owner_root, bundle.device_signing) {
            Ok(built) => built,
            Err(error) => return self.fail(
                ProductPairingNetworkError::Pairing(ProductPairingError::Identity(error)),
            ),
        };
        let accepted = {
            let held = &authority;
            match self.pairing.accept_credential(
                owner_root,
                device_signing,
                credential,
                move |flow: Flow| accept(flow, held, credential),
            ) {
                Ok(accepted) => accepted,
                Err(error) => return self.fail(ProductPairingNetworkError::Pairing(error)),
            }
        };
        self.authority = Some(authority);
        self.state = ProductPairingExchangeState::AwaitingPeerTrust;
        Ok(ProductPairingMessage::CredentialAccepted(accepted))
    }

    /// Receives the inviter's credential and reciprocal transition; `establish` checks them
    /// against the pairing evidence under the authority the credential bundle gave.
    pub fn accept_trust_bundle<Conf, Acc, I, F, Establish>(
        &mut self,
        message: ProductPairingMessage<Hello, Conf, Root, Deleg, Cred, Acc, Trans>,
        establish: Establish,
    ) -> (r: Result<ProductPairingJoinerCompletion<Root, Deleg, Cred, Trans, Trust>, ProductPairingNetworkError<I, F>>) where
        Establish: FnOnce(Flow, &Auth, Cred, Trans) -> (Flow, Result<Trust, F>),
        Root: Copy,
        Deleg: Copy,
        Cred: Copy,
        Trans: Copy,
        Trust: Copy,

        requires
            old(self)@.wf(),
            forall|f: Flow, a: &Auth, c: Cred, t: Trans| establish.requires((f, a, c, t)),
        ensures
            final(self)@.wf(),
            final(self)@.exchange.pairing_id == old(self)@.exchange.pairing_id,
            final(self)@.expected_owner == old(self)@.expected_owner,
            final(self)@.authority == old(self)@.authority,
            final(self).spec_hello() == old(self).spec_hello(),
            r is Err ==> final(self)@.exchange.completion == old(self)@.exchange.completion,
            final(self)@.exchange.state == exchange_transition(
                PairingRole::Joiner,
                old(self)@.exchange.state,
                ExchangeStep::Finalize,
                classify(message is TrustBundle, is_cancel_for(message, old(self)@.exchange.pairing_id)),
                net_outcome(r),
            ),
            old(self)@.exchange.state != ProductPairingExchangeState::AwaitingPeerTrust ==> r == Err::<
                ProductPairingJoinerCompletion<Root, Deleg, Cred, Trans, Trust>,
                _,
            >(ProductPairingNetworkError::<I, F>::UnexpectedMessage),
            old(self)@.exchange.state == ProductPairingExchangeState::AwaitingPeerTrust ==> match message {
                ProductPairingMessage::TrustBundle(bundle) => {
                    &&& final(self)@.exchange.pairing.state == pairing_transition(
                        PairingRole::Joiner,
                        old(self)@.exchange.pairing.state,
                        PairingStep::Finalize,
                        net_outcome(r),
                    )
                    &&& r matches Err(e) ==> e is Pairing
                    &&& r matches Ok(c) ==> {
                        &&& final(self)@.exchange.completion == Some(c@)
                        &&& c@.3.0 == bundle@.0
                        &&& c@.3.1 == bundle@.1
                    }
                },
                _ => {
                    &&& final(self)@.exchange.pairing.state == joiner_cancelled(old(self)@.exchange.pairing.state)
                    &&& r == Err::<ProductPairingJoinerCompletion<Root, Deleg, Cred, Trans, Trust>, _>(
                        if is_cancel_for(message, old(self)@.exchange.pairing_id) {
                            ProductPairingNetworkError::<I, F>::PeerCancelled
                        } else {
                            ProductPairingNetworkError::<I, F>::UnexpectedMessage
                        },
                    )
                },
            },
    {
        self.require(ProductPairingExchangeState::AwaitingPeerTrust)?;
        let is_cancel = cancel_matches(&message, &self.pairing_id);
        let bundle = match message {
            ProductPairingMessage::TrustBundle(bundle) => bundle,
            _ => {
                if is_cancel {
                    return self.peer_cancelled();
                }
                return self.fail(ProductPairingNetworkError::UnexpectedMessage);
            },
        };
        let authority = match &self.authority {
            Some(authority) => authority,
            None => return Err(ProductPairingNetworkError::UnexpectedMessage),
        };
        let trust = ProductPairingTrustBundle::new(bundle.credential(), bundle.transition());
        let result = self.pairing.accept_inviter_trust(
            trust,
            move |flow: Flow, credential: Cred, transition: Trans|
                establish(flow, authority, credential, transition),
        );
        let completion = match result {
            Ok(completion) => completion,
            Err(error) => return self.fail(ProductPairingNetworkError::Pairing(error)),
        };
        self.completion = Some(completion);
        self.state = ProductPairingExchangeState::AwaitingLocalPersistence;
        Ok(completion)
    }

    /// Records that the joiner stored the pairing, and acknowledges that to the inviter.
    pub fn local_persisted<Conf, Acc, I, F>(&mut self) -> (r: Result<
        ProductPairingMessage<Hello, Conf, Root, Deleg, Cred, Acc, Trans>,
        ProductPairingNetworkError<I, F>,
    >)
        requires
            old(self)@.wf(),
        ensures
            final(self)@.wf(),
            final(self)@.exchange.pairing_id == old(self)@.exchange.pairing_id,
            final(self)@.expected_owner == old(self)@.expected_owner,
            final(self)@.authority == old(self)@.authority,
            final(self).spec_hello() == old(self).spec_hello(),
            final(self)@.exchange.completion == old(self)@.exchange.completion,
            final(self)@.exchange.state == exchange_transition(
                PairingRole::Joiner,
                old(self)@.exchange.state,
                ExchangeStep::LocalPersisted,
                MessageClass::Expected,
                net_outcome(r),
            ),
            old(self)@.exchange.state != ProductPairingExchangeState::AwaitingLocalPersistence ==> r == Err::<
                ProductPairingMessage<Hello, Conf, Root, Deleg, Cred, Acc, Trans>,
                _,
            >(ProductPairingNetworkError::<I, F>::UnexpectedMessage),
            old(self)@.exchange.state == ProductPairingExchangeState::AwaitingLocalPersistence ==> {
                &&& final(self)@.exchange.pairing.state == pairing_transition(
                    PairingRole::Joiner,
                    old(self)@.exchange.pairing.state,
                    PairingStep::MarkPersisted,
                    net_outcome(r),
                )
                &&& r matches Err(e) ==> e is Pairing
                &&& r matches Ok(m) ==> m == ProductPairingMessage::<Hello, Conf, Root, Deleg, Cred, Acc, Trans>::Ack(
                    ProductPairingAck {
                        pairing_id: old(self)@.exchange.pairing_id,
                        role: PairingRole::Joiner,
                        kind: ProductPairingAckKind::Persisted,
                    },
                )
            },
    {
        self.require(ProductPairingExchangeState::AwaitingLocalPersistence)?;
        if let Err(error) = self.pairing.mark_persisted::<I, F>() {
            return self.fail(ProductPairingNetworkError::Pairing(error));
        }
        self.state = ProductPairingExchangeState::AwaitingCompletion;
        Ok(
            ProductPairingMessage::Ack(
                ProductPairingAck {
                    pairing_id: self.pairing_id,
                    role: PairingRole::Joiner,
                    kind: ProductPairingAckKind::Persisted,
                },
            ),
        )
    }

    /// Records that storing the pairing failed; the exchange is then over.
    pub fn persistence_failed<I, F>(&mut self) -> (r: Result<(), ProductPairingNetworkError<I, F>>)
        requires
            old(self)@.wf(),
        ensures
            final(self)@.wf(),
            final(self)@.exchange.pairing_id == old(self)@.exchange.pairing_id,
            final(self)@.expected_owner == old(self)@.expected_owner,
            final(self)@.authority == old(self)@.authority,
            final(self).spec_hello() == old(self).spec_hello(),
            final(self)@.exchange.completion == old(self)@.exchange.completion,
            final(self)@.exchange.state == exchange_transition(
                PairingRole::Joiner,
                old(self)@.exchange.state,
                ExchangeStep::PersistenceFailed,
                MessageClass::Expected,
                net_outcome(r),
            ),
            old(self)@.exchange.state != ProductPairingExchangeState::AwaitingLocalPersistence ==> r == Err::<
                (),
                _,
            >(ProductPairingNetworkError::<I, F>::UnexpectedMessage),
            old(self)@.exchange.state == ProductPairingExchangeState::AwaitingLocalPersistence ==> {
                &&& final(self)@.exchange.pairing.state == pairing_transition(
                    PairingRole::Joiner,
                    old(self)@.exchange.pairing.state,
                    PairingStep::PersistenceFailed,
                    net_outcome(r),
                )
                &&& r matches Err(e) ==> e is Pairing
            },
    {
        self.require(ProductPairingExchangeState::AwaitingLocalPersistence)?;
        if let Err(error) = self.pairing.persistence_failed::<I, F>() {
            return self.fail(ProductPairingNetworkError::Pairing(error));
        }
        self.state = ProductPairingExchangeState::Failed;
        Ok(())
    }

    /// Receives the inviter's acknowledgement that the pairing is complete.
    pub fn accept_complete<Conf, Acc, I, F>(&mut self, message: ProductPairingMessage<Hello, Conf, Root, Deleg, Cred, Acc, Trans>) -> (r: Result<
        (),
        ProductPairingNetworkError<I, F>,
    >)
        requires
            old(self)@.wf(),
        ensures
            final(self)@.wf(),
            final(self)@.exchange.pairing_id == old(self)@.exchange.pairing_id,
            final(self)@.expected_owner == old(self)@.expected_owner,
            final(self)@.authority == old(self)@.authority,
            final(self).spec_hello() == old(self).spec_hello(),
            final(self)@.exchange.completion == old(self)@.exchange.completion,
            final(self)@.exchange.state == exchange_transition(
                PairingRole::Joiner,
                old(self)@.exchange.state,
                ExchangeStep::PeerAck,
                classify(
                    is_ack_from(
                        message,
                        old(self)@.exchange.pairing_id,
                        PairingRole::Inviter,
                        ProductPairingAckKind::Complete,
                    ),
                    is_cancel_for(message, old(self)@.exchange.pairing_id),
                ),
                net_outcome(r),
            ),
            old(self)@.exchange.state != ProductPairingExchangeState::AwaitingCompletion ==> r == Err::<
                (),
                _,
            >(ProductPairingNetworkError::<I, F>::UnexpectedMessage),
            old(self)@.exchange.state == ProductPairingExchangeState::AwaitingCompletion ==> if is_ack_from(
                message,
                old(self)@.exchange.pairing_id,
                PairingRole::Inviter,
                ProductPairingAckKind::Complete,
            ) {
                &&& r is Ok
                &&& final(self)@.exchange.pairing == old(self)@.exchange.pairing
            } else {
                &&& final(self)@.exchange.pairing.state == joiner_cancelled(old(self)@.exchange.pairing.state)
                &&& r == Err::<(), _>(
                    if is_cancel_for(message, old(self)@.exchange.pairing_id) {
                        ProductPairingNetworkError::<I, F>::PeerCancelled
                    } else {
                        ProductPairingNetworkError::<I, F>::UnexpectedMessage
                    },
                )
            },
    {
        self.require(ProductPairingExchangeState::AwaitingCompletion)?;
        if !ack_matches(
            &message,
            &self.pairing_id,
            PairingRole::Inviter,
            ProductPairingAckKind::Complete,
        ) {
            if cancel_matches(&message, &self.pairing_id) {
                return self.peer_cancelled();
            }
            return self.fail(ProductPairingNetworkError::UnexpectedMessage);
        }
        self.state = ProductPairingExchangeState::Complete;
        Ok(())
    }

    /// Cancels an exchange that is not over, and the pairing under it, and sends the cancel to
    /// the inviter. An exchange whose pairing can no longer be cancelled stays as it is.
    pub fn cancel<Conf, Acc, I, F>(&mut self) -> (r: Result<ProductPairingMessage<Hello, Conf, Root, Deleg, Cred, Acc, Trans>, ProductPairingNetworkError<I, F>>)
        requires
            old(self)@.wf(),
        ensures
            final(self)@.wf(),
            final(self)@.exchange.pairing_id == old(self)@.exchange.pairing_id,
            final(self)@.expected_owner == old(self)@.expected_owner,
            final(self)@.authority == old(self)@.authority,
            final(self).spec_hello() == old(self).spec_hello(),
            final(self)@.exchange.completion == old(self)@.exchange.completion,
            final(self)@.exchange.state == exchange_transition(
                PairingRole::Joiner,
                old(self)@.exchange.state,
                ExchangeStep::Cancel,
                MessageClass::Expected,
                net_outcome(r),
            ),
            is_exchange_terminal(old(self)@.exchange.state) ==> r == Err::<ProductPairingMessage<Hello, Conf, Root, Deleg, Cred, Acc, Trans>, _>(
                ProductPairingNetworkError::<I, F>::UnexpectedMessage,
            ) && final(self)@ == old(self)@,
            !is_exchange_terminal(old(self)@.exchange.state) ==> {
                &&& final(self)@.exchange.pairing.state == joiner_cancelled(old(self)@.exchange.pairing.state)
                &&& crate::pairing::is_terminal(old(self)@.exchange.pairing.state) ==> r == Err::<ProductPairingMessage<Hello, Conf, Root, Deleg, Cred, Acc, Trans>, _>(
                    ProductPairingNetworkError::<I, F>::Pairing(ProductPairingError::InvalidState),
                )
                &&& !crate::pairing::is_terminal(old(self)@.exchange.pairing.state) ==> r == Ok::<
                    ProductPairingMessage<Hello, Conf, Root, Deleg, Cred, Acc, Trans>,
                    ProductPairingNetworkError<I, F>,
                >(ProductPairingMessage::Cancel { pairing_id: old(self)@.exchange.pairing_id })
            },
    {
        if is_exchange_terminal_exec(self.state) {
            return Err(ProductPairingNetworkError::UnexpectedMessage);
        }
        if let Err(error) = self.pairing.cancel() {
            return Err(ProductPairingNetworkError::Pairing(error));
        }
        self.state = ProductPairingExchangeState::Cancelled;
        Ok(ProductPairingMessage::Cancel { pairing_id: self.pairing_id })
    }
}

} // verus!
