use crosslab_runtime::exchange::{
    ProductPairingAck, ProductPairingAckKind, ProductPairingExchangeState,
    ProductPairingInviterExchange, ProductPairingJoinerExchange, ProductPairingMessage,
    ProductPairingNetworkError,
};
use crosslab_runtime::pairing::{
    PairingBootstrapBinding, PairingHelloSummary, PairingRole, ProductPairingError,
    ProductPairingInviter, ProductPairingJoiner,
};

type Message = ProductPairingMessage<u16, u32, u8, u8, u64, u32, u16>;
type NetFailure = ProductPairingNetworkError<&'static str, &'static str>;
type PairFailure = ProductPairingError<&'static str, &'static str>;
type InviterExchange = ProductPairingInviterExchange<u8, u32, u64, u16, u16, u8>;
type JoinerExchange = ProductPairingJoinerExchange<[u8; 32], u32, u64, u8, u8, u16, u8, u16, u8>;

const PAIRING_ID: [u8; 16] = [0x15; 16];
const OWNER_ID: [u8; 32] = [0x10; 32];
const INVITER_DEVICE: [u8; 32] = [0x14; 32];
const INVITER_CREDENTIAL: u64 = 0x14;
const JOINER_CREDENTIAL: u64 = 0x19;
const TRUSTED: u8 = 1;

fn exchanges() -> (InviterExchange, JoinerExchange) {
    let inviter: Result<ProductPairingInviter<u8, u32, u64, u16>, PairFailure> =
        ProductPairingInviter::new(
            0x15u8,
            OWNER_ID,
            INVITER_DEVICE,
            INVITER_CREDENTIAL,
            OWNER_ID,
            INVITER_DEVICE,
            Ok(()),
            0x18u16,
        );
    let inviter = inviter.unwrap();
    let binding = PairingBootstrapBinding {
        pairing_id: PAIRING_ID,
        owner_id: OWNER_ID,
        inviter_device_id: INVITER_DEVICE,
    };
    let joiner: Result<ProductPairingJoiner<[u8; 32], u32, u64, u8, u8, u16>, PairFailure> =
        ProductPairingJoiner::new(binding, [0x16; 32], [0x19; 32], 0x1au16);
    (
        InviterExchange::new(inviter, PAIRING_ID),
        JoinerExchange::new(joiner.unwrap()),
    )
}

fn summarize(hello: u16) -> (u16, PairingHelloSummary) {
    (
        hello,
        PairingHelloSummary {
            role: PairingRole::Inviter,
            pairing_id: PAIRING_ID,
            owner_id: OWNER_ID,
            device_id: INVITER_DEVICE,
        },
    )
}

fn joiner_hello(joiner: &JoinerExchange) -> Message {
    joiner.hello::<u32, u32>()
}

#[test]
fn network_exchange_carries_pairing_to_reciprocal_completion() {
    let (mut inviter, mut joiner) = exchanges();

    let inviter_hello: Result<Message, NetFailure> =
        inviter.accept_joiner_hello(joiner_hello(&joiner), |invitation, hello| {
            Ok(invitation as u32 * 100 + hello as u32)
        });
    let inviter_hello = inviter_hello.unwrap();
    assert_eq!(inviter_hello, ProductPairingMessage::Hello(0x18));
    let joiner_confirmation: Result<Message, NetFailure> =
        joiner.accept_inviter_hello(inviter_hello, summarize, |_secret, _hello| Ok((2000, 20)));
    let joiner_confirmation = joiner_confirmation.unwrap();
    let inviter_confirmation: Result<Message, NetFailure> =
        inviter.accept_joiner_confirmation(joiner_confirmation, |flow, confirmation| {
            (flow, Ok(confirmation + 1))
        });
    let inviter_confirmation = inviter_confirmation.unwrap();
    let confirmed: Result<(), NetFailure> =
        joiner.accept_inviter_confirmation(inviter_confirmation, |flow, confirmation| {
            (flow, if confirmation == 21 { Ok(()) } else { Err("InvalidConfirmation") })
        });
    confirmed.unwrap();

    let credential_bundle: Result<Message, NetFailure> = inviter.issue_credential_bundle(
        0x11u8,
        OWNER_ID,
        Ok((0x12u8, OWNER_ID)),
        |flow| (flow, Ok(JOINER_CREDENTIAL)),
    );
    let credential_proof: Result<Message, NetFailure> = joiner.accept_credential_bundle(
        credential_bundle.unwrap(),
        |root, delegation| Ok((root ^ delegation, Ok(delegation))),
        |flow, _authority, _credential| (flow, Ok(30u32)),
    );
    let inviter_commit: Result<_, NetFailure> = inviter.accept_credential_proof(
        credential_proof.unwrap(),
        Ok::<u16, ()>(0x1b),
        |flow, credential, id, _accepted| (flow, Ok((credential as u16, TRUSTED, id))),
    );
    let inviter_commit = inviter_commit.unwrap();

    assert_eq!(inviter.state(), ProductPairingExchangeState::AwaitingLocalPersistence);
    assert_eq!(inviter_commit.peer_credential(), JOINER_CREDENTIAL);

    let trust_bundle: Result<Message, NetFailure> = inviter.local_persisted();
    let joiner_completion: Result<_, NetFailure> = joiner.accept_trust_bundle(
        trust_bundle.unwrap(),
        |flow, _authority, _credential, _transition| (flow, Ok(TRUSTED)),
    );
    let joiner_completion = joiner_completion.unwrap();
    assert_eq!(joiner.state(), ProductPairingExchangeState::AwaitingLocalPersistence);
    assert_eq!(joiner_completion.peer_commit().peer_credential(), INVITER_CREDENTIAL);

    let persisted: Result<Message, NetFailure> = joiner.local_persisted();
    let complete: Result<Message, NetFailure> = inviter.accept_peer_persisted(persisted.unwrap());
    let done: Result<(), NetFailure> = joiner.accept_complete(complete.unwrap());
    done.unwrap();

    assert_eq!(inviter.state(), ProductPairingExchangeState::Complete);
    assert_eq!(joiner.state(), ProductPairingExchangeState::Complete);
}

#[test]
fn network_exchange_rejects_replayed_out_of_sequence_message() {
    let (mut inviter, joiner) = exchanges();

    let first: Result<Message, NetFailure> =
        inviter.accept_joiner_hello(joiner_hello(&joiner), |invitation, _hello| Ok(invitation as u32));
    first.unwrap();

    let replay: Result<Message, NetFailure> =
        inviter.accept_joiner_hello(joiner_hello(&joiner), |invitation, _hello| Ok(invitation as u32));
    assert_eq!(replay, Err(ProductPairingNetworkError::UnexpectedMessage));
    assert_eq!(inviter.state(), ProductPairingExchangeState::Failed);
}

#[test]
fn network_exchange_rejects_wrong_message_type_before_secret_confirmation() {
    let (mut inviter, _) = exchanges();

    let wrong: Message = ProductPairingMessage::Cancel { pairing_id: [0xff; 16] };
    let result: Result<Message, NetFailure> =
        inviter.accept_joiner_hello(wrong, |invitation, _hello| Ok(invitation as u32));
    assert_eq!(result, Err(ProductPairingNetworkError::UnexpectedMessage));
    assert_eq!(inviter.state(), ProductPairingExchangeState::Failed);
}

#[test]
fn peer_cancel_for_this_pairing_cancels_the_exchange() {
    let (mut inviter, _) = exchanges();
    let cancel: Message = ProductPairingMessage::Cancel { pairing_id: PAIRING_ID };
    let result: Result<Message, NetFailure> =
        inviter.accept_joiner_hello(cancel, |invitation, _hello| Ok(invitation as u32));
    assert_eq!(result, Err(ProductPairingNetworkError::PeerCancelled));
    assert_eq!(inviter.state(), ProductPairingExchangeState::Cancelled);
}

#[test]
fn credential_bundle_from_another_owner_is_refused() {
    let (mut inviter, mut joiner) = exchanges();
    let hello: Result<Message, NetFailure> =
        inviter.accept_joiner_hello(joiner_hello(&joiner), |invitation, _hello| Ok(invitation as u32));
    let confirmation: Result<Message, NetFailure> =
        joiner.accept_inviter_hello(hello.unwrap(), summarize, |_secret, _hello| Ok((2000, 20)));
    confirmation.unwrap();
    let confirmed: Result<(), NetFailure> =
        joiner.accept_inviter_confirmation(Message::Confirmation(21), |flow, _c| (flow, Ok(())));
    confirmed.unwrap();

    let foreign: Message = ProductPairingMessage::CredentialBundle(
        crosslab_runtime::exchange::ProductPairingCredentialBundle {
            owner_root: 0x11,
            root_owner_id: [0xee; 32],
            device_signing: 0x12,
            signing_owner_id: OWNER_ID,
            credential: JOINER_CREDENTIAL,
        },
    );
    let result: Result<Message, NetFailure> = joiner.accept_credential_bundle(
        foreign,
        |root, delegation| Ok((root, Ok(delegation))),
        |flow, _authority, _credential| (flow, Ok(30u32)),
    );
    assert_eq!(
        result,
        Err(ProductPairingNetworkError::Pairing(ProductPairingError::BootstrapPeerMismatch))
    );
    assert_eq!(joiner.state(), ProductPairingExchangeState::Failed);
}

#[test]
fn acknowledgement_from_the_wrong_role_fails_the_inviter() {
    let (mut inviter, mut joiner) = exchanges();
    let hello: Result<Message, NetFailure> =
        inviter.accept_joiner_hello(joiner_hello(&joiner), |invitation, _hello| Ok(invitation as u32));
    let confirmation: Result<Message, NetFailure> =
        joiner.accept_inviter_hello(hello.unwrap(), summarize, |_secret, _hello| Ok((2000, 20)));
    let response: Result<Message, NetFailure> =
        inviter.accept_joiner_confirmation(confirmation.unwrap(), |flow, c| (flow, Ok(c + 1)));
    response.unwrap();
    let bundle: Result<Message, NetFailure> =
        inviter.issue_credential_bundle(0x11u8, OWNER_ID, Ok((0x12u8, OWNER_ID)), |flow| {
            (flow, Ok(JOINER_CREDENTIAL))
        });
    bundle.unwrap();
    let commit: Result<_, NetFailure> = inviter.accept_credential_proof(
        Message::CredentialAccepted(30),
        Ok::<u16, ()>(0x1b),
        |flow, credential, id, _accepted| (flow, Ok((credential as u16, TRUSTED, id))),
    );
    commit.unwrap();
    let sent: Result<Message, NetFailure> = inviter.local_persisted();
    sent.unwrap();

    let wrong: Message = ProductPairingMessage::Ack(ProductPairingAck {
        pairing_id: PAIRING_ID,
        role: PairingRole::Inviter,
        kind: ProductPairingAckKind::Persisted,
    });
    let result: Result<Message, NetFailure> = inviter.accept_peer_persisted(wrong);
    assert_eq!(result, Err(ProductPairingNetworkError::UnexpectedMessage));
    assert_eq!(inviter.state(), ProductPairingExchangeState::Failed);
}

#[test]
fn local_cancel_sends_the_cancel_and_is_final() {
    let (mut inviter, _) = exchanges();
    let sent: Result<Message, NetFailure> = inviter.cancel();
    assert_eq!(sent, Ok(ProductPairingMessage::Cancel { pairing_id: PAIRING_ID }));
    assert_eq!(inviter.state(), ProductPairingExchangeState::Cancelled);
    let again: Result<Message, NetFailure> = inviter.cancel();
    assert_eq!(again, Err(ProductPairingNetworkError::UnexpectedMessage));
}
