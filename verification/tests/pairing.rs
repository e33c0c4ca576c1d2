use crosslab_runtime::pairing::{
    PairingBootstrapBinding, PairingHelloSummary, PairingRole, ProductPairingError,
    ProductPairingInviter, ProductPairingJoiner, ProductPairingState, ProductPairingTrustBundle,
};

type Failure = ProductPairingError<&'static str, &'static str>;
type Inviter = ProductPairingInviter<u8, u32, u64, u16>;
type Joiner = ProductPairingJoiner<[u8; 32], u32, u64, u8, u8, u16>;

const PAIRING_ID: [u8; 16] = [0x15; 16];
const OWNER_ID: [u8; 32] = [0x10; 32];
const INVITER_DEVICE: [u8; 32] = [0x14; 32];
const JOINER_DEVICE: [u8; 32] = [0x19; 32];
const INVITATION: u8 = 0x15;
const INVITER_CREDENTIAL: u64 = 0x14;
const JOINER_CREDENTIAL: u64 = 0x19;
const INVITER_HELLO: u16 = 0x18;
const JOINER_HELLO: u16 = 0x1a;
const OWNER_ROOT: u8 = 0x11;
const DEVICE_SIGNING: u8 = 0x12;
const TRUSTED: u8 = 1;

fn binding() -> PairingBootstrapBinding {
    PairingBootstrapBinding {
        pairing_id: PAIRING_ID,
        owner_id: OWNER_ID,
        inviter_device_id: INVITER_DEVICE,
    }
}

fn inviter_summary() -> PairingHelloSummary {
    PairingHelloSummary {
        role: PairingRole::Inviter,
        pairing_id: PAIRING_ID,
        owner_id: OWNER_ID,
        device_id: INVITER_DEVICE,
    }
}

fn coordinators() -> (Inviter, Joiner) {
    let inviter: Result<Inviter, Failure> = Inviter::new(
        INVITATION,
        OWNER_ID,
        INVITER_DEVICE,
        INVITER_CREDENTIAL,
        OWNER_ID,
        INVITER_DEVICE,
        Ok(()),
        INVITER_HELLO,
    );
    let inviter = inviter.unwrap();
    let joiner: Result<Joiner, Failure> =
        Joiner::new(binding(), [0x16; 32], JOINER_DEVICE, JOINER_HELLO);
    (inviter, joiner.unwrap())
}

fn hello_exchange(inviter: &mut Inviter, joiner: &mut Joiner) {
    let accepted: Result<(), Failure> = inviter.accept_joiner_hello(|invitation| Ok(invitation as u32 + 1000));
    accepted.unwrap();
    let confirmation: Result<u32, Failure> =
        joiner.accept_inviter_hello(inviter_summary(), |_secret| Ok((2000, 20)));
    let confirmation = confirmation.unwrap();
    let response: Result<u32, Failure> =
        inviter.verify_joiner_confirmation(|flow| (flow, Ok(confirmation + 1)));
    let response = response.unwrap();
    let verified: Result<(), Failure> = joiner.verify_inviter_confirmation(|flow| {
        let ok = if response == 21 { Ok(()) } else { Err("InvalidConfirmation") };
        (flow, ok)
    });
    verified.unwrap();
}

fn issue_and_accept(inviter: &mut Inviter, joiner: &mut Joiner) -> u64 {
    let credential: Result<u64, Failure> = inviter.issue_joiner_credential(|flow| (flow, Ok(JOINER_CREDENTIAL)));
    let credential = credential.unwrap();
    let accepted: Result<u32, Failure> =
        joiner.accept_credential(OWNER_ROOT, Ok(DEVICE_SIGNING), credential, |flow| (flow, Ok(30)));
    accepted.unwrap();
    credential
}

fn run_to_persistence(
    inviter: &mut Inviter,
    joiner: &mut Joiner,
) -> (u64, u16) {
    hello_exchange(inviter, joiner);
    let credential = issue_and_accept(inviter, joiner);
    let completion: Result<_, Failure> = inviter.verify_credential_acceptance(
        Ok::<u16, ()>(0x1b),
        |flow, issued, id| (flow, Ok((0x1000 + issued as u16, TRUSTED, id))),
    );
    let completion = completion.unwrap();
    let joiner_completion: Result<_, Failure> = joiner.accept_inviter_trust(
        completion.reciprocal_trust(),
        |flow, _credential, _transition| (flow, Ok(TRUSTED)),
    );
    joiner_completion.unwrap();
    (credential, completion.reciprocal_trust().transition())
}

fn inviter_requires_persistence_before_product_completion_scenario() {
    let (mut inviter, mut joiner) = coordinators();
    hello_exchange(&mut inviter, &mut joiner);
    let credential = issue_and_accept(&mut inviter, &mut joiner);
    let completion: Result<_, Failure> = inviter.verify_credential_acceptance(
        Ok::<u16, ()>(0x1b),
        |flow, issued, id| (flow, Ok((0x1000 + issued as u16, TRUSTED, id))),
    );
    let completion = completion.unwrap();
    let inviter_commit = completion.commit();
    let joiner_completion: Result<_, Failure> = joiner.accept_inviter_trust(
        completion.reciprocal_trust(),
        |flow, _credential, _transition| (flow, Ok(TRUSTED)),
    );
    let joiner_completion = joiner_completion.unwrap();
    let joiner_commit = joiner_completion.peer_commit();

    assert_eq!(inviter.state(), ProductPairingState::AwaitingPersistence);
    assert_eq!(joiner.state(), ProductPairingState::AwaitingPersistence);
    assert_eq!(inviter_commit.peer_credential(), credential);
    assert_eq!(inviter_commit.peer_trust(), TRUSTED);
    assert_eq!(inviter_commit.peer_credential(), JOINER_CREDENTIAL);
    assert_eq!(joiner_completion.owner_root(), OWNER_ROOT);
    assert_eq!(joiner_completion.device_signing(), DEVICE_SIGNING);
    assert_eq!(joiner_completion.local_credential(), credential);
    assert_eq!(joiner_commit.peer_credential(), INVITER_CREDENTIAL);
    assert_eq!(joiner_commit.peer_trust(), TRUSTED);
    assert_eq!(joiner_commit.peer_transition(), 0x1b);

    let done: Result<(), Failure> = inviter.mark_persisted();
    done.unwrap();
    let done: Result<(), Failure> = joiner.mark_persisted();
    done.unwrap();
    assert_eq!(inviter.state(), ProductPairingState::Complete);
    assert_eq!(joiner.state(), ProductPairingState::Complete);
}

#[test]
fn pairing_inviter_requires_persistence_before_product_completion() {
    inviter_requires_persistence_before_product_completion_scenario();
}

#[test]
fn tests_inviter_requires_persistence_before_product_completion() {
    inviter_requires_persistence_before_product_completion_scenario();
}

fn successful_pairing_scenario() {
    let (mut inviter, mut joiner) = coordinators();
    let (credential, reciprocal) = run_to_persistence(&mut inviter, &mut joiner);
    assert_eq!(credential, JOINER_CREDENTIAL);
    assert_eq!(reciprocal, 0x1b);
    assert_eq!(joiner.accepted_credential(), Some(JOINER_CREDENTIAL));
    let done: Result<(), Failure> = inviter.mark_persisted();
    done.unwrap();
    let done: Result<(), Failure> = joiner.mark_persisted();
    done.unwrap();
    assert_eq!(inviter.state(), ProductPairingState::Complete);
    assert_eq!(joiner.state(), ProductPairingState::Complete);
}

#[test]
fn pairing_successful_pairing_persists_both_sides_and_reconstructs_trust() {
    successful_pairing_scenario();
}

#[test]
fn tests_successful_pairing_persists_both_sides_and_reconstructs_trust() {
    successful_pairing_scenario();
}

fn scanned_bootstrap_scenario() {
    let (_, mut joiner) = coordinators();
    let substituted = PairingHelloSummary {
        device_id: [0xee; 32],
        ..inviter_summary()
    };
    let result: Result<u32, Failure> = joiner.accept_inviter_hello(substituted, |_secret| Ok((2000, 20)));
    assert_eq!(result, Err(ProductPairingError::BootstrapPeerMismatch));
    assert_eq!(joiner.state(), ProductPairingState::Failed);
}

#[test]
fn pairing_scanned_bootstrap_binds_joiner_to_the_inviter_device() {
    scanned_bootstrap_scenario();
}

#[test]
fn tests_scanned_bootstrap_binds_joiner_to_the_inviter_device() {
    scanned_bootstrap_scenario();
}

fn replayed_confirmation_scenario() {
    let (mut inviter, mut joiner) = coordinators();
    let accepted: Result<(), Failure> = inviter.accept_joiner_hello(|invitation| Ok(invitation as u32));
    accepted.unwrap();
    let confirmation: Result<u32, Failure> =
        joiner.accept_inviter_hello(inviter_summary(), |_secret| Ok((2000, 20)));
    let confirmation = confirmation.unwrap();
    let first: Result<u32, Failure> = inviter.verify_joiner_confirmation(|flow| (flow, Ok(confirmation)));
    first.unwrap();
    let replay: Result<u32, Failure> = inviter.verify_joiner_confirmation(|flow| (flow, Ok(confirmation)));
    assert_eq!(replay, Err(ProductPairingError::InvalidState));
    assert_eq!(inviter.state(), ProductPairingState::Failed);
}

#[test]
fn pairing_replayed_confirmation_fails_the_in_progress_product_pairing() {
    replayed_confirmation_scenario();
}

#[test]
fn tests_replayed_confirmation_fails_the_in_progress_product_pairing() {
    replayed_confirmation_scenario();
}

fn forged_final_proof_scenario() {
    let (mut inviter, mut joiner) = coordinators();
    hello_exchange(&mut inviter, &mut joiner);
    issue_and_accept(&mut inviter, &mut joiner);
    let result: Result<_, Failure> = inviter.verify_credential_acceptance(
        Ok::<u16, ()>(0x1e),
        |flow, _issued, _id| -> (u32, Result<(u16, u8, u16), &'static str>) {
            (flow, Err("InvalidCredentialAcceptance"))
        },
    );
    assert_eq!(
        result.map(|_| ()),
        Err(ProductPairingError::Flow("InvalidCredentialAcceptance"))
    );
    assert_eq!(inviter.state(), ProductPairingState::Failed);
}

#[test]
fn pairing_forged_final_proof_cannot_reach_persistence() {
    forged_final_proof_scenario();
}

#[test]
fn tests_forged_final_proof_cannot_reach_persistence() {
    forged_final_proof_scenario();
}

fn persistence_failure_scenario() {
    let (mut inviter, mut joiner) = coordinators();
    run_to_persistence(&mut inviter, &mut joiner);
    let failed: Result<(), Failure> = inviter.persistence_failed();
    failed.unwrap();
    let failed: Result<(), Failure> = joiner.persistence_failed();
    failed.unwrap();
    assert_eq!(inviter.state(), ProductPairingState::Failed);
    assert_eq!(joiner.state(), ProductPairingState::Failed);
    let late: Result<(), Failure> = inviter.mark_persisted();
    assert_eq!(late, Err(ProductPairingError::InvalidState));
    let late: Result<(), Failure> = joiner.mark_persisted();
    assert_eq!(late, Err(ProductPairingError::InvalidState));
}

#[test]
fn pairing_persistence_failure_is_terminal() {
    persistence_failure_scenario();
}

#[test]
fn tests_persistence_failure_is_terminal() {
    persistence_failure_scenario();
}

fn unrelated_evidence_scenario() {
    let (mut inviter, mut joiner) = coordinators();
    hello_exchange(&mut inviter, &mut joiner);
    issue_and_accept(&mut inviter, &mut joiner);
    let completion: Result<_, Failure> = inviter.verify_credential_acceptance(
        Ok::<u16, ()>(0x1b),
        |flow, issued, id| (flow, Ok((0x1000 + issued as u16, TRUSTED, id))),
    );
    completion.unwrap();
    let unrelated = ProductPairingTrustBundle::new(INVITER_CREDENTIAL, 0x1cu16);
    let result: Result<_, Failure> = joiner.accept_inviter_trust(unrelated, |flow, _credential, transition| {
        let out: Result<u8, &'static str> = if transition == 0x1b {
            Ok(TRUSTED)
        } else {
            Err("InvalidPeerTrustEvidence")
        };
        (flow, out)
    });
    assert_eq!(result.map(|_| ()), Err(ProductPairingError::Flow("InvalidPeerTrustEvidence")));
    assert_eq!(joiner.state(), ProductPairingState::Failed);
}

#[test]
fn pairing_joiner_rejects_peer_trust_from_another_pairing_evidence() {
    unrelated_evidence_scenario();
}

#[test]
fn tests_joiner_rejects_peer_trust_from_another_pairing_evidence() {
    unrelated_evidence_scenario();
}

fn cancellation_scenario() {
    let (mut inviter, mut joiner) = coordinators();
    let cancelled: Result<(), Failure> = inviter.cancel();
    cancelled.unwrap();
    let cancelled: Result<(), Failure> = joiner.cancel();
    cancelled.unwrap();
    assert_eq!(inviter.state(), ProductPairingState::Cancelled);
    assert_eq!(joiner.state(), ProductPairingState::Cancelled);
    assert_eq!(joiner.accepted_credential(), None);
    let late: Result<(), Failure> = inviter.accept_joiner_hello(|invitation| Ok(invitation as u32));
    assert_eq!(late, Err(ProductPairingError::InvalidState));
}

#[test]
fn pairing_cancellation_drops_uncommitted_pairing_state() {
    cancellation_scenario();
}

#[test]
fn tests_cancellation_drops_uncommitted_pairing_state() {
    cancellation_scenario();
}

#[test]
fn inviter_refuses_an_invitation_for_another_identity() {
    let other_owner: Result<Inviter, Failure> = Inviter::new(
        INVITATION,
        [0x20; 32],
        INVITER_DEVICE,
        INVITER_CREDENTIAL,
        OWNER_ID,
        INVITER_DEVICE,
        Ok(()),
        INVITER_HELLO,
    );
    assert!(matches!(other_owner, Err(ProductPairingError::LocalIdentityMismatch)));
    let other_device: Result<Inviter, Failure> = Inviter::new(
        INVITATION,
        OWNER_ID,
        JOINER_DEVICE,
        INVITER_CREDENTIAL,
        OWNER_ID,
        INVITER_DEVICE,
        Ok(()),
        INVITER_HELLO,
    );
    assert!(matches!(other_device, Err(ProductPairingError::LocalIdentityMismatch)));
    let unverified: Result<Inviter, Failure> = Inviter::new(
        INVITATION,
        OWNER_ID,
        INVITER_DEVICE,
        INVITER_CREDENTIAL,
        OWNER_ID,
        INVITER_DEVICE,
        Err("CredentialEpochMismatch"),
        INVITER_HELLO,
    );
    assert!(matches!(unverified, Err(ProductPairingError::Identity("CredentialEpochMismatch"))));
}

#[test]
fn joiner_cannot_join_its_own_invitation() {
    let result: Result<Joiner, Failure> = Joiner::new(binding(), [0x16; 32], INVITER_DEVICE, JOINER_HELLO);
    assert!(matches!(result, Err(ProductPairingError::LocalIdentityMismatch)));
}

#[test]
fn cancelling_a_finished_pairing_is_refused_and_keeps_its_state() {
    let (mut inviter, mut joiner) = coordinators();
    run_to_persistence(&mut inviter, &mut joiner);
    let done: Result<(), Failure> = inviter.mark_persisted();
    done.unwrap();
    let late: Result<(), Failure> = inviter.cancel();
    assert_eq!(late, Err(ProductPairingError::InvalidState));
    assert_eq!(inviter.state(), ProductPairingState::Complete);
}

#[test]
fn missing_randomness_leaves_the_pairing_waiting() {
    let (mut inviter, mut joiner) = coordinators();
    hello_exchange(&mut inviter, &mut joiner);
    issue_and_accept(&mut inviter, &mut joiner);
    let result: Result<_, Failure> = inviter.verify_credential_acceptance(
        Err::<u16, ()>(()),
        |flow, issued, id| (flow, Ok((issued as u16, TRUSTED, id))),
    );
    assert_eq!(result.map(|_| ()), Err(ProductPairingError::Random));
    assert_eq!(inviter.state(), ProductPairingState::AwaitingCredentialAcceptance);
}

#[test]
fn missing_device_signing_delegation_fails_the_joiner() {
    let (mut inviter, mut joiner) = coordinators();
    hello_exchange(&mut inviter, &mut joiner);
    let credential: Result<u64, Failure> = inviter.issue_joiner_credential(|flow| (flow, Ok(JOINER_CREDENTIAL)));
    let result: Result<u32, Failure> =
        joiner.accept_credential(OWNER_ROOT, Err("MissingDelegation"), credential.unwrap(), |flow| (flow, Ok(30)));
    assert_eq!(result, Err(ProductPairingError::Identity("MissingDelegation")));
    assert_eq!(joiner.state(), ProductPairingState::Failed);
    assert_eq!(joiner.accepted_credential(), None);
}
