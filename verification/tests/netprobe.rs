use crosslab_runtime::bootstrap::{require_active, BootstrapError};
use crosslab_runtime::error::EvalError;
use crosslab_runtime::node::SessionState;
use crosslab_runtime::record::{declared_length, record_prefix};
use crosslab_runtime::rendezvous::Rendezvous;

fn sample(relay: Option<&str>, ip: Option<&str>) -> Rendezvous {
    Rendezvous::new(
        "3f1c9a0d7e".to_owned(),
        relay.map(|r| r.to_owned()),
        ip.map(|i| i.to_owned()),
    )
}

#[test]
fn rendezvous_text_lists_three_keyed_lines() {
    let r = sample(Some("http://172.30.90.1:3340/"), None);
    assert_eq!(
        r.to_text(),
        "endpoint_id=3f1c9a0d7e\nrelay_url=http://172.30.90.1:3340/\nip=-\n"
    );
    let both_absent = sample(None, None);
    assert_eq!(both_absent.to_text(), "endpoint_id=3f1c9a0d7e\nrelay_url=-\nip=-\n");
}

#[test]
fn rendezvous_round_trips_through_its_text() {
    for r in [
        sample(None, None),
        sample(Some("http://172.30.90.1:3340/"), None),
        sample(None, Some("10.90.1.2:4433")),
        sample(Some("https://relay.example/"), Some("[::1]:7000")),
    ] {
        assert_eq!(Rendezvous::parse(&r.to_text()), Ok(r));
    }
}

#[test]
fn rendezvous_parse_reads_values_and_dashes() {
    let parsed = Rendezvous::parse("endpoint_id=ab=cd\r\nrelay_url=-\nip=127.0.0.1:9").unwrap();
    assert_eq!(parsed.endpoint_id(), "ab=cd");
    assert_eq!(parsed.relay_url(), None);
    assert_eq!(parsed.ip(), Some("127.0.0.1:9"));
}

#[test]
fn rendezvous_parse_refuses_malformed_text() {
    for text in [
        "",
        "endpoint_id=a\nrelay_url=-\n",
        "endpoint_id=a\nrelay_url=-\nip=-\nextra=1\n",
        "endpoint_id=a\nrelay_url=-\nip=-\n\n",
        "endpoint_id=\nrelay_url=-\nip=-\n",
        "endpoint=a\nrelay_url=-\nip=-\n",
        "endpoint_id a\nrelay_url=-\nip=-\n",
        "relay_url=-\nendpoint_id=a\nip=-\n",
        "endpoint_id=a\nrelay_url=\nip=-\n",
    ] {
        assert_eq!(Rendezvous::parse(text), Err(EvalError::InvalidValue), "{text:?}");
    }
}

#[test]
fn bootstrap_promotes_only_active_sessions() {
    assert_eq!(require_active(SessionState::Active, SessionState::Active), Ok(()));
    assert_eq!(
        require_active(SessionState::Active, SessionState::Authenticating),
        Err(BootstrapError::SessionNotActive)
    );
    assert_eq!(
        require_active(SessionState::Closed, SessionState::Active),
        Err(BootstrapError::SessionNotActive)
    );
}

#[test]
fn record_prefix_is_big_endian_length_within_limit() {
    assert_eq!(record_prefix(8, 8), Ok([0, 0, 0, 8]));
    assert_eq!(record_prefix(0, 8), Err(EvalError::Control));
    assert_eq!(record_prefix(9, 8), Err(EvalError::Control));
    assert_eq!(record_prefix(0x0102_0304, usize::MAX), Ok([1, 2, 3, 4]));
    assert_eq!(declared_length(9_u32.to_be_bytes(), 8), Err(EvalError::Control));
    assert_eq!(declared_length([0, 0, 0, 0], 8), Err(EvalError::Control));
    assert_eq!(declared_length([0, 0, 1, 0], 1000), Ok(256));
    for len in [1usize, 255, 256, 70_000, 16_777_216, 0xffff_ffff] {
        let prefix = record_prefix(len, usize::MAX).unwrap();
        assert_eq!(prefix, (len as u32).to_be_bytes());
        assert_eq!(declared_length(prefix, usize::MAX), Ok(len));
    }
}
