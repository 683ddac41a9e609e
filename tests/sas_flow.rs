use sas_verification::sas_state::{MAX_AGE, MAX_EVENT_TIMEOUT};
use sas_verification::{
    AcceptContent, AcceptMethod, Accepted, Account, CancelCode, Cancelled, Created, Device,
    FlowId, KeyContent, KeyReceived, MacContent, SasState, ShortAuthenticationString,
    StartMethod, Started, UserIdentity, WeAccepted,
};

fn alice_account() -> Account {
    Account {
        user_id: "@alice:example.org".to_string(),
        device_id: "JLAFKJWSCS".to_string(),
        ed25519_key: "qbqI7XvUqJdymYzZ8U0bP0UoFVMkrgE3Qd2KQxvwUVE".to_string(),
    }
}

fn bob_account() -> Account {
    Account {
        user_id: "@bob:example.org".to_string(),
        device_id: "BOBDEVCIE".to_string(),
        ed25519_key: "Eb1YyR7vjqpMqSqOjnaf2xvkhMYGC9vlRu3RBOIGs1o".to_string(),
    }
}

fn device_of(account: &Account) -> Device {
    Device {
        user_id: account.user_id.clone(),
        device_id: account.device_id.clone(),
        ed25519_key: account.ed25519_key.clone(),
        curve25519_key: "Xo/yQKMzQfMSsT8b9y+tnlkVbL2zTc0+fzQf0yVqmS0".to_string(),
    }
}

fn ok<T, E>(r: Result<T, E>) -> T {
    match r {
        Ok(t) => t,
        Err(_) => panic!("the transition was cancelled"),
    }
}

fn cancelled<T>(r: Result<T, SasState<Cancelled>>) -> SasState<Cancelled> {
    match r {
        Ok(_) => panic!("the transition went through"),
        Err(c) => c,
    }
}

fn sas_pair() -> (SasState<Created>, SasState<WeAccepted>) {
    let alice = SasState::<Created>::new(
        alice_account(),
        device_of(&bob_account()),
        None,
        None,
        FlowId::ToDevice("txn-1".to_string()),
        false,
        0,
    );
    let start = alice.as_content();
    let bob = ok(SasState::<Started>::from_start_event(
        bob_account(),
        device_of(&alice_account()),
        None,
        None,
        start.flow_id.clone(),
        &start,
        false,
        0,
    ));
    let bob = bob.into_we_accepted(vec![ShortAuthenticationString::Emoji]);
    (alice, bob)
}

fn key_exchange() -> (SasState<KeyReceived>, SasState<KeyReceived>) {
    let (alice, bob) = sas_pair();
    let accept = bob.as_content();
    let alice: SasState<Accepted> = ok(alice.into_accepted("@bob:example.org", &accept, 1));
    let key = alice.as_content();
    let bob = ok(bob.into_key_received("@alice:example.org", &key, 2));
    let key = bob.as_content();
    let alice = ok(alice.into_key_received("@bob:example.org", &key, 3));
    (alice, bob)
}

#[test]
fn create_sas() {
    let (alice, bob) = sas_pair();
    assert_eq!(alice.our_public_key.len(), 32);
    assert_eq!(bob.our_public_key.len(), 32);
    assert!(!bob.state.we_started);
    assert_eq!(
        bob.state.accepted_protocols.short_auth_string.len(),
        2,
        "decimal is added to the kinds the user offered"
    );
}

#[test]
fn sas_accept() {
    let (alice, bob) = sas_pair();
    let content = bob.as_content();
    let alice = ok(alice.into_accepted("@bob:example.org", &content, 1));
    assert_eq!(alice.last_event_time, 1);
    assert_eq!(alice.creation_time, 0);
    match &content.method {
        AcceptMethod::SasV1(c) => assert_eq!(alice.state.commitment, c.commitment),
        AcceptMethod::Other(_) => panic!("not a SAS accept"),
    }
}

#[test]
fn sas_key_share() {
    let (alice, bob) = key_exchange();
    assert!(alice.state.we_started);
    assert!(!bob.state.we_started);
    assert_eq!(alice.get_decimal(), bob.get_decimal());
    assert_eq!(alice.get_emoji_index(), bob.get_emoji_index());
    assert_eq!(alice.get_emoji(), bob.get_emoji());
}

#[test]
fn sas_full() {
    let (alice, bob) = key_exchange();
    assert_eq!(alice.get_decimal(), bob.get_decimal());
    assert_eq!(alice.get_emoji(), bob.get_emoji());
    let emoji = alice.get_emoji_index();
    assert_eq!(emoji.len(), 7);
    assert!(emoji.iter().all(|i| *i < 64));
    let (d1, d2, d3) = bob.get_decimal();
    for d in [d1, d2, d3] {
        assert!((1000..=9191).contains(&d));
    }

    let bob_decimals = bob.get_decimal();
    let bob = bob.confirm();
    let content = bob.as_content();
    let alice = ok(alice.into_mac_received("@bob:example.org", &content, 4));
    assert_eq!(alice.get_emoji().len(), 7);
    assert_eq!(alice.get_decimal(), bob_decimals);
    let alice = alice.confirm();

    let content = alice.as_content();
    let bob = ok(bob.into_done("@alice:example.org", &content, 5));

    assert!(bob.verified_devices().contains(&bob.other_device()));
    assert!(alice.verified_devices().contains(&alice.other_device()));
    assert!(bob.verified_identities().is_empty());
}

#[test]
fn sas_invalid_commitment() {
    let (alice, bob) = sas_pair();
    let mut content = bob.as_content();
    match &mut content.method {
        AcceptMethod::SasV1(c) => c.commitment = String::new(),
        AcceptMethod::Other(_) => panic!("not a SAS accept"),
    }
    let alice = ok(alice.into_accepted("@bob:example.org", &content, 1));
    let key = alice.as_content();
    let bob = ok(bob.into_key_received("@alice:example.org", &key, 2));
    let key = bob.as_content();
    let c = cancelled(alice.into_key_received("@bob:example.org", &key, 3));
    assert_eq!(c.state.cancel_code, CancelCode::InvalidMessage);
    assert!(c.state.cancelled_by_us);
}

#[test]
fn sas_invalid_sender() {
    let (alice, bob) = sas_pair();
    let content = bob.as_content();
    let c = cancelled(alice.into_accepted("@malory:example.org", &content, 1));
    assert_eq!(c.state.cancel_code, CancelCode::UserMismatch);
}

#[test]
fn sas_unknown_sas_method() {
    let (alice, bob) = sas_pair();
    let mut content = bob.as_content();
    match &mut content.method {
        AcceptMethod::SasV1(c) => c.short_authentication_string = vec![],
        AcceptMethod::Other(_) => panic!("not a SAS accept"),
    }
    let c = cancelled(alice.into_accepted("@bob:example.org", &content, 1));
    assert_eq!(c.state.cancel_code, CancelCode::UnknownMethod);
}

#[test]
fn sas_unknown_method() {
    let (alice, _bob) = sas_pair();
    let content = AcceptContent {
        flow_id: FlowId::ToDevice("txn-1".to_string()),
        method: AcceptMethod::Other("m.sas.custom".to_string()),
    };
    let c = cancelled(alice.into_accepted("@bob:example.org", &content, 1));
    assert_eq!(c.state.cancel_code, CancelCode::UnknownMethod);
}

#[test]
fn sas_unknown_transaction() {
    let (alice, bob) = sas_pair();
    let mut content = bob.as_content();
    content.flow_id = FlowId::ToDevice("some_id".to_string());
    let c = cancelled(alice.into_accepted("@bob:example.org", &content, 1));
    assert_eq!(c.state.cancel_code, CancelCode::UnknownTransaction);
}

#[test]
fn sas_from_start_unknown_method() {
    let alice = SasState::<Created>::new(
        alice_account(),
        device_of(&bob_account()),
        None,
        None,
        FlowId::ToDevice("txn-2".to_string()),
        false,
        0,
    );
    let mut start = alice.as_content();
    match &mut start.method {
        StartMethod::SasV1(c) => c.message_authentication_codes = vec![],
        StartMethod::Other(_) => panic!("not a SAS start"),
    }
    let c = cancelled(SasState::<Started>::from_start_event(
        bob_account(),
        device_of(&alice_account()),
        None,
        None,
        start.flow_id.clone(),
        &start,
        false,
        0,
    ));
    assert_eq!(c.state.cancel_code, CancelCode::UnknownMethod);

    start.method = StartMethod::Other("m.sas.custom".to_string());
    start.from_device = "DEVICEID".to_string();
    let c = cancelled(SasState::<Started>::from_start_event(
        bob_account(),
        device_of(&alice_account()),
        None,
        None,
        FlowId::ToDevice("some_id".to_string()),
        &start,
        false,
        0,
    ));
    assert_eq!(c.state.cancel_code, CancelCode::UnknownMethod);
}

#[test]
fn timeout_after_max_age_cancels() {
    let (mut alice, bob) = sas_pair();
    let content = bob.as_content();
    let now = 10 * MAX_AGE;
    // The last event was just now, but the flow began long ago.
    alice.last_event_time = now;
    alice.set_creation_time(now - MAX_AGE);
    assert!(!alice.timed_out(now));
    alice.set_creation_time(now - MAX_AGE - 1);
    assert!(alice.timed_out(now));
    let c = cancelled(alice.into_accepted("@bob:example.org", &content, now));
    assert_eq!(c.state.cancel_code, CancelCode::Timeout);
}

#[test]
fn timeout_between_events_cancels() {
    let (alice, bob) = sas_pair();
    let content = bob.as_content();
    let alice = ok(alice.into_accepted("@bob:example.org", &content, 1000));
    let key = alice.as_content();
    let bob = ok(bob.into_key_received("@alice:example.org", &key, 1000));
    let key = bob.as_content();
    let c = cancelled(alice.into_key_received("@bob:example.org", &key, 1000 + MAX_EVENT_TIMEOUT + 1));
    assert_eq!(c.state.cancel_code, CancelCode::Timeout);
}

#[test]
fn timeout_check_comes_after_flow_and_sender() {
    let (alice, bob) = sas_pair();
    let content = bob.as_content();
    let c = cancelled(alice.into_accepted("@malory:example.org", &content, MAX_AGE + 1));
    assert_eq!(c.state.cancel_code, CancelCode::UserMismatch);
}

#[test]
fn invalid_key_length_is_invalid_message() {
    let (alice, bob) = sas_pair();
    let content = bob.as_content();
    let alice = ok(alice.into_accepted("@bob:example.org", &content, 1));
    let key = KeyContent { flow_id: FlowId::ToDevice("txn-1".to_string()), key: vec![1u8; 31] };
    let c = cancelled(alice.into_key_received("@bob:example.org", &key, 2));
    assert_eq!(c.state.cancel_code, CancelCode::InvalidMessage);
}

#[test]
fn key_from_other_device_fails_commitment() {
    let (alice, bob) = sas_pair();
    let content = bob.as_content();
    let alice = ok(alice.into_accepted("@bob:example.org", &content, 1));
    let key = KeyContent { flow_id: FlowId::ToDevice("txn-1".to_string()), key: vec![9u8; 32] };
    let c = cancelled(alice.into_key_received("@bob:example.org", &key, 2));
    assert_eq!(c.state.cancel_code, CancelCode::InvalidMessage);
}

fn flip_first_mac(content: &mut MacContent) {
    let mac = &mut content.mac[0].1;
    let mut bytes = mac.clone().into_bytes();
    bytes[0] = if bytes[0] == b'A' { b'B' } else { b'A' };
    *mac = String::from_utf8(bytes).unwrap();
}

#[test]
fn forged_key_mac_is_rejected() {
    let (alice, bob) = key_exchange();
    let bob = bob.confirm();
    let mut content = bob.as_content();
    flip_first_mac(&mut content);
    let c = cancelled(alice.into_mac_received("@bob:example.org", &content, 4));
    assert_eq!(c.state.cancel_code, CancelCode::KeyMismatch);
}

#[test]
fn forged_key_ids_mac_is_rejected() {
    let (alice, bob) = key_exchange();
    let bob = bob.confirm();
    let mut content = bob.as_content();
    let mut bytes = content.keys.clone().into_bytes();
    bytes[3] = if bytes[3] == b'z' { b'y' } else { b'z' };
    content.keys = String::from_utf8(bytes).unwrap();
    let c = cancelled(alice.into_mac_received("@bob:example.org", &content, 4));
    assert_eq!(c.state.cancel_code, CancelCode::KeyMismatch);
}

#[test]
fn extra_key_id_breaks_keys_mac() {
    let (alice, bob) = key_exchange();
    let bob = bob.confirm();
    let content = bob.as_content();
    let mut other = MacContent {
        flow_id: content.flow_id.clone(),
        mac: vec![("ed25519:AAAA".to_string(), "AAAA".to_string())],
        keys: content.keys.clone(),
    };
    other.mac.extend(content.mac.clone());
    assert!(other.is_sorted());
    let c = cancelled(alice.into_mac_received("@bob:example.org", &other, 4));
    assert_eq!(c.state.cancel_code, CancelCode::KeyMismatch);
}

#[test]
fn unknown_key_ids_are_skipped() {
    let (alice, bob) = key_exchange();
    let bob = bob.confirm();
    let content = bob.as_content();
    let info = "MATRIX_KEY_VERIFICATION_MAC@bob:example.orgBOBDEVCIE@alice:example.orgJLAFKJWSCStxn-1";
    let keys = bob
        .state
        .sas
        .calculate_mac("ed25519:AAAA,ed25519:BOBDEVCIE", &format!("{info}KEY_IDS"))
        .to_base64();
    let mut other = MacContent {
        flow_id: content.flow_id.clone(),
        mac: vec![("ed25519:AAAA".to_string(), "AAAA".to_string())],
        keys,
    };
    other.mac.extend(content.mac.clone());
    let alice = ok(alice.into_mac_received("@bob:example.org", &other, 4));
    assert_eq!(alice.state.verified_devices, vec![device_of(&bob_account())]);
    assert!(alice.state.verified_master_keys.is_empty());
}

#[test]
fn master_key_mac_verifies_identity() {
    let own = sas_verification::OwnUserIdentity {
        user_id: "@bob:example.org".to_string(),
        master_key: "bobMasterKeyInBase64bobMasterKeyInBase64abc".to_string(),
        verified: true,
    };
    let bob_identity = UserIdentity {
        user_id: "@bob:example.org".to_string(),
        master_key: own.master_key.clone(),
    };
    let alice = SasState::<Created>::new(
        alice_account(),
        device_of(&bob_account()),
        None,
        Some(bob_identity.clone()),
        FlowId::ToDevice("txn-3".to_string()),
        false,
        0,
    );
    let start = alice.as_content();
    let bob = ok(SasState::<Started>::from_start_event(
        bob_account(),
        device_of(&alice_account()),
        Some(own),
        None,
        start.flow_id.clone(),
        &start,
        false,
        0,
    ))
    .into_we_accepted(vec![ShortAuthenticationString::Decimal]);
    let accept = bob.as_content();
    let alice = ok(alice.into_accepted("@bob:example.org", &accept, 1));
    let key = alice.as_content();
    let bob = ok(bob.into_key_received("@alice:example.org", &key, 2));
    let key = bob.as_content();
    let alice = ok(alice.into_key_received("@bob:example.org", &key, 3));
    let bob = bob.confirm();
    let mac = bob.as_content();
    assert_eq!(mac.mac.len(), 2);
    assert!(mac.is_sorted());
    let alice = ok(alice.into_mac_received("@bob:example.org", &mac, 4)).confirm();
    assert_eq!(alice.verified_identities(), vec![bob_identity]);
    assert_eq!(alice.verified_devices(), vec![device_of(&bob_account())]);
}

#[test]
fn in_room_flow_waits_for_done() {
    let flow = FlowId::InRoom("!room:example.org".to_string(), "$request".to_string());
    let alice = SasState::<Created>::new(
        alice_account(),
        device_of(&bob_account()),
        None,
        None,
        flow.clone(),
        true,
        0,
    );
    assert!(alice.is_dm_verification());
    let start = alice.as_content();
    let bob = ok(SasState::<Started>::from_start_event(
        bob_account(),
        device_of(&alice_account()),
        None,
        None,
        flow,
        &start,
        true,
        0,
    ))
    .into_we_accepted(vec![ShortAuthenticationString::Emoji]);
    let accept = bob.as_content();
    let alice = ok(alice.into_accepted("@bob:example.org", &accept, 1));
    let key = alice.as_content();
    let bob = ok(bob.into_key_received("@alice:example.org", &key, 2));
    let key = bob.as_content();
    let alice = ok(alice.into_key_received("@bob:example.org", &key, 3));
    assert_eq!(alice.get_decimal(), bob.get_decimal());

    let bob = bob.confirm();
    let alice = alice.confirm();
    let alice = ok(alice.into_waiting_for_done("@bob:example.org", &bob.as_content(), 4));
    let bob = ok(bob.into_waiting_for_done("@alice:example.org", &alice.as_content(), 4));
    let done = bob.done_content();
    let alice = ok(alice.into_done("@bob:example.org", &done, 5));
    assert_eq!(alice.verified_devices(), vec![device_of(&bob_account())]);
}

#[test]
fn simultaneous_start_goes_on_with_our_flow() {
    let flow = FlowId::ToDevice("txn-4".to_string());
    let alice_created = SasState::<Created>::new(
        alice_account(),
        device_of(&bob_account()),
        None,
        None,
        flow.clone(),
        false,
        0,
    );
    let alice_start = alice_created.as_content();
    let bob_created = SasState::<Created>::new(
        bob_account(),
        device_of(&alice_account()),
        None,
        None,
        flow.clone(),
        false,
        0,
    );
    let bob_start = bob_created.as_content();
    // Each side sees the other's start.
    let alice = ok(SasState::<Started>::from_start_event(
        alice_account(),
        device_of(&bob_account()),
        None,
        None,
        flow.clone(),
        &bob_start,
        false,
        0,
    ));
    let bob = ok(SasState::<Started>::from_start_event(
        bob_account(),
        device_of(&alice_account()),
        None,
        None,
        flow.clone(),
        &alice_start,
        false,
        0,
    ))
    .into_we_accepted(vec![ShortAuthenticationString::Emoji]);
    // Bob accepts Alice's start; Alice goes on with her own flow.
    let accept = bob.as_content();
    let alice = ok(alice.into_accepted("@bob:example.org", &accept, 1));
    let key = alice.as_content();
    let bob = ok(bob.into_key_received("@alice:example.org", &key, 2));
    let key = bob.as_content();
    let alice = ok(alice.into_key_received("@bob:example.org", &key, 3));
    assert!(alice.state.we_started);
    assert!(!bob.state.we_started);
    assert_eq!(alice.get_emoji_index(), bob.get_emoji_index());
}

#[test]
fn cancel_keeps_flow_and_sends_code() {
    let (alice, _bob) = sas_pair();
    let c = alice.cancel(true, CancelCode::User);
    assert!(c.inner.is_none());
    let content = c.as_content();
    assert_eq!(content.code, CancelCode::User);
    assert_eq!(content.code.as_str(), "m.user");
    assert_eq!(content.flow_id.as_str(), "txn-1");
}

#[test]
fn set_creation_time_moves_the_age() {
    let (mut alice, _bob) = sas_pair();
    alice.set_creation_time(10);
    assert_eq!(alice.creation_time, 10);
    assert!(!alice.timed_out(10 + MAX_EVENT_TIMEOUT / 2));
}

#[test]
fn identity_accessors() {
    let (alice, _bob) = sas_pair();
    assert_eq!(alice.user_id(), "@alice:example.org");
    assert_eq!(alice.device_id(), "JLAFKJWSCS");
    assert_eq!(alice.other_device(), device_of(&bob_account()));
    assert!(!alice.is_dm_verification());
}

#[test]
fn key_without_ephemeral_secret_is_unexpected() {
    let (alice, bob) = sas_pair();
    let content = bob.as_content();
    let mut alice = ok(alice.into_accepted("@bob:example.org", &content, 1));
    let key = alice.as_content();
    let bob = ok(bob.into_key_received("@alice:example.org", &key, 2));
    alice.inner = None;
    let c = cancelled(alice.into_key_received("@bob:example.org", &bob.as_content(), 3));
    assert_eq!(c.state.cancel_code, CancelCode::UnexpectedMessage);
}

#[test]
fn unsorted_mac_message_is_invalid() {
    let (alice, bob) = key_exchange();
    let bob = bob.confirm();
    let content = bob.as_content();
    let mut other = MacContent {
        flow_id: content.flow_id.clone(),
        mac: content.mac.clone(),
        keys: content.keys.clone(),
    };
    other.mac.push(("ed25519:AAAA".to_string(), "AAAA".to_string()));
    assert!(!other.is_sorted());
    let c = cancelled(alice.into_mac_received("@bob:example.org", &other, 4));
    assert_eq!(c.state.cancel_code, CancelCode::InvalidMessage);
}

#[test]
fn confirm_keeps_the_established_sas() {
    let (_alice, bob) = key_exchange();
    let before = bob.state.sas.calculate_mac("input", "info").to_base64();
    let bob = bob.confirm();
    assert_eq!(bob.state.sas.calculate_mac("input", "info").to_base64(), before);
}
