use sas_verification::{
    Account, CancelCode, CancelContent, Created, Device, DoneContent, FlowId, InboundContent,
    OutgoingContent, SasFlow, SasState, ShortAuthenticationString, Stage, Started,
};

fn account(user: &str, device: &str, key: &str) -> Account {
    Account { user_id: user.to_string(), device_id: device.to_string(), ed25519_key: key.to_string() }
}

fn device(a: &Account) -> Device {
    Device {
        user_id: a.user_id.clone(),
        device_id: a.device_id.clone(),
        ed25519_key: a.ed25519_key.clone(),
        curve25519_key: "curve".to_string(),
    }
}

fn alice() -> Account {
    account("@alice:example.org", "JLAFKJWSCS", "aliceEd25519")
}

fn bob() -> Account {
    account("@bob:example.org", "BOBDEVCIE", "bobEd25519")
}

fn inbound(out: Option<OutgoingContent>) -> InboundContent {
    match out {
        Some(OutgoingContent::Accept(c)) => InboundContent::Accept(c),
        Some(OutgoingContent::Key(c)) => InboundContent::Key(c),
        Some(OutgoingContent::Mac(c)) => InboundContent::Mac(c),
        Some(OutgoingContent::Done(c)) => InboundContent::Done(c),
        Some(OutgoingContent::Cancel(c)) => InboundContent::Cancel(c),
        _ => panic!("no message to deliver"),
    }
}

fn pair(from_request: bool) -> (SasFlow, SasFlow) {
    let flow = if from_request {
        FlowId::InRoom("!room:example.org".to_string(), "$req".to_string())
    } else {
        FlowId::ToDevice("txn".to_string())
    };
    let a = SasState::<Created>::new(alice(), device(&bob()), None, None, flow.clone(), from_request, 0);
    let start = a.as_content();
    let b = match SasState::<Started>::from_start_event(
        bob(),
        device(&alice()),
        None,
        None,
        flow,
        &start,
        from_request,
        0,
    ) {
        Ok(b) => b,
        Err(_) => panic!("start refused"),
    };
    (SasFlow::Created(a), SasFlow::Started(b))
}

#[test]
fn full_flow_through_dispatch() {
    let (a, b) = pair(false);
    let (b, out) = b.accept(vec![ShortAuthenticationString::Emoji]);
    assert_eq!(b.stage(), Stage::WeAccepted);
    let (a, out) = a.receive("@bob:example.org", inbound(out), 1);
    assert_eq!(a.stage(), Stage::Accepted);
    let (b, out) = b.receive("@alice:example.org", inbound(out), 2);
    assert_eq!(b.stage(), Stage::KeyReceived);
    let (a, out) = a.receive("@bob:example.org", inbound(out), 3);
    assert_eq!(a.stage(), Stage::KeyReceived);
    assert!(out.is_none());
    let (b, out) = b.confirm();
    assert_eq!(b.stage(), Stage::Confirmed);
    let (a, none) = a.receive("@bob:example.org", inbound(out), 4);
    assert!(none.is_none());
    assert_eq!(a.stage(), Stage::MacReceived);
    let (a, out) = a.confirm();
    assert_eq!(a.stage(), Stage::Done);
    let (b, _) = b.receive("@alice:example.org", inbound(out), 5);
    assert_eq!(b.stage(), Stage::Done);
}

#[test]
fn request_flow_ends_with_done_message() {
    let (a, b) = pair(true);
    let (b, out) = b.accept(vec![]);
    let (a, out) = a.receive("@bob:example.org", inbound(out), 1);
    let (b, out) = b.receive("@alice:example.org", inbound(out), 2);
    let (a, _) = a.receive("@bob:example.org", inbound(out), 3);
    let (a, a_mac) = a.confirm();
    let (b, b_mac) = b.confirm();
    let (a, a_done) = a.receive("@bob:example.org", inbound(b_mac), 4);
    assert_eq!(a.stage(), Stage::WaitingForDone);
    let (b, _) = b.receive("@alice:example.org", inbound(a_mac), 4);
    assert_eq!(b.stage(), Stage::WaitingForDone);
    let (b, _) = b.receive("@alice:example.org", inbound(a_done), 5);
    assert_eq!(b.stage(), Stage::Done);
    let done = InboundContent::Done(DoneContent { flow_id: FlowId::InRoom("!room:example.org".to_string(), "$req".to_string()) });
    let (a, _) = a.receive("@bob:example.org", done, 5);
    assert_eq!(a.stage(), Stage::Done);
}

#[test]
fn unexpected_message_cancels() {
    let (a, _b) = pair(false);
    let done = InboundContent::Done(DoneContent { flow_id: FlowId::ToDevice("txn".to_string()) });
    let (a, out) = a.receive("@bob:example.org", done, 1);
    assert_eq!(a.stage(), Stage::Cancelled);
    match out {
        Some(OutgoingContent::Cancel(c)) => assert_eq!(c.code, CancelCode::UnexpectedMessage),
        _ => panic!("no cancel message"),
    }
}

#[test]
fn cancel_from_other_side_ends_flow() {
    let (a, _b) = pair(false);
    let cancel = InboundContent::Cancel(CancelContent {
        flow_id: FlowId::ToDevice("txn".to_string()),
        code: CancelCode::User,
        reason: "no".to_string(),
    });
    let (a, out) = a.receive("@bob:example.org", cancel, 1);
    assert!(out.is_none());
    match a {
        SasFlow::Cancelled(s) => {
            assert!(!s.state.cancelled_by_us);
            assert_eq!(s.state.cancel_code, CancelCode::User);
        },
        _ => panic!("not cancelled"),
    }
}

#[test]
fn finished_flow_ignores_messages() {
    let (a, _b) = pair(false);
    let (a, out) = a.cancel();
    assert!(matches!(out, Some(OutgoingContent::Cancel(_))));
    let done = InboundContent::Done(DoneContent { flow_id: FlowId::ToDevice("txn".to_string()) });
    let (a, out) = a.receive("@bob:example.org", done, 2);
    assert!(out.is_none());
    assert_eq!(a.stage(), Stage::Cancelled);
}

#[test]
fn late_event_times_out_through_dispatch() {
    let (a, b) = pair(false);
    let (_b, out) = b.accept(vec![]);
    assert!(a.timed_out(sas_verification::sas_state::MAX_AGE + 1));
    let (a, out) = a.receive("@bob:example.org", inbound(out), sas_verification::sas_state::MAX_AGE + 1);
    assert_eq!(a.stage(), Stage::Cancelled);
    match out {
        Some(OutgoingContent::Cancel(c)) => assert_eq!(c.code, CancelCode::Timeout),
        _ => panic!("no cancel message"),
    }
}
