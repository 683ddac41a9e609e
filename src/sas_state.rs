use vstd::prelude::*;

use vodozemac::sas::{EstablishedSas, Sas};
use vodozemac::Curve25519PublicKey;

use crate::content::{
    calculate_commitment, canonical_start_json, commitment_of, str_eq, AcceptContent,
    AcceptMethod, DoneContent, KeyContent, MacContent, StartContent, StartMethod,
};
use crate::crypto::{base64_encode, base64_of, sas_bytes, sas_public_key};
use crate::emoji::{emoji_description, emoji_from_index, Emoji};
use crate::flow::{CancelCode, CancelContent, Cancelled, FlowId};
use crate::ids::{ed25519_key_id, Account, Device, OwnUserIdentity, SasIds, UserIdentity};
use crate::mac::{
    follows_verdict, get_mac_content, gives_verdict, mac_info_receive, mac_info_send,
    mac_verdict, macs_proved, our_mac_key_ids, receive_mac_event, their_device_key_id,
};
use crate::protocols::{
    accept_is_supported, contains_decimal, is_standard_choice, is_standard_offer, selected_sas,
    start_is_supported, the_protocol_definitions, AcceptV1Content, AcceptedProtocols,
    SasV1Content, ShortAuthenticationString,
};
use crate::short_auth::{
    decimal_value, decimals, emoji_index, emoji_indices, extra_info_sas, sas_info,
};

verus! {

/// The longest a flow may take from start to done, in milliseconds.
pub const MAX_AGE: u64 = 300000;

/// The longest a flow waits for the next event, in milliseconds.
pub const MAX_EVENT_TIMEOUT: u64 = 60000;

/// The time from `since` to `now`, or zero if `now` is earlier.
pub open spec fn elapsed(since: u64, now: u64) -> int {
    if now >= since {
        now - since
    } else {
        0
    }
}

/// A SAS flow in the state `S`.
///
/// The fields shared by every state sit here; `state` holds what only the
/// current state needs. Each transition consumes the flow and returns it in
/// the next state, or cancelled.
pub struct SasState<S> {
    /// The ephemeral secret, until the Diffie-Hellman exchange consumes it.
    pub inner: Option<Sas>,
    /// The raw bytes of our ephemeral Curve25519 public key.
    pub our_public_key: Vec<u8>,
    /// The parties of the flow.
    pub ids: SasIds,
    /// When the flow was created, in milliseconds of a monotonic clock.
    pub creation_time: u64,
    /// When the flow last accepted an event, in the same clock.
    pub last_event_time: u64,
    pub verification_flow_id: FlowId,
    pub state: S,
    /// Whether the flow began with an `m.key.verification.request`.
    pub started_from_request: bool,
}

/// The initial state when we start the flow.
pub struct Created {
    pub protocol_definitions: SasV1Content,
}

/// The initial state when the other side started the flow.
pub struct Started {
    /// Our commitment to our public key and their start message.
    pub commitment: String,
    pub accepted_protocols: AcceptedProtocols,
}

/// The other side accepted the flow that we started.
pub struct Accepted {
    pub accepted_protocols: AcceptedProtocols,
    /// The start message we sent.
    pub start_content: StartContent,
    /// The other side's commitment to its public key.
    pub commitment: String,
}

/// We accepted the flow that the other side started.
pub struct WeAccepted {
    pub we_started: bool,
    pub accepted_protocols: AcceptedProtocols,
    pub commitment: String,
}

/// We hold the other side's public key: the short string can be shown.
pub struct KeyReceived {
    pub sas: EstablishedSas,
    /// The raw bytes of the other side's ephemeral public key.
    pub their_public_key: Vec<u8>,
    pub we_started: bool,
    pub accepted_protocols: AcceptedProtocols,
}

/// Our user confirmed that the short strings match; the other side's MAC is
/// still to come.
pub struct Confirmed {
    pub sas: EstablishedSas,
    pub accepted_protocols: AcceptedProtocols,
}

/// The other side's MAC arrived; our user has still to confirm.
pub struct MacReceived {
    pub sas: EstablishedSas,
    pub their_public_key: Vec<u8>,
    pub we_started: bool,
    pub verified_devices: Vec<Device>,
    pub verified_master_keys: Vec<UserIdentity>,
    pub accepted_protocols: AcceptedProtocols,
}

/// Both sides confirmed; an in-room flow waits for the other side's done
/// message.
pub struct WaitingForDone {
    pub sas: EstablishedSas,
    pub verified_devices: Vec<Device>,
    pub verified_master_keys: Vec<UserIdentity>,
}

/// The flow ended with success.
pub struct Done {
    pub sas: EstablishedSas,
    pub verified_devices: Vec<Device>,
    pub verified_master_keys: Vec<UserIdentity>,
}

/// Two flows in any states share the fields that never change.
pub open spec fn keeps_flow<S, T>(a: SasState<S>, b: SasState<T>) -> bool {
    &&& a.our_public_key@ == b.our_public_key@
    &&& a.ids == b.ids
    &&& a.creation_time == b.creation_time
    &&& a.verification_flow_id == b.verification_flow_id
    &&& a.started_from_request == b.started_from_request
}

/// A transition cancelled the flow, on our side, with `code`.
pub open spec fn cancelled_with<S>(old: SasState<S>, r: SasState<Cancelled>, code: CancelCode) -> bool {
    &&& keeps_flow(old, r)
    &&& r.last_event_time == old.last_event_time
    &&& r.inner is None
    &&& r.state.cancelled_by_us
    &&& r.state.cancel_code == code
}

fn copy_devices(v: &Vec<Device>) -> (r: Vec<Device>)
    ensures
        r@ == v@,
{
    let mut r: Vec<Device> = Vec::new();
    let mut i: usize = 0;
    while i < v.len()
        invariant
            i <= v@.len(),
            r@ == v@.subrange(0, i as int),
        decreases v@.len() - i,
    {
        r.push(v[i].clone());
        i = i + 1;
    }
    assert(r@ =~= v@);
    r
}

fn copy_identities(v: &Vec<UserIdentity>) -> (r: Vec<UserIdentity>)
    ensures
        r@ == v@,
{
    let mut r: Vec<UserIdentity> = Vec::new();
    let mut i: usize = 0;
    while i < v.len()
        invariant
            i <= v@.len(),
            r@ == v@.subrange(0, i as int),
        decreases v@.len() - i,
    {
        r.push(v[i].clone());
        i = i + 1;
    }
    assert(r@ =~= v@);
    r
}

fn copy_bytes(v: &Vec<u8>) -> (r: Vec<u8>)
    ensures
        r@ == v@,
{
    let mut r: Vec<u8> = Vec::new();
    let mut i: usize = 0;
    while i < v.len()
        invariant
            i <= v@.len(),
            r@ == v@.subrange(0, i as int),
        decreases v@.len() - i,
    {
        r.push(v[i]);
        i = i + 1;
    }
    assert(r@ =~= v@);
    r
}

impl<S> SasState<S> {
    /// Whether the flow is past its age limit or waited too long for an event.
    pub open spec fn timed_out_at(&self, now: u64) -> bool {
        elapsed(self.creation_time, now) > MAX_AGE || elapsed(self.last_event_time, now)
            > MAX_EVENT_TIMEOUT
    }

    /// The checks that every inbound event passes first, in order: the flow
    /// id, the sender, the clock. `None` when all pass.
    pub open spec fn event_check(&self, sender: Seq<char>, flow_id: Seq<char>, now: u64) -> Option<
        CancelCode,
    > {
        if flow_id != self.verification_flow_id.spec_str() {
            Some(CancelCode::UnknownTransaction)
        } else if sender != self.ids.other_device.user_id@ {
            Some(CancelCode::UserMismatch)
        } else if self.timed_out_at(now) {
            Some(CancelCode::Timeout)
        } else {
            None
        }
    }

    /// Our own user id.
    pub fn user_id(&self) -> (r: &str)
        ensures
            r@ == self.ids.account.user_id@,
    {
        self.ids.account.user_id.as_str()
    }

    /// Our own device id.
    pub fn device_id(&self) -> (r: &str)
        ensures
            r@ == self.ids.account.device_id@,
    {
        self.ids.account.device_id.as_str()
    }

    /// The device we are verifying.
    pub fn other_device(&self) -> (r: Device)
        ensures
            r == self.ids.other_device,
    {
        self.ids.other_device.clone()
    }

    /// Cancels the flow. The ephemeral secret, if still held, is dropped.
    pub fn cancel(self, cancelled_by_us: bool, cancel_code: CancelCode) -> (r: SasState<Cancelled>)
        ensures
            keeps_flow(self, r),
            r.last_event_time == self.last_event_time,
            r.inner is None,
            r.state.cancelled_by_us == cancelled_by_us,
            r.state.cancel_code == cancel_code,
    {
        SasState {
            inner: None,
            our_public_key: self.our_public_key,
            ids: self.ids,
            creation_time: self.creation_time,
            last_event_time: self.last_event_time,
            verification_flow_id: self.verification_flow_id,
            state: Cancelled::new(cancelled_by_us, cancel_code),
            started_from_request: self.started_from_request,
        }
    }

    /// Whether the flow timed out at the time `now`.
    pub fn timed_out(&self, now: u64) -> (r: bool)
        ensures
            r == self.timed_out_at(now),
    {
        let age = if now >= self.creation_time {
            now - self.creation_time
        } else {
            0
        };
        let idle = if now >= self.last_event_time {
            now - self.last_event_time
        } else {
            0
        };
        age > MAX_AGE || idle > MAX_EVENT_TIMEOUT
    }

    /// Whether the flow runs in a room rather than over to-device messages.
    pub fn is_dm_verification(&self) -> (r: bool)
        ensures
            r == (self.verification_flow_id is InRoom),
    {
        self.verification_flow_id.is_in_room()
    }

    /// Moves the creation time, as a test clock would.
    pub fn set_creation_time(&mut self, time: u64)
        ensures
            final(self).creation_time == time,
            final(self).last_event_time == old(self).last_event_time,
            final(self).ids == old(self).ids,
            final(self).verification_flow_id == old(self).verification_flow_id,
            final(self).started_from_request == old(self).started_from_request,
            final(self).our_public_key@ == old(self).our_public_key@,
    {
        self.creation_time = time;
    }

    /// Runs the checks that every inbound event passes first.
    fn check_event(&self, sender: &str, flow_id: &str, now: u64) -> (r: Result<(), CancelCode>)
        ensures
            r is Err <==> self.event_check(sender@, flow_id@, now) is Some,
            r is Err ==> r->Err_0 == self.event_check(sender@, flow_id@, now)->Some_0,
    {
        if !str_eq(flow_id, self.verification_flow_id.as_str()) {
            Err(CancelCode::UnknownTransaction)
        } else if !str_eq(sender, self.ids.other_device.user_id.as_str()) {
            Err(CancelCode::UserMismatch)
        } else if self.timed_out(now) {
            Err(CancelCode::Timeout)
        } else {
            Ok(())
        }
    }
}

/// A start message of ours: our device, the flow's binding, and an offer of
/// the SAS method.
pub open spec fn is_start_of<S>(c: StartContent, s: SasState<S>) -> bool {
    &&& c.from_device@ == s.ids.account.device_id@
    &&& c.flow_id == s.verification_flow_id
    &&& c.method is SasV1
}

/// Why an accept message cancels the flow, if it does: the common checks
/// first, then the method and the protocols it chose.
pub open spec fn accept_failure<S>(
    s: SasState<S>,
    sender: Seq<char>,
    content: AcceptContent,
    now: u64,
) -> Option<CancelCode> {
    let check = s.event_check(sender, content.flow_id.spec_str(), now);
    if check is Some {
        check
    } else {
        match content.method {
            AcceptMethod::SasV1(c) => if accept_is_supported(c) {
                None
            } else {
                Some(CancelCode::UnknownMethod)
            },
            AcceptMethod::Other(_) => Some(CancelCode::UnknownMethod),
        }
    }
}

/// What a successful accept leaves in the `Accepted` state.
pub open spec fn accepted_from<S>(
    old: SasState<S>,
    n: SasState<Accepted>,
    content: AcceptContent,
    now: u64,
) -> bool {
    &&& keeps_flow(old, n)
    &&& n.inner == old.inner
    &&& n.last_event_time == now
    &&& is_start_of(n.state.start_content, old)
    &&& content.method is SasV1
    &&& n.state.commitment@ == content.method->SasV1_0.commitment@
    &&& is_standard_choice(n.state.accepted_protocols)
    &&& n.state.accepted_protocols.short_auth_string@
        == content.method->SasV1_0.short_authentication_string@
}

/// The kinds the local user is willing to show, with decimal added if missing.
pub open spec fn with_decimal(s: Seq<ShortAuthenticationString>) -> Seq<ShortAuthenticationString> {
    if s.contains(ShortAuthenticationString::Decimal) {
        s
    } else {
        s.push(ShortAuthenticationString::Decimal)
    }
}

impl SasState<Created> {
    /// Creates a new flow that we start, with a fresh ephemeral key, at the
    /// time `now`.
    pub fn new(
        account: Account,
        other_device: Device,
        own_identity: Option<OwnUserIdentity>,
        other_identity: Option<UserIdentity>,
        flow_id: FlowId,
        started_from_request: bool,
        now: u64,
    ) -> (r: SasState<Created>)
        ensures
            r.ids == (SasIds { account, other_device, own_identity, other_identity }),
            r.verification_flow_id == flow_id,
            r.started_from_request == started_from_request,
            r.creation_time == now,
            r.last_event_time == now,
            r.inner is Some,
            r.our_public_key@.len() == 32,
            is_standard_offer(r.state.protocol_definitions),
    {
        let sas = Sas::new();
        let our_public_key = sas_public_key(&sas);
        SasState {
            inner: Some(sas),
            our_public_key,
            ids: SasIds { account, other_device, own_identity, other_identity },
            creation_time: now,
            last_event_time: now,
            verification_flow_id: flow_id,
            state: Created { protocol_definitions: the_protocol_definitions() },
            started_from_request,
        }
    }

    /// The start message to send to the other side.
    pub fn as_content(&self) -> (r: StartContent)
        ensures
            is_start_of(r, *self),
            r.method->SasV1_0.same_as(&self.state.protocol_definitions),
    {
        StartContent {
            from_device: self.ids.account.device_id.clone(),
            flow_id: self.verification_flow_id.clone(),
            method: StartMethod::SasV1(self.state.protocol_definitions.clone()),
        }
    }

    /// Receives the other side's accept message.
    pub fn into_accepted(self, sender: &str, content: &AcceptContent, now: u64) -> (r: Result<
        SasState<Accepted>,
        SasState<Cancelled>,
    >)
        ensures
            r is Err <==> accept_failure(self, sender@, *content, now) is Some,
            r is Err ==> cancelled_with(
                self,
                r->Err_0,
                accept_failure(self, sender@, *content, now)->Some_0,
            ),
            r is Ok ==> accepted_from(self, r->Ok_0, *content, now),
            r is Ok ==> r->Ok_0.state.start_content.method->SasV1_0.same_as(
                &self.state.protocol_definitions,
            ),
    {
        if let Err(c) = self.check_event(sender, content.flow_id.as_str(), now) {
            return Err(self.cancel(true, c));
        }
        match &content.method {
            AcceptMethod::SasV1(c) => {
                match AcceptedProtocols::try_from_accept(c.clone()) {
                    Err(code) => Err(self.cancel(true, code)),
                    Ok(accepted_protocols) => {
                        let start_content = self.as_content();
                        Ok(SasState {
                            inner: self.inner,
                            our_public_key: self.our_public_key,
                            ids: self.ids,
                            creation_time: self.creation_time,
                            last_event_time: now,
                            verification_flow_id: self.verification_flow_id,
                            state: Accepted {
                                accepted_protocols,
                                start_content,
                                commitment: c.commitment.clone(),
                            },
                            started_from_request: self.started_from_request,
                        })
                    },
                }
            },
            AcceptMethod::Other(_) => Err(self.cancel(true, CancelCode::UnknownMethod)),
        }
    }
}

impl SasState<Started> {
    /// Creates a flow from the other side's start message, with a fresh
    /// ephemeral key, at the time `now`.
    ///
    /// The flow is cancelled with `UnknownMethod` unless the message offers
    /// the SAS method with protocols we support.
    pub fn from_start_event(
        account: Account,
        other_device: Device,
        own_identity: Option<OwnUserIdentity>,
        other_identity: Option<UserIdentity>,
        flow_id: FlowId,
        content: &StartContent,
        started_from_request: bool,
        now: u64,
    ) -> (r: Result<SasState<Started>, SasState<Cancelled>>)
        ensures
            r is Ok <==> (content.method is SasV1 && start_is_supported(
                content.method->SasV1_0,
            )),
            r is Err ==> ({
                let c = r->Err_0;
                &&& c.ids == (SasIds { account, other_device, own_identity, other_identity })
                &&& c.verification_flow_id == flow_id
                &&& c.inner is None
                &&& c.state.cancelled_by_us
                &&& c.state.cancel_code == CancelCode::UnknownMethod
            }),
            r is Ok ==> ({
                let n = r->Ok_0;
                let m = content.method->SasV1_0;
                &&& n.ids == (SasIds { account, other_device, own_identity, other_identity })
                &&& n.verification_flow_id == flow_id
                &&& n.started_from_request == started_from_request
                &&& n.creation_time == now
                &&& n.last_event_time == now
                &&& n.inner is Some
                &&& n.our_public_key@.len() == 32
                &&& n.state.commitment@ == commitment_of(
                    n.our_public_key@,
                    content.from_device@,
                    content.flow_id,
                    m,
                )
                &&& is_standard_choice(n.state.accepted_protocols)
                &&& n.state.accepted_protocols.short_auth_string@ == selected_sas(
                    m.short_authentication_string@,
                )
            }),
    {
        let sas = Sas::new();
        let our_public_key = sas_public_key(&sas);
        let ids = SasIds { account, other_device, own_identity, other_identity };
        let accepted = match &content.method {
            StartMethod::SasV1(method_content) => {
                let commitment = calculate_commitment(
                    &our_public_key,
                    content.from_device.as_str(),
                    &content.flow_id,
                    method_content,
                );
                match AcceptedProtocols::try_from_start(method_content) {
                    Ok(accepted_protocols) => Some((accepted_protocols, commitment)),
                    Err(_) => None,
                }
            },
            StartMethod::Other(_) => None,
        };
        match accepted {
            Some((accepted_protocols, commitment)) => Ok(SasState {
                inner: Some(sas),
                our_public_key,
                ids,
                creation_time: now,
                last_event_time: now,
                verification_flow_id: flow_id,
                state: Started { commitment, accepted_protocols },
                started_from_request,
            }),
            None => Err(SasState {
                inner: None,
                our_public_key,
                ids,
                creation_time: now,
                last_event_time: now,
                verification_flow_id: flow_id,
                state: Cancelled::new(true, CancelCode::UnknownMethod),
                started_from_request,
            }),
        }
    }

    /// Accepts the flow, showing the short string in the kinds given;
    /// decimal is always among them.
    pub fn into_we_accepted(self, methods: Vec<ShortAuthenticationString>) -> (r: SasState<
        WeAccepted,
    >)
        ensures
            keeps_flow(self, r),
            r.inner == self.inner,
            r.last_event_time == self.last_event_time,
            !r.state.we_started,
            r.state.commitment == self.state.commitment,
            r.state.accepted_protocols.method == self.state.accepted_protocols.method,
            r.state.accepted_protocols.key_agreement_protocol
                == self.state.accepted_protocols.key_agreement_protocol,
            r.state.accepted_protocols.hash == self.state.accepted_protocols.hash,
            r.state.accepted_protocols.message_auth_code
                == self.state.accepted_protocols.message_auth_code,
            r.state.accepted_protocols.short_auth_string@ == with_decimal(methods@),
    {
        let mut short_auth_string = methods;
        if !contains_decimal(&short_auth_string) {
            short_auth_string.push(ShortAuthenticationString::Decimal);
        }
        let accepted_protocols = AcceptedProtocols {
            method: self.state.accepted_protocols.method,
            key_agreement_protocol: self.state.accepted_protocols.key_agreement_protocol,
            hash: self.state.accepted_protocols.hash,
            message_auth_code: self.state.accepted_protocols.message_auth_code,
            short_auth_string,
        };
        SasState {
            inner: self.inner,
            our_public_key: self.our_public_key,
            ids: self.ids,
            creation_time: self.creation_time,
            last_event_time: self.last_event_time,
            verification_flow_id: self.verification_flow_id,
            state: WeAccepted {
                we_started: false,
                accepted_protocols,
                commitment: self.state.commitment,
            },
            started_from_request: self.started_from_request,
        }
    }

    /// The start message we would have sent for this flow.
    fn as_content(&self) -> (r: StartContent)
        ensures
            is_start_of(r, *self),
            is_standard_offer(r.method->SasV1_0),
    {
        StartContent {
            from_device: self.ids.account.device_id.clone(),
            flow_id: self.verification_flow_id.clone(),
            method: StartMethod::SasV1(the_protocol_definitions()),
        }
    }

    /// Receives an accept message for the flow we started at the same time
    /// as the other side: we go on with our own flow.
    pub fn into_accepted(self, sender: &str, content: &AcceptContent, now: u64) -> (r: Result<
        SasState<Accepted>,
        SasState<Cancelled>,
    >)
        ensures
            r is Err <==> accept_failure(self, sender@, *content, now) is Some,
            r is Err ==> cancelled_with(
                self,
                r->Err_0,
                accept_failure(self, sender@, *content, now)->Some_0,
            ),
            r is Ok ==> accepted_from(self, r->Ok_0, *content, now),
            r is Ok ==> is_standard_offer(r->Ok_0.state.start_content.method->SasV1_0),
    {
        if let Err(c) = self.check_event(sender, content.flow_id.as_str(), now) {
            return Err(self.cancel(true, c));
        }
        match &content.method {
            AcceptMethod::SasV1(c) => {
                match AcceptedProtocols::try_from_accept(c.clone()) {
                    Err(code) => Err(self.cancel(true, code)),
                    Ok(accepted_protocols) => {
                        let start_content = self.as_content();
                        Ok(SasState {
                            inner: self.inner,
                            our_public_key: self.our_public_key,
                            ids: self.ids,
                            creation_time: self.creation_time,
                            last_event_time: now,
                            verification_flow_id: self.verification_flow_id,
                            state: Accepted {
                                accepted_protocols,
                                start_content,
                                commitment: c.commitment.clone(),
                            },
                            started_from_request: self.started_from_request,
                        })
                    },
                }
            },
            AcceptMethod::Other(_) => Err(self.cancel(true, CancelCode::UnknownMethod)),
        }
    }
}

/// Why a key message cancels the flow before the Diffie-Hellman exchange, if
/// it does: the common checks, a key that is not 32 bytes, a commitment that
/// does not match, an ephemeral secret that is gone.
pub open spec fn key_failure<S>(
    s: SasState<S>,
    sender: Seq<char>,
    content: KeyContent,
    now: u64,
    commitment_ok: bool,
) -> Option<CancelCode> {
    let check = s.event_check(sender, content.flow_id.spec_str(), now);
    if check is Some {
        check
    } else if content.key@.len() != 32 {
        Some(CancelCode::InvalidMessage)
    } else if !commitment_ok {
        Some(CancelCode::InvalidMessage)
    } else if s.inner is None {
        Some(CancelCode::UnexpectedMessage)
    } else {
        None
    }
}

/// How a key message moved a flow into `KeyReceived`.
pub open spec fn key_received_from<S>(
    old: SasState<S>,
    n: SasState<KeyReceived>,
    content: KeyContent,
    now: u64,
    accepted_protocols: AcceptedProtocols,
    we_started: bool,
) -> bool {
    &&& keeps_flow(old, n)
    &&& n.inner is None
    &&& n.last_event_time == now
    &&& n.state.their_public_key@ == content.key@
    &&& n.state.we_started == we_started
    &&& n.state.accepted_protocols.same_as(&accepted_protocols)
}

/// The outcome of a key message: cancelled with the code of `key_failure`
/// where there is one; else moved on, or cancelled with `InvalidMessage`
/// where the exchange failed.
pub open spec fn key_outcome<S>(
    old: SasState<S>,
    r: Result<SasState<KeyReceived>, SasState<Cancelled>>,
    sender: Seq<char>,
    content: KeyContent,
    now: u64,
    commitment_ok: bool,
    accepted_protocols: AcceptedProtocols,
    we_started: bool,
) -> bool {
    let failure = key_failure(old, sender, content, now, commitment_ok);
    &&& failure is Some ==> r is Err && cancelled_with(old, r->Err_0, failure->Some_0)
    &&& (failure is None && r is Err) ==> cancelled_with(
        old,
        r->Err_0,
        CancelCode::InvalidMessage,
    )
    &&& r is Ok ==> failure is None && key_received_from(
        old,
        r->Ok_0,
        content,
        now,
        accepted_protocols,
        we_started,
    )
}

/// Whether the commitment the other side sent matches its key and our start
/// message.
pub open spec fn commitment_matches(s: SasState<Accepted>, key: Seq<u8>) -> bool {
    let start = s.state.start_content;
    &&& start.method is SasV1
    &&& s.state.commitment@ == commitment_of(
        key,
        start.from_device@,
        start.flow_id,
        start.method->SasV1_0,
    )
}

impl SasState<WeAccepted> {
    /// The accept message to send to the other side.
    pub fn as_content(&self) -> (r: AcceptContent)
        ensures
            r.flow_id == self.verification_flow_id,
            r.method is SasV1,
            r.method->SasV1_0.commitment == self.state.commitment,
            r.method->SasV1_0.hash == self.state.accepted_protocols.hash,
            r.method->SasV1_0.key_agreement_protocol
                == self.state.accepted_protocols.key_agreement_protocol,
            r.method->SasV1_0.message_authentication_code
                == self.state.accepted_protocols.message_auth_code,
            r.method->SasV1_0.short_authentication_string@
                == self.state.accepted_protocols.short_auth_string@,
    {
        let p = self.state.accepted_protocols.clone();
        AcceptContent {
            flow_id: self.verification_flow_id.clone(),
            method: AcceptMethod::SasV1(
                AcceptV1Content {
                    commitment: self.state.commitment.clone(),
                    hash: p.hash,
                    key_agreement_protocol: p.key_agreement_protocol,
                    message_authentication_code: p.message_auth_code,
                    short_authentication_string: p.short_auth_string,
                },
            ),
        }
    }

    /// Receives the other side's public key and performs the Diffie-Hellman
    /// exchange.
    pub fn into_key_received(self, sender: &str, content: &KeyContent, now: u64) -> (r: Result<
        SasState<KeyReceived>,
        SasState<Cancelled>,
    >)
        ensures
            key_outcome(
                self,
                r,
                sender@,
                *content,
                now,
                true,
                self.state.accepted_protocols,
                self.state.we_started,
            ),
    {
        if let Err(c) = self.check_event(sender, content.flow_id.as_str(), now) {
            return Err(self.cancel(true, c));
        }
        let their_key = match Curve25519PublicKey::from_slice(content.key.as_slice()) {
            Ok(k) => k,
            Err(_) => return Err(self.cancel(true, CancelCode::InvalidMessage)),
        };
        let mut this = self;
        let sas = match this.inner.take() {
            Some(sas) => sas,
            None => return Err(this.cancel(true, CancelCode::UnexpectedMessage)),
        };
        match sas.diffie_hellman(their_key) {
            Err(_) => Err(this.cancel(true, CancelCode::InvalidMessage)),
            Ok(established) => {
                let accepted_protocols = this.state.accepted_protocols.clone();
                Ok(SasState {
                    inner: None,
                    our_public_key: this.our_public_key,
                    ids: this.ids,
                    creation_time: this.creation_time,
                    last_event_time: now,
                    verification_flow_id: this.verification_flow_id,
                    state: KeyReceived {
                        sas: established,
                        their_public_key: copy_bytes(&content.key),
                        we_started: this.state.we_started,
                        accepted_protocols,
                    },
                    started_from_request: this.started_from_request,
                })
            },
        }
    }
}

impl SasState<Accepted> {
    /// Receives the other side's public key, checks it against the
    /// commitment, and performs the Diffie-Hellman exchange.
    pub fn into_key_received(self, sender: &str, content: &KeyContent, now: u64) -> (r: Result<
        SasState<KeyReceived>,
        SasState<Cancelled>,
    >)
        ensures
            key_outcome(
                self,
                r,
                sender@,
                *content,
                now,
                commitment_matches(self, content.key@),
                self.state.accepted_protocols,
                true,
            ),
            self.state.commitment@.len() != 43 ==> r is Err,
    {
        if let Err(c) = self.check_event(sender, content.flow_id.as_str(), now) {
            return Err(self.cancel(true, c));
        }
        let their_key = match Curve25519PublicKey::from_slice(content.key.as_slice()) {
            Ok(k) => k,
            Err(_) => return Err(self.cancel(true, CancelCode::InvalidMessage)),
        };
        let matches = match &self.state.start_content.method {
            StartMethod::SasV1(m) => {
                let commitment = calculate_commitment(
                    &content.key,
                    self.state.start_content.from_device.as_str(),
                    &self.state.start_content.flow_id,
                    m,
                );
                commitment == self.state.commitment
            },
            StartMethod::Other(_) => false,
        };
        if !matches {
            return Err(self.cancel(true, CancelCode::InvalidMessage));
        }
        let mut this = self;
        let sas = match this.inner.take() {
            Some(sas) => sas,
            None => return Err(this.cancel(true, CancelCode::UnexpectedMessage)),
        };
        match sas.diffie_hellman(their_key) {
            Err(_) => Err(this.cancel(true, CancelCode::InvalidMessage)),
            Ok(established) => {
                let accepted_protocols = this.state.accepted_protocols.clone();
                Ok(SasState {
                    inner: None,
                    our_public_key: this.our_public_key,
                    ids: this.ids,
                    creation_time: this.creation_time,
                    last_event_time: now,
                    verification_flow_id: this.verification_flow_id,
                    state: KeyReceived {
                        sas: established,
                        their_public_key: copy_bytes(&content.key),
                        we_started: true,
                        accepted_protocols,
                    },
                    started_from_request: this.started_from_request,
                })
            },
        }
    }

    /// The key message to send to the other side.
    pub fn as_content(&self) -> (r: KeyContent)
        ensures
            r.flow_id == self.verification_flow_id,
            r.key@ == self.our_public_key@,
    {
        KeyContent { flow_id: self.verification_flow_id.clone(), key: copy_bytes(&self.our_public_key) }
    }
}

/// The outcome of a MAC message: cancelled with the code of the common
/// checks; else with `InvalidMessage` when its key ids are out of order; else
/// as the MAC verdict decides, for the MACs computed from the shared secret,
/// with `KeyMismatch` on failure. When it moves on, the flow's fields stay,
/// the clock of the last event is `now`, and `devices` and `identities` are
/// what the message proved.
pub open spec fn mac_outcome<S, T>(
    old: SasState<S>,
    r: Result<SasState<T>, SasState<Cancelled>>,
    sender: Seq<char>,
    content: MacContent,
    now: u64,
    devices: Seq<Device>,
    identities: Seq<UserIdentity>,
) -> bool {
    let check = old.event_check(sender, content.flow_id.spec_str(), now);
    &&& check is Some ==> r is Err && cancelled_with(old, r->Err_0, check->Some_0)
    &&& (check is None && !content.wf()) ==> r is Err && cancelled_with(
        old,
        r->Err_0,
        CancelCode::InvalidMessage,
    )
    &&& (check is None && content.wf() && r is Err) ==> cancelled_with(
        old,
        r->Err_0,
        CancelCode::KeyMismatch,
    )
    &&& (check is None && content.wf()) ==> exists|keys_mac: Seq<char>, computed: Seq<Seq<char>>|
        computed.len() == content.mac@.len() && #[trigger] follows_verdict(
            r is Ok,
            devices,
            identities,
            mac_verdict(old.ids, content, keys_mac, computed),
        )
    &&& r is Ok ==> check is None && content.wf() && keeps_flow(old, r->Ok_0)
        && r->Ok_0.last_event_time == now && r->Ok_0.inner == old.inner && macs_proved(
        old.ids,
        content,
        devices,
        identities,
    )
}

/// The info string of the short authentication string of a flow.
pub open spec fn flow_sas_info<S>(s: SasState<S>, their_key: Seq<u8>, we_started: bool) -> Seq<
    char,
> {
    sas_info(
        s.ids,
        base64_of(s.our_public_key@),
        base64_of(their_key),
        s.verification_flow_id.spec_str(),
        we_started,
    )
}

/// Builds the info string of the short authentication string of a flow:
/// both ephemeral keys in base64, the initiator's side first.
pub fn short_auth_info(
    ids: &SasIds,
    our_public_key: &Vec<u8>,
    their_public_key: &Vec<u8>,
    flow_id: &FlowId,
    we_started: bool,
) -> (r: String)
    ensures
        r@ == sas_info(
            *ids,
            base64_of(our_public_key@),
            base64_of(their_public_key@),
            flow_id.spec_str(),
            we_started,
        ),
{
    let our_key = base64_encode(our_public_key);
    let their_key = base64_encode(their_public_key);
    extra_info_sas(ids, our_key.as_str(), their_key.as_str(), flow_id.as_str(), we_started)
}

/// Six SAS bytes of a flow, derived from the shared secret under the info
/// string that `short_auth_info` builds.
fn short_auth_bytes(
    sas: &EstablishedSas,
    ids: &SasIds,
    our_public_key: &Vec<u8>,
    their_public_key: &Vec<u8>,
    flow_id: &FlowId,
    we_started: bool,
) -> (r: Vec<u8>)
    ensures
        r@.len() == 6,
{
    let info = short_auth_info(ids, our_public_key, their_public_key, flow_id, we_started);
    sas_bytes(sas, info.as_str())
}

/// Seven emoji indices, each below 64, that six SAS bytes give.
pub open spec fn are_emoji_indices(r: [u8; 7]) -> bool {
    exists|b: Seq<u8>|
        b.len() == 6 && forall|k: int| 0 <= k < 7 ==> #[trigger] r@[k] == emoji_index(b, k)
}

/// Three decimals that six SAS bytes give.
pub open spec fn are_decimals(r: (u16, u16, u16)) -> bool {
    exists|b: Seq<u8>|
        b.len() == 6 && r.0 == decimal_value(b, 0) && r.1 == decimal_value(b, 1) && r.2
            == decimal_value(b, 2)
}

fn emoji_index_of(bytes: &Vec<u8>) -> (r: [u8; 7])
    requires
        bytes@.len() == 6,
    ensures
        are_emoji_indices(r),
        forall|k: int| 0 <= k < 7 ==> #[trigger] r@[k] < 64,
{
    let r = emoji_indices(bytes);
    assert(forall|k: int| 0 <= k < 7 ==> #[trigger] r@[k] == emoji_index(bytes@, k));
    r
}

fn decimal_of(bytes: &Vec<u8>) -> (r: (u16, u16, u16))
    requires
        bytes@.len() == 6,
    ensures
        are_decimals(r),
        1000 <= r.0 <= 9191,
        1000 <= r.1 <= 9191,
        1000 <= r.2 <= 9191,
{
    let r = decimals(bytes);
    assert(r.0 == decimal_value(bytes@, 0) && r.1 == decimal_value(bytes@, 1) && r.2
        == decimal_value(bytes@, 2));
    r
}

/// Seven emoji named by the seven indices.
pub open spec fn shows_indices(r: [Emoji; 7], idx: [u8; 7]) -> bool {
    forall|k: int| 0 <= k < 7 ==> #[trigger] r@[k].description@ == emoji_description(idx@[k])
}

fn emoji_of(idx: [u8; 7]) -> (r: [Emoji; 7])
    requires
        forall|k: int| 0 <= k < 7 ==> #[trigger] idx@[k] < 64,
    ensures
        shows_indices(r, idx),
{
    let r = [
        emoji_from_index(idx[0]),
        emoji_from_index(idx[1]),
        emoji_from_index(idx[2]),
        emoji_from_index(idx[3]),
        emoji_from_index(idx[4]),
        emoji_from_index(idx[5]),
        emoji_from_index(idx[6]),
    ];
    assert forall|k: int| 0 <= k < 7 implies #[trigger] r@[k].description@ == emoji_description(
        idx@[k],
    ) by {
        assert(r@[0].description@ == emoji_description(idx@[0]));
        assert(r@[1].description@ == emoji_description(idx@[1]));
        assert(r@[2].description@ == emoji_description(idx@[2]));
        assert(r@[3].description@ == emoji_description(idx@[3]));
        assert(r@[4].description@ == emoji_description(idx@[4]));
        assert(r@[5].description@ == emoji_description(idx@[5]));
        assert(r@[6].description@ == emoji_description(idx@[6]));
    }
    r
}

impl SasState<KeyReceived> {
    /// The seven emoji of the short authentication string, with their names.
    pub fn get_emoji(&self) -> (r: [Emoji; 7])
        ensures
            exists|idx: [u8; 7]| are_emoji_indices(idx) && #[trigger] shows_indices(r, idx),
    {
        let idx = self.get_emoji_index();
        let r = emoji_of(idx);
        assert(are_emoji_indices(idx) && shows_indices(r, idx));
        r
    }

    /// The key message to send to the other side; it is due unprompted only
    /// when the other side started the flow.
    pub fn as_content(&self) -> (r: KeyContent)
        ensures
            r.flow_id == self.verification_flow_id,
            r.key@ == self.our_public_key@,
    {
        KeyContent { flow_id: self.verification_flow_id.clone(), key: copy_bytes(&self.our_public_key) }
    }

    /// The indices of the seven emoji of the short authentication string.
    pub fn get_emoji_index(&self) -> (r: [u8; 7])
        ensures
            are_emoji_indices(r),
            forall|k: int| 0 <= k < 7 ==> #[trigger] r@[k] < 64,
    {
        let bytes = short_auth_bytes(
            &self.state.sas,
            &self.ids,
            &self.our_public_key,
            &self.state.their_public_key,
            &self.verification_flow_id,
            self.state.we_started,
        );
        emoji_index_of(&bytes)
    }

    /// The three decimals of the short authentication string.
    pub fn get_decimal(&self) -> (r: (u16, u16, u16))
        ensures
            are_decimals(r),
            1000 <= r.0 <= 9191,
            1000 <= r.1 <= 9191,
            1000 <= r.2 <= 9191,
    {
        let bytes = short_auth_bytes(
            &self.state.sas,
            &self.ids,
            &self.our_public_key,
            &self.state.their_public_key,
            &self.verification_flow_id,
            self.state.we_started,
        );
        decimal_of(&bytes)
    }

    /// Receives the other side's MAC message.
    pub fn into_mac_received(self, sender: &str, content: &MacContent, now: u64) -> (r: Result<
        SasState<MacReceived>,
        SasState<Cancelled>,
    >)
        ensures
            mac_outcome(
                self,
                r,
                sender@,
                *content,
                now,
                r->Ok_0.state.verified_devices@,
                r->Ok_0.state.verified_master_keys@,
            ),
            r is Ok ==> ({
                let n = r->Ok_0;
                &&& n.state.sas == self.state.sas
                &&& n.state.we_started == self.state.we_started
                &&& n.state.their_public_key@ == self.state.their_public_key@
                &&& n.state.accepted_protocols == self.state.accepted_protocols
            }),
    {
        if let Err(c) = self.check_event(sender, content.flow_id.as_str(), now) {
            return Err(self.cancel(true, c));
        }
        let ghost ids = self.ids;
        let verified = receive_mac_event(
            &self.state.sas,
            &self.ids,
            self.verification_flow_id.as_str(),
            content,
        );
        let ghost outcome = verified;
        let r = match verified {
            Err(c) => Err(self.cancel(true, c)),
            Ok((devices, master_keys)) => Ok(SasState {
                inner: self.inner,
                our_public_key: self.our_public_key,
                ids: self.ids,
                creation_time: self.creation_time,
                last_event_time: now,
                verification_flow_id: self.verification_flow_id,
                state: MacReceived {
                    sas: self.state.sas,
                    their_public_key: self.state.their_public_key,
                    we_started: self.state.we_started,
                    verified_devices: devices,
                    verified_master_keys: master_keys,
                    accepted_protocols: self.state.accepted_protocols,
                },
                started_from_request: self.started_from_request,
            }),
        };
        proof {
            if content.wf() {
                let (k, c) = choose|k: Seq<char>, c: Seq<Seq<char>>|
                    c.len() == content.mac@.len() && #[trigger] gives_verdict(
                        outcome,
                        mac_verdict(ids, *content, k, c),
                    );
                assert(follows_verdict(
                    r is Ok,
                    r->Ok_0.state.verified_devices@,
                    r->Ok_0.state.verified_master_keys@,
                    mac_verdict(ids, *content, k, c),
                ));
            }
        }
        r
    }

    /// Our user confirms that the short strings match.
    pub fn confirm(self) -> (r: SasState<Confirmed>)
        ensures
            keeps_flow(self, r),
            r.inner == self.inner,
            r.last_event_time == self.last_event_time,
            r.state.sas == self.state.sas,
            r.state.accepted_protocols == self.state.accepted_protocols,
    {
        SasState {
            inner: self.inner,
            our_public_key: self.our_public_key,
            ids: self.ids,
            creation_time: self.creation_time,
            last_event_time: self.last_event_time,
            verification_flow_id: self.verification_flow_id,
            state: Confirmed { sas: self.state.sas, accepted_protocols: self.state.accepted_protocols },
            started_from_request: self.started_from_request,
        }
    }
}

impl SasState<Confirmed> {
    /// Receives the other side's MAC message and finishes the flow.
    pub fn into_done(self, sender: &str, content: &MacContent, now: u64) -> (r: Result<
        SasState<Done>,
        SasState<Cancelled>,
    >)
        ensures
            mac_outcome(
                self,
                r,
                sender@,
                *content,
                now,
                r->Ok_0.state.verified_devices@,
                r->Ok_0.state.verified_master_keys@,
            ),
            r is Ok ==> r->Ok_0.state.sas == self.state.sas,
    {
        if let Err(c) = self.check_event(sender, content.flow_id.as_str(), now) {
            return Err(self.cancel(true, c));
        }
        let ghost ids = self.ids;
        let verified = receive_mac_event(
            &self.state.sas,
            &self.ids,
            self.verification_flow_id.as_str(),
            content,
        );
        let ghost outcome = verified;
        let r = match verified {
            Err(c) => Err(self.cancel(true, c)),
            Ok((devices, master_keys)) => Ok(SasState {
                inner: self.inner,
                our_public_key: self.our_public_key,
                ids: self.ids,
                creation_time: self.creation_time,
                last_event_time: now,
                verification_flow_id: self.verification_flow_id,
                state: Done {
                    sas: self.state.sas,
                    verified_devices: devices,
                    verified_master_keys: master_keys,
                },
                started_from_request: self.started_from_request,
            }),
        };
        proof {
            if content.wf() {
                let (k, c) = choose|k: Seq<char>, c: Seq<Seq<char>>|
                    c.len() == content.mac@.len() && #[trigger] gives_verdict(
                        outcome,
                        mac_verdict(ids, *content, k, c),
                    );
                assert(follows_verdict(
                    r is Ok,
                    r->Ok_0.state.verified_devices@,
                    r->Ok_0.state.verified_master_keys@,
                    mac_verdict(ids, *content, k, c),
                ));
            }
        }
        r
    }

    /// Receives the other side's MAC message; the flow then waits for the
    /// other side's done message. For flows that began with a request.
    pub fn into_waiting_for_done(self, sender: &str, content: &MacContent, now: u64) -> (r: Result<
        SasState<WaitingForDone>,
        SasState<Cancelled>,
    >)
        ensures
            mac_outcome(
                self,
                r,
                sender@,
                *content,
                now,
                r->Ok_0.state.verified_devices@,
                r->Ok_0.state.verified_master_keys@,
            ),
            r is Ok ==> r->Ok_0.state.sas == self.state.sas,
    {
        if let Err(c) = self.check_event(sender, content.flow_id.as_str(), now) {
            return Err(self.cancel(true, c));
        }
        let ghost ids = self.ids;
        let verified = receive_mac_event(
            &self.state.sas,
            &self.ids,
            self.verification_flow_id.as_str(),
            content,
        );
        let ghost outcome = verified;
        let r = match verified {
            Err(c) => Err(self.cancel(true, c)),
            Ok((devices, master_keys)) => Ok(SasState {
                inner: self.inner,
                our_public_key: self.our_public_key,
                ids: self.ids,
                creation_time: self.creation_time,
                last_event_time: now,
                verification_flow_id: self.verification_flow_id,
                state: WaitingForDone {
                    sas: self.state.sas,
                    verified_devices: devices,
                    verified_master_keys: master_keys,
                },
                started_from_request: self.started_from_request,
            }),
        };
        proof {
            if content.wf() {
                let (k, c) = choose|k: Seq<char>, c: Seq<Seq<char>>|
                    c.len() == content.mac@.len() && #[trigger] gives_verdict(
                        outcome,
                        mac_verdict(ids, *content, k, c),
                    );
                assert(follows_verdict(
                    r is Ok,
                    r->Ok_0.state.verified_devices@,
                    r->Ok_0.state.verified_master_keys@,
                    mac_verdict(ids, *content, k, c),
                ));
            }
        }
        r
    }

    /// The MAC message to send to the other side.
    pub fn as_content(&self) -> (r: MacContent)
        ensures
            r.flow_id == self.verification_flow_id,
            r.wf(),
            r.key_ids() == our_mac_key_ids(self.ids),
    {
        get_mac_content(&self.state.sas, &self.ids, &self.verification_flow_id)
    }
}

impl SasState<MacReceived> {
    /// The seven emoji of the short authentication string, with their names.
    pub fn get_emoji(&self) -> (r: [Emoji; 7])
        ensures
            exists|idx: [u8; 7]| are_emoji_indices(idx) && #[trigger] shows_indices(r, idx),
    {
        let idx = self.get_emoji_index();
        let r = emoji_of(idx);
        assert(are_emoji_indices(idx) && shows_indices(r, idx));
        r
    }

    /// Our user confirms that the short strings match; the flow is done.
    pub fn confirm(self) -> (r: SasState<Done>)
        ensures
            keeps_flow(self, r),
            r.inner == self.inner,
            r.last_event_time == self.last_event_time,
            r.state.sas == self.state.sas,
            r.state.verified_devices@ == self.state.verified_devices@,
            r.state.verified_master_keys@ == self.state.verified_master_keys@,
    {
        SasState {
            inner: self.inner,
            our_public_key: self.our_public_key,
            ids: self.ids,
            creation_time: self.creation_time,
            last_event_time: self.last_event_time,
            verification_flow_id: self.verification_flow_id,
            state: Done {
                sas: self.state.sas,
                verified_devices: self.state.verified_devices,
                verified_master_keys: self.state.verified_master_keys,
            },
            started_from_request: self.started_from_request,
        }
    }

    /// Our user confirms that the short strings match; the flow then waits
    /// for the other side's done message.
    pub fn confirm_and_wait_for_done(self) -> (r: SasState<WaitingForDone>)
        ensures
            keeps_flow(self, r),
            r.inner == self.inner,
            r.last_event_time == self.last_event_time,
            r.state.sas == self.state.sas,
            r.state.verified_devices@ == self.state.verified_devices@,
            r.state.verified_master_keys@ == self.state.verified_master_keys@,
    {
        SasState {
            inner: self.inner,
            our_public_key: self.our_public_key,
            ids: self.ids,
            creation_time: self.creation_time,
            last_event_time: self.last_event_time,
            verification_flow_id: self.verification_flow_id,
            state: WaitingForDone {
                sas: self.state.sas,
                verified_devices: self.state.verified_devices,
                verified_master_keys: self.state.verified_master_keys,
            },
            started_from_request: self.started_from_request,
        }
    }

    /// The indices of the seven emoji of the short authentication string.
    pub fn get_emoji_index(&self) -> (r: [u8; 7])
        ensures
            are_emoji_indices(r),
            forall|k: int| 0 <= k < 7 ==> #[trigger] r@[k] < 64,
    {
        let bytes = short_auth_bytes(
            &self.state.sas,
            &self.ids,
            &self.our_public_key,
            &self.state.their_public_key,
            &self.verification_flow_id,
            self.state.we_started,
        );
        emoji_index_of(&bytes)
    }

    /// The three decimals of the short authentication string.
    pub fn get_decimal(&self) -> (r: (u16, u16, u16))
        ensures
            are_decimals(r),
            1000 <= r.0 <= 9191,
            1000 <= r.1 <= 9191,
            1000 <= r.2 <= 9191,
    {
        let bytes = short_auth_bytes(
            &self.state.sas,
            &self.ids,
            &self.our_public_key,
            &self.state.their_public_key,
            &self.verification_flow_id,
            self.state.we_started,
        );
        decimal_of(&bytes)
    }
}

impl SasState<WaitingForDone> {
    /// The MAC message to send to the other side, if not sent yet.
    pub fn as_content(&self) -> (r: MacContent)
        ensures
            r.flow_id == self.verification_flow_id,
            r.wf(),
            r.key_ids() == our_mac_key_ids(self.ids),
    {
        get_mac_content(&self.state.sas, &self.ids, &self.verification_flow_id)
    }

    /// The done message to send to the other side.
    pub fn done_content(&self) -> (r: DoneContent)
        ensures
            r.flow_id == self.verification_flow_id,
    {
        DoneContent { flow_id: self.verification_flow_id.clone() }
    }

    /// Receives the other side's done message.
    pub fn into_done(self, sender: &str, content: &DoneContent, now: u64) -> (r: Result<
        SasState<Done>,
        SasState<Cancelled>,
    >)
        ensures
            r is Err <==> self.event_check(sender@, content.flow_id.spec_str(), now) is Some,
            r is Err ==> cancelled_with(
                self,
                r->Err_0,
                self.event_check(sender@, content.flow_id.spec_str(), now)->Some_0,
            ),
            r is Ok ==> ({
                let n = r->Ok_0;
                &&& keeps_flow(self, n)
                &&& n.inner == self.inner
                &&& n.last_event_time == now
                &&& n.state.sas == self.state.sas
                &&& n.state.verified_devices@ == self.state.verified_devices@
                &&& n.state.verified_master_keys@ == self.state.verified_master_keys@
            }),
    {
        if let Err(c) = self.check_event(sender, content.flow_id.as_str(), now) {
            return Err(self.cancel(true, c));
        }
        Ok(SasState {
            inner: self.inner,
            our_public_key: self.our_public_key,
            ids: self.ids,
            creation_time: self.creation_time,
            last_event_time: now,
            verification_flow_id: self.verification_flow_id,
            state: Done {
                sas: self.state.sas,
                verified_devices: self.state.verified_devices,
                verified_master_keys: self.state.verified_master_keys,
            },
            started_from_request: self.started_from_request,
        })
    }
}

impl SasState<Done> {
    /// The MAC message to send to the other side, if not sent yet.
    pub fn as_content(&self) -> (r: MacContent)
        ensures
            r.flow_id == self.verification_flow_id,
            r.wf(),
            r.key_ids() == our_mac_key_ids(self.ids),
    {
        get_mac_content(&self.state.sas, &self.ids, &self.verification_flow_id)
    }

    /// The devices that the flow verified.
    pub fn verified_devices(&self) -> (r: Vec<Device>)
        ensures
            r@ == self.state.verified_devices@,
    {
        copy_devices(&self.state.verified_devices)
    }

    /// The user identities that the flow verified.
    pub fn verified_identities(&self) -> (r: Vec<UserIdentity>)
        ensures
            r@ == self.state.verified_master_keys@,
    {
        copy_identities(&self.state.verified_master_keys)
    }
}

impl SasState<Cancelled> {
    /// The cancel message to send to the other side.
    pub fn as_content(&self) -> (r: CancelContent)
        ensures
            r.flow_id == self.verification_flow_id,
            r.code == self.state.cancel_code,
            r.reason@ == self.state.reason@,
    {
        self.state.as_content(&self.verification_flow_id)
    }
}

/// Once the flow is older than `MAX_AGE`, every inbound event that names the
/// flow and comes from the other user fails the common checks with
/// `Timeout`, whatever the state.
pub proof fn lemma_timeout_cancels<S>(s: SasState<S>, sender: Seq<char>, flow_id: Seq<char>, now: u64)
    requires
        flow_id == s.verification_flow_id.spec_str(),
        sender == s.ids.other_device.user_id@,
        elapsed(s.creation_time, now) > MAX_AGE,
    ensures
        s.event_check(sender, flow_id, now) == Some(CancelCode::Timeout),
{
}

/// Two flows are the two ends of one verification: each side's account is the
/// other's peer device, each holds the other's ephemeral key, and both name
/// the same flow.
pub open spec fn mirrored(a: SasState<KeyReceived>, b: SasState<KeyReceived>) -> bool {
    &&& a.ids.account.user_id@ == b.ids.other_device.user_id@
    &&& a.ids.account.device_id@ == b.ids.other_device.device_id@
    &&& b.ids.account.user_id@ == a.ids.other_device.user_id@
    &&& b.ids.account.device_id@ == a.ids.other_device.device_id@
    &&& a.our_public_key@ == b.state.their_public_key@
    &&& b.our_public_key@ == a.state.their_public_key@
    &&& a.verification_flow_id.spec_str() == b.verification_flow_id.spec_str()
    &&& a.state.we_started != b.state.we_started
}

/// The two ends of a verification derive their short strings and MACs from
/// the same inputs: the SAS info strings are equal, the MAC info that one side
/// sends under is the one the other checks under, and the device key id one
/// side MACs is the one the other looks for. That the shared secrets, and so
/// the SAS bytes and MACs, agree rests on the Diffie-Hellman exchange.
pub proof fn lemma_both_sides_agree(a: SasState<KeyReceived>, b: SasState<KeyReceived>)
    requires
        mirrored(a, b),
    ensures
        flow_sas_info(a, a.state.their_public_key@, a.state.we_started) == flow_sas_info(
            b,
            b.state.their_public_key@,
            b.state.we_started,
        ),
        mac_info_send(a.ids, a.verification_flow_id.spec_str()) == mac_info_receive(
            b.ids,
            b.verification_flow_id.spec_str(),
        ),
        mac_info_send(b.ids, b.verification_flow_id.spec_str()) == mac_info_receive(
            a.ids,
            a.verification_flow_id.spec_str(),
        ),
        ed25519_key_id(a.ids.account.device_id@) == their_device_key_id(b.ids),
        ed25519_key_id(b.ids.account.device_id@) == their_device_key_id(a.ids),
{
}

/// An honest responder passes the initiator's commitment check: if it
/// committed to the key it then sends and to the start message exactly as we
/// sent it, and the accept carried its commitment unchanged, recomputing the
/// commitment in `Accepted` gives the stored value.
pub proof fn lemma_honest_commitment_matches(
    initiator: SasState<Accepted>,
    responder: SasState<Started>,
    start: StartContent,
)
    requires
        start.method is SasV1,
        responder.state.commitment@ == commitment_of(
            responder.our_public_key@,
            start.from_device@,
            start.flow_id,
            start.method->SasV1_0,
        ),
        initiator.state.start_content.same_as(&start),
        initiator.state.commitment@ == responder.state.commitment@,
    ensures
        commitment_matches(initiator, responder.our_public_key@),
{
    let a = initiator.state.start_content.method->SasV1_0;
    let b = start.method->SasV1_0;
    assert(canonical_start_json(start.from_device@, start.flow_id, a) == canonical_start_json(
        start.from_device@,
        start.flow_id,
        b,
    ));
}

/// When both sides start at once and we go on with our own flow, the start
/// message we keep in `Accepted` is the one we sent when we created the flow,
/// so the other side's commitment over it can match.
pub proof fn lemma_simultaneous_start(
    created: SasState<Created>,
    sent: StartContent,
    started: SasState<Started>,
    accepted: SasState<Accepted>,
    content: AcceptContent,
    now: u64,
)
    requires
        is_start_of(sent, created),
        is_standard_offer(sent.method->SasV1_0),
        created.ids.account == started.ids.account,
        created.verification_flow_id == started.verification_flow_id,
        accepted_from(started, accepted, content, now),
        is_standard_offer(accepted.state.start_content.method->SasV1_0),
    ensures
        accepted.state.start_content.same_as(&sent),
{
}

} // verus!
