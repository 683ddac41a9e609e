use vstd::prelude::*;

use crate::content::{AcceptContent, DoneContent, KeyContent, MacContent, StartContent};
use crate::flow::{CancelCode, CancelContent, Cancelled};
use crate::protocols::ShortAuthenticationString;
use crate::sas_state::{
    accept_failure, commitment_matches, elapsed, key_failure, Accepted, Confirmed, Created, Done, KeyReceived, MacReceived, SasState, Started,
    WaitingForDone, WeAccepted, MAX_AGE,
};

verus! {

/// The states of a flow, by name.
#[derive(Clone, Copy, Debug, PartialEq, Eq, Structural)]
pub enum Stage {
    Created,
    Started,
    WeAccepted,
    Accepted,
    KeyReceived,
    Confirmed,
    MacReceived,
    WaitingForDone,
    Done,
    Cancelled,
}

/// The transitions a flow may take: any live state may be cancelled, and the
/// others follow the protocol.
pub open spec fn table_allows(from: Stage, to: Stage) -> bool {
    match from {
        Stage::Done | Stage::Cancelled => false,
        _ => to == Stage::Cancelled || match from {
            Stage::Created => to == Stage::Accepted,
            Stage::Started => to == Stage::WeAccepted || to == Stage::Accepted,
            Stage::WeAccepted => to == Stage::KeyReceived,
            Stage::Accepted => to == Stage::KeyReceived,
            Stage::KeyReceived => to == Stage::Confirmed || to == Stage::MacReceived,
            Stage::Confirmed => to == Stage::Done || to == Stage::WaitingForDone,
            Stage::MacReceived => to == Stage::Done || to == Stage::WaitingForDone,
            Stage::WaitingForDone => to == Stage::Done,
            _ => false,
        },
    }
}

/// A flow in whichever state it is in.
pub enum SasFlow {
    Created(SasState<Created>),
    Started(SasState<Started>),
    WeAccepted(SasState<WeAccepted>),
    Accepted(SasState<Accepted>),
    KeyReceived(SasState<KeyReceived>),
    Confirmed(SasState<Confirmed>),
    MacReceived(SasState<MacReceived>),
    WaitingForDone(SasState<WaitingForDone>),
    Done(SasState<Done>),
    Cancelled(SasState<Cancelled>),
}

/// A message of the other side for a running flow.
pub enum InboundContent {
    Accept(AcceptContent),
    Key(KeyContent),
    Mac(MacContent),
    Done(DoneContent),
    Cancel(CancelContent),
}

/// A message for the other side.
pub enum OutgoingContent {
    Start(StartContent),
    Accept(AcceptContent),
    Key(KeyContent),
    Mac(MacContent),
    Done(DoneContent),
    Cancel(CancelContent),
}

/// Whether a state defines a transition for a kind of message.
pub open spec fn expects(stage: Stage, content: InboundContent) -> bool {
    match content {
        InboundContent::Accept(_) => stage == Stage::Created || stage == Stage::Started,
        InboundContent::Key(_) => stage == Stage::WeAccepted || stage == Stage::Accepted,
        InboundContent::Mac(_) => stage == Stage::KeyReceived || stage == Stage::Confirmed,
        InboundContent::Done(_) => stage == Stage::WaitingForDone,
        InboundContent::Cancel(_) => true,
    }
}

/// The flow id that a message of the other side names.
pub open spec fn inbound_flow_id(content: InboundContent) -> Seq<char> {
    match content {
        InboundContent::Accept(c) => c.flow_id.spec_str(),
        InboundContent::Key(c) => c.flow_id.spec_str(),
        InboundContent::Mac(c) => c.flow_id.spec_str(),
        InboundContent::Done(c) => c.flow_id.spec_str(),
        InboundContent::Cancel(c) => c.flow_id.spec_str(),
    }
}

/// The flow id, the other user and the creation time of a flow.
pub open spec fn flow_identity<S>(s: SasState<S>) -> (Seq<char>, Seq<char>, u64) {
    (s.verification_flow_id.spec_str(), s.ids.other_device.user_id@, s.creation_time)
}

/// A flow was cancelled with `code`.
pub open spec fn cancelled_as(next: SasFlow, code: CancelCode) -> bool {
    next is Cancelled && next.cancel_code() == code
}

/// Where an expected message takes a live flow: to the next state when the
/// transition's checks pass, else cancelled with the code they give. Where an
/// outside result decides (the Diffie-Hellman exchange, the MACs computed from
/// the shared secret), to the next state or cancelled with the code of that
/// failure.
pub open spec fn receive_outcome(
    flow: SasFlow,
    sender: Seq<char>,
    content: InboundContent,
    now: u64,
    next: SasFlow,
) -> bool {
    match (flow, content) {
        (SasFlow::Created(s), InboundContent::Accept(c)) => {
            let failure = accept_failure(s, sender, c, now);
            &&& (next is Accepted <==> failure is None)
            &&& failure is Some ==> cancelled_as(next, failure->Some_0)
        },
        (SasFlow::Started(s), InboundContent::Accept(c)) => {
            let failure = accept_failure(s, sender, c, now);
            &&& (next is Accepted <==> failure is None)
            &&& failure is Some ==> cancelled_as(next, failure->Some_0)
        },
        (SasFlow::WeAccepted(s), InboundContent::Key(c)) => {
            let failure = key_failure(s, sender, c, now, true);
            &&& failure is Some ==> cancelled_as(next, failure->Some_0)
            &&& failure is None ==> next is KeyReceived || cancelled_as(
                next,
                CancelCode::InvalidMessage,
            )
        },
        (SasFlow::Accepted(s), InboundContent::Key(c)) => {
            let failure = key_failure(s, sender, c, now, commitment_matches(s, c.key@));
            &&& failure is Some ==> cancelled_as(next, failure->Some_0)
            &&& failure is None ==> next is KeyReceived || cancelled_as(
                next,
                CancelCode::InvalidMessage,
            )
        },
        (SasFlow::KeyReceived(s), InboundContent::Mac(c)) => {
            let check = s.event_check(sender, c.flow_id.spec_str(), now);
            &&& check is Some ==> cancelled_as(next, check->Some_0)
            &&& (check is None && !c.wf()) ==> cancelled_as(next, CancelCode::InvalidMessage)
            &&& (check is None && c.wf()) ==> next is MacReceived || cancelled_as(
                next,
                CancelCode::KeyMismatch,
            )
        },
        (SasFlow::Confirmed(s), InboundContent::Mac(c)) => {
            let check = s.event_check(sender, c.flow_id.spec_str(), now);
            &&& check is Some ==> cancelled_as(next, check->Some_0)
            &&& (check is None && !c.wf()) ==> cancelled_as(next, CancelCode::InvalidMessage)
            &&& (check is None && c.wf()) ==> (if s.started_from_request {
                next is WaitingForDone
            } else {
                next is Done
            }) || cancelled_as(next, CancelCode::KeyMismatch)
        },
        (SasFlow::WaitingForDone(s), InboundContent::Done(c)) => {
            let check = s.event_check(sender, c.flow_id.spec_str(), now);
            &&& (next is Done <==> check is None)
            &&& check is Some ==> cancelled_as(next, check->Some_0)
        },
        _ => true,
    }
}

impl SasFlow {
    /// The common checks of the current state on an inbound event.
    pub open spec fn event_check(&self, sender: Seq<char>, flow_id: Seq<char>, now: u64) -> Option<
        CancelCode,
    > {
        match self {
            SasFlow::Created(s) => s.event_check(sender, flow_id, now),
            SasFlow::Started(s) => s.event_check(sender, flow_id, now),
            SasFlow::WeAccepted(s) => s.event_check(sender, flow_id, now),
            SasFlow::Accepted(s) => s.event_check(sender, flow_id, now),
            SasFlow::KeyReceived(s) => s.event_check(sender, flow_id, now),
            SasFlow::Confirmed(s) => s.event_check(sender, flow_id, now),
            SasFlow::MacReceived(s) => s.event_check(sender, flow_id, now),
            SasFlow::WaitingForDone(s) => s.event_check(sender, flow_id, now),
            SasFlow::Done(s) => s.event_check(sender, flow_id, now),
            SasFlow::Cancelled(s) => s.event_check(sender, flow_id, now),
        }
    }

    /// The flow id, the other user and the creation time of the flow.
    pub open spec fn identity(&self) -> (Seq<char>, Seq<char>, u64) {
        match self {
            SasFlow::Created(s) => flow_identity(*s),
            SasFlow::Started(s) => flow_identity(*s),
            SasFlow::WeAccepted(s) => flow_identity(*s),
            SasFlow::Accepted(s) => flow_identity(*s),
            SasFlow::KeyReceived(s) => flow_identity(*s),
            SasFlow::Confirmed(s) => flow_identity(*s),
            SasFlow::MacReceived(s) => flow_identity(*s),
            SasFlow::WaitingForDone(s) => flow_identity(*s),
            SasFlow::Done(s) => flow_identity(*s),
            SasFlow::Cancelled(s) => flow_identity(*s),
        }
    }

    pub open spec fn spec_stage(&self) -> Stage {
        match self {
            SasFlow::Created(_) => Stage::Created,
            SasFlow::Started(_) => Stage::Started,
            SasFlow::WeAccepted(_) => Stage::WeAccepted,
            SasFlow::Accepted(_) => Stage::Accepted,
            SasFlow::KeyReceived(_) => Stage::KeyReceived,
            SasFlow::Confirmed(_) => Stage::Confirmed,
            SasFlow::MacReceived(_) => Stage::MacReceived,
            SasFlow::WaitingForDone(_) => Stage::WaitingForDone,
            SasFlow::Done(_) => Stage::Done,
            SasFlow::Cancelled(_) => Stage::Cancelled,
        }
    }

    /// Whether the flow has ended, with success or not.
    pub open spec fn is_finished(&self) -> bool {
        self is Done || self is Cancelled
    }

    /// The cancel code of a cancelled flow.
    pub open spec fn cancel_code(&self) -> CancelCode {
        self->Cancelled_0.state.cancel_code
    }

    /// The state the flow is in.
    pub fn stage(&self) -> (r: Stage)
        ensures
            r == self.spec_stage(),
    {
        match self {
            SasFlow::Created(_) => Stage::Created,
            SasFlow::Started(_) => Stage::Started,
            SasFlow::WeAccepted(_) => Stage::WeAccepted,
            SasFlow::Accepted(_) => Stage::Accepted,
            SasFlow::KeyReceived(_) => Stage::KeyReceived,
            SasFlow::Confirmed(_) => Stage::Confirmed,
            SasFlow::MacReceived(_) => Stage::MacReceived,
            SasFlow::WaitingForDone(_) => Stage::WaitingForDone,
            SasFlow::Done(_) => Stage::Done,
            SasFlow::Cancelled(_) => Stage::Cancelled,
        }
    }

    /// Cancels a live flow on our side with `code`; a finished flow stays as
    /// it is.
    fn cancel_with(self, code: CancelCode) -> (r: (SasFlow, Option<OutgoingContent>))
        ensures
            self.is_finished() ==> r.0 == self && r.1 is None,
            !self.is_finished() ==> r.0 is Cancelled && r.0.cancel_code() == code
                && r.0->Cancelled_0.state.cancelled_by_us && r.1 is Some,
    {
        let cancelled = match self {
            SasFlow::Created(s) => s.cancel(true, code),
            SasFlow::Started(s) => s.cancel(true, code),
            SasFlow::WeAccepted(s) => s.cancel(true, code),
            SasFlow::Accepted(s) => s.cancel(true, code),
            SasFlow::KeyReceived(s) => s.cancel(true, code),
            SasFlow::Confirmed(s) => s.cancel(true, code),
            SasFlow::MacReceived(s) => s.cancel(true, code),
            SasFlow::WaitingForDone(s) => s.cancel(true, code),
            SasFlow::Done(s) => return (SasFlow::Done(s), None),
            SasFlow::Cancelled(s) => return (SasFlow::Cancelled(s), None),
        };
        let out = cancelled.as_content();
        (SasFlow::Cancelled(cancelled), Some(OutgoingContent::Cancel(out)))
    }

    /// Records that the other side cancelled a live flow; a finished flow
    /// stays as it is.
    fn cancelled_by_them(self, code: CancelCode) -> (r: SasFlow)
        ensures
            self.is_finished() ==> r == self,
            !self.is_finished() ==> r is Cancelled && r.cancel_code() == code
                && !r->Cancelled_0.state.cancelled_by_us,
    {
        match self {
            SasFlow::Created(s) => SasFlow::Cancelled(s.cancel(false, code)),
            SasFlow::Started(s) => SasFlow::Cancelled(s.cancel(false, code)),
            SasFlow::WeAccepted(s) => SasFlow::Cancelled(s.cancel(false, code)),
            SasFlow::Accepted(s) => SasFlow::Cancelled(s.cancel(false, code)),
            SasFlow::KeyReceived(s) => SasFlow::Cancelled(s.cancel(false, code)),
            SasFlow::Confirmed(s) => SasFlow::Cancelled(s.cancel(false, code)),
            SasFlow::MacReceived(s) => SasFlow::Cancelled(s.cancel(false, code)),
            SasFlow::WaitingForDone(s) => SasFlow::Cancelled(s.cancel(false, code)),
            other => other,
        }
    }

    /// Handles a message of the other side: moves the flow to its next state
    /// and returns what to send back, if anything.
    ///
    /// A message of a kind that the state does not expect cancels the flow
    /// with `UnexpectedMessage`. A finished flow ignores every message.
    pub fn receive(self, sender: &str, content: InboundContent, now: u64) -> (r: (
        SasFlow,
        Option<OutgoingContent>,
    ))
        ensures
            self.is_finished() ==> r.0 == self && r.1 is None,
            !self.is_finished() ==> table_allows(self.spec_stage(), r.0.spec_stage()),
            !self.is_finished() && !expects(self.spec_stage(), content) ==> r.0 is Cancelled
                && r.0.cancel_code() == CancelCode::UnexpectedMessage,
            !self.is_finished() && content is Cancel ==> r.0 is Cancelled && r.0.cancel_code()
                == content->Cancel_0.code,
            receive_outcome(self, sender@, content, now, r.0),
            !self.is_finished() && expects(self.spec_stage(), content) && !(content is Cancel)
                && self.event_check(sender@, inbound_flow_id(content), now) is Some ==> r.0 is Cancelled
                && r.0.cancel_code() == self.event_check(
                sender@,
                inbound_flow_id(content),
                now,
            )->Some_0,
    {
        if let InboundContent::Cancel(c) = content {
            return (self.cancelled_by_them(c.code), None);
        }
        match (self, content) {
            (SasFlow::Created(s), InboundContent::Accept(c)) => match s.into_accepted(
                sender,
                &c,
                now,
            ) {
                Ok(n) => {
                    let out = n.as_content();
                    (SasFlow::Accepted(n), Some(OutgoingContent::Key(out)))
                },
                Err(n) => {
                    let out = n.as_content();
                    (SasFlow::Cancelled(n), Some(OutgoingContent::Cancel(out)))
                },
            },
            (SasFlow::Started(s), InboundContent::Accept(c)) => match s.into_accepted(
                sender,
                &c,
                now,
            ) {
                Ok(n) => {
                    let out = n.as_content();
                    (SasFlow::Accepted(n), Some(OutgoingContent::Key(out)))
                },
                Err(n) => {
                    let out = n.as_content();
                    (SasFlow::Cancelled(n), Some(OutgoingContent::Cancel(out)))
                },
            },
            (SasFlow::WeAccepted(s), InboundContent::Key(c)) => match s.into_key_received(
                sender,
                &c,
                now,
            ) {
                Ok(n) => {
                    let out = n.as_content();
                    (SasFlow::KeyReceived(n), Some(OutgoingContent::Key(out)))
                },
                Err(n) => {
                    let out = n.as_content();
                    (SasFlow::Cancelled(n), Some(OutgoingContent::Cancel(out)))
                },
            },
            (SasFlow::Accepted(s), InboundContent::Key(c)) => match s.into_key_received(
                sender,
                &c,
                now,
            ) {
                Ok(n) => (SasFlow::KeyReceived(n), None),
                Err(n) => {
                    let out = n.as_content();
                    (SasFlow::Cancelled(n), Some(OutgoingContent::Cancel(out)))
                },
            },
            (SasFlow::KeyReceived(s), InboundContent::Mac(c)) => match s.into_mac_received(
                sender,
                &c,
                now,
            ) {
                Ok(n) => (SasFlow::MacReceived(n), None),
                Err(n) => {
                    let out = n.as_content();
                    (SasFlow::Cancelled(n), Some(OutgoingContent::Cancel(out)))
                },
            },
            (SasFlow::Confirmed(s), InboundContent::Mac(c)) => {
                if s.started_from_request {
                    match s.into_waiting_for_done(sender, &c, now) {
                        Ok(n) => {
                            let out = n.done_content();
                            (SasFlow::WaitingForDone(n), Some(OutgoingContent::Done(out)))
                        },
                        Err(n) => {
                            let out = n.as_content();
                            (SasFlow::Cancelled(n), Some(OutgoingContent::Cancel(out)))
                        },
                    }
                } else {
                    match s.into_done(sender, &c, now) {
                        Ok(n) => (SasFlow::Done(n), None),
                        Err(n) => {
                            let out = n.as_content();
                            (SasFlow::Cancelled(n), Some(OutgoingContent::Cancel(out)))
                        },
                    }
                }
            },
            (SasFlow::WaitingForDone(s), InboundContent::Done(c)) => match s.into_done(
                sender,
                &c,
                now,
            ) {
                Ok(n) => (SasFlow::Done(n), None),
                Err(n) => {
                    let out = n.as_content();
                    (SasFlow::Cancelled(n), Some(OutgoingContent::Cancel(out)))
                },
            },
            (other, _) => other.cancel_with(CancelCode::UnexpectedMessage),
        }
    }

    /// The local user accepts a flow that the other side started, willing to
    /// show the given kinds. Other states stay as they are.
    pub fn accept(self, methods: Vec<ShortAuthenticationString>) -> (r: (
        SasFlow,
        Option<OutgoingContent>,
    ))
        ensures
            self is Started ==> r.0 is WeAccepted && r.1 is Some,
            !(self is Started) ==> r.0 == self && r.1 is None,
    {
        match self {
            SasFlow::Started(s) => {
                let n = s.into_we_accepted(methods);
                let out = n.as_content();
                (SasFlow::WeAccepted(n), Some(OutgoingContent::Accept(out)))
            },
            other => (other, None),
        }
    }

    /// The local user confirms that the short strings match, and our MAC
    /// message is returned. After the other side's MAC the flow is done, or,
    /// when it began with a request, waits for the done message. Other states
    /// stay as they are.
    pub fn confirm(self) -> (r: (SasFlow, Option<OutgoingContent>))
        ensures
            self is KeyReceived ==> r.0 is Confirmed && r.1 is Some,
            self is MacReceived ==> (if self->MacReceived_0.started_from_request {
                r.0 is WaitingForDone
            } else {
                r.0 is Done
            }) && r.1 is Some,
            !(self is KeyReceived || self is MacReceived) ==> r.0 == self && r.1 is None,
            table_allows(self.spec_stage(), r.0.spec_stage()) || r.0 == self,
    {
        match self {
            SasFlow::KeyReceived(s) => {
                let n = s.confirm();
                let out = n.as_content();
                (SasFlow::Confirmed(n), Some(OutgoingContent::Mac(out)))
            },
            SasFlow::MacReceived(s) => {
                if s.started_from_request {
                    let n = s.confirm_and_wait_for_done();
                    let out = n.as_content();
                    (SasFlow::WaitingForDone(n), Some(OutgoingContent::Mac(out)))
                } else {
                    let n = s.confirm();
                    let out = n.as_content();
                    (SasFlow::Done(n), Some(OutgoingContent::Mac(out)))
                }
            },
            other => (other, None),
        }
    }

    /// The local user cancels a live flow.
    pub fn cancel(self) -> (r: (SasFlow, Option<OutgoingContent>))
        ensures
            self.is_finished() ==> r.0 == self && r.1 is None,
            !self.is_finished() ==> r.0 is Cancelled && r.0.cancel_code() == CancelCode::User
                && r.1 is Some,
    {
        self.cancel_with(CancelCode::User)
    }

    /// Whether a live flow has timed out at `now`.
    pub fn timed_out(&self, now: u64) -> (r: bool)
        ensures
            r == match self {
                SasFlow::Created(s) => s.timed_out_at(now),
                SasFlow::Started(s) => s.timed_out_at(now),
                SasFlow::WeAccepted(s) => s.timed_out_at(now),
                SasFlow::Accepted(s) => s.timed_out_at(now),
                SasFlow::KeyReceived(s) => s.timed_out_at(now),
                SasFlow::Confirmed(s) => s.timed_out_at(now),
                SasFlow::MacReceived(s) => s.timed_out_at(now),
                SasFlow::WaitingForDone(s) => s.timed_out_at(now),
                SasFlow::Done(_) | SasFlow::Cancelled(_) => false,
            },
    {
        match self {
            SasFlow::Created(s) => s.timed_out(now),
            SasFlow::Started(s) => s.timed_out(now),
            SasFlow::WeAccepted(s) => s.timed_out(now),
            SasFlow::Accepted(s) => s.timed_out(now),
            SasFlow::KeyReceived(s) => s.timed_out(now),
            SasFlow::Confirmed(s) => s.timed_out(now),
            SasFlow::MacReceived(s) => s.timed_out(now),
            SasFlow::WaitingForDone(s) => s.timed_out(now),
            SasFlow::Done(_) | SasFlow::Cancelled(_) => false,
        }
    }
}

/// Once a flow is older than `MAX_AGE`, every message that a live state
/// expects, naming the flow and coming from the other user, cancels it with
/// `Timeout`.
pub proof fn lemma_flow_times_out(flow: SasFlow, sender: Seq<char>, content: InboundContent, now: u64)
    requires
        !flow.is_finished(),
        expects(flow.spec_stage(), content),
        !(content is Cancel),
        inbound_flow_id(content) == flow.identity().0,
        sender == flow.identity().1,
        elapsed(flow.identity().2, now) > MAX_AGE,
    ensures
        flow.event_check(sender, inbound_flow_id(content), now) == Some(CancelCode::Timeout),
{
}

} // verus!
