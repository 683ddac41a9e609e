use vstd::prelude::*;

verus! {

/// The identifier that binds every message of one verification flow.
///
/// A to-device flow is named by its transaction id. An in-room flow lives in
/// a room and relates to the `m.key.verification.request` event that opened it.
pub enum FlowId {
    ToDevice(String),
    InRoom(String, String),
}

impl FlowId {
    /// The string that inbound messages carry to name this flow.
    pub open spec fn spec_str(&self) -> Seq<char> {
        match self {
            FlowId::ToDevice(t) => t@,
            FlowId::InRoom(_, e) => e@,
        }
    }

    pub fn as_str(&self) -> (r: &str)
        ensures
            r@ == self.spec_str(),
    {
        match self {
            FlowId::ToDevice(t) => t.as_str(),
            FlowId::InRoom(_, e) => e.as_str(),
        }
    }

    pub fn is_in_room(&self) -> (r: bool)
        ensures
            r == (self is InRoom),
    {
        match self {
            FlowId::ToDevice(_) => false,
            FlowId::InRoom(_, _) => true,
        }
    }
}

impl Clone for FlowId {
    fn clone(&self) -> (r: Self)
        ensures
            r == *self,
    {
        match self {
            FlowId::ToDevice(t) => FlowId::ToDevice(t.clone()),
            FlowId::InRoom(r, e) => FlowId::InRoom(r.clone(), e.clone()),
        }
    }
}

/// Why a flow was cancelled.
#[derive(Clone, Copy, Debug, PartialEq, Eq, Structural)]
pub enum CancelCode {
    User,
    Timeout,
    UnknownTransaction,
    UnknownMethod,
    UnexpectedMessage,
    KeyMismatch,
    UserMismatch,
    InvalidMessage,
    Accepted,
    MismatchedCommitment,
    MismatchedSas,
}

/// The name of a cancel code in an `m.key.verification.cancel` message.
pub open spec fn code_name(c: CancelCode) -> Seq<char> {
    match c {
        CancelCode::User => "m.user"@,
        CancelCode::Timeout => "m.timeout"@,
        CancelCode::UnknownTransaction => "m.unknown_transaction"@,
        CancelCode::UnknownMethod => "m.unknown_method"@,
        CancelCode::UnexpectedMessage => "m.unexpected_message"@,
        CancelCode::KeyMismatch => "m.key_mismatch"@,
        CancelCode::UserMismatch => "m.user_mismatch"@,
        CancelCode::InvalidMessage => "m.invalid_message"@,
        CancelCode::Accepted => "m.accepted"@,
        CancelCode::MismatchedCommitment => "m.mismatched_commitment"@,
        CancelCode::MismatchedSas => "m.mismatched_sas"@,
    }
}

/// The human readable reason sent along with a cancel code.
pub open spec fn code_reason(c: CancelCode) -> Seq<char> {
    match c {
        CancelCode::User => "The user cancelled the verification."@,
        CancelCode::Timeout => "The verification process timed out."@,
        CancelCode::UnknownTransaction => "The device does not know about the given transaction ID."@,
        CancelCode::UnknownMethod => "The device does not know how to handle the requested method."@,
        CancelCode::UnexpectedMessage => "The device received an unexpected message."@,
        CancelCode::KeyMismatch => "The key was not verified."@,
        CancelCode::UserMismatch => "The expected user did not match the user verified."@,
        CancelCode::InvalidMessage => "The received message was invalid."@,
        CancelCode::Accepted => "A m.key.verification.request was accepted by a different device."@,
        CancelCode::MismatchedCommitment => "The hash commitment did not match."@,
        CancelCode::MismatchedSas => "The short authentication string did not match."@,
    }
}

impl CancelCode {
    /// The code as it travels in an `m.key.verification.cancel` message.
    pub fn as_str(&self) -> (r: &'static str)
        ensures
            r@ == code_name(*self),
    {
        match self {
            CancelCode::User => "m.user",
            CancelCode::Timeout => "m.timeout",
            CancelCode::UnknownTransaction => "m.unknown_transaction",
            CancelCode::UnknownMethod => "m.unknown_method",
            CancelCode::UnexpectedMessage => "m.unexpected_message",
            CancelCode::KeyMismatch => "m.key_mismatch",
            CancelCode::UserMismatch => "m.user_mismatch",
            CancelCode::InvalidMessage => "m.invalid_message",
            CancelCode::Accepted => "m.accepted",
            CancelCode::MismatchedCommitment => "m.mismatched_commitment",
            CancelCode::MismatchedSas => "m.mismatched_sas",
        }
    }

    /// A human readable reason to send along with the code.
    pub fn reason(&self) -> (r: &'static str)
        ensures
            r@ == code_reason(*self),
    {
        match self {
            CancelCode::User => "The user cancelled the verification.",
            CancelCode::Timeout => "The verification process timed out.",
            CancelCode::UnknownTransaction => "The device does not know about the given transaction ID.",
            CancelCode::UnknownMethod => "The device does not know how to handle the requested method.",
            CancelCode::UnexpectedMessage => "The device received an unexpected message.",
            CancelCode::KeyMismatch => "The key was not verified.",
            CancelCode::UserMismatch => "The expected user did not match the user verified.",
            CancelCode::InvalidMessage => "The received message was invalid.",
            CancelCode::Accepted => "A m.key.verification.request was accepted by a different device.",
            CancelCode::MismatchedCommitment => "The hash commitment did not match.",
            CancelCode::MismatchedSas => "The short authentication string did not match.",
        }
    }
}

/// The terminal state of a flow.
pub struct Cancelled {
    pub cancelled_by_us: bool,
    pub cancel_code: CancelCode,
    pub reason: String,
}

/// The content of an `m.key.verification.cancel` message.
pub struct CancelContent {
    pub flow_id: FlowId,
    pub code: CancelCode,
    pub reason: String,
}

impl Cancelled {
    pub fn new(cancelled_by_us: bool, cancel_code: CancelCode) -> (r: Cancelled)
        ensures
            r.cancelled_by_us == cancelled_by_us,
            r.cancel_code == cancel_code,
            r.reason@ == code_reason(cancel_code),
    {
        Cancelled { cancelled_by_us, cancel_code, reason: cancel_code.reason().to_string() }
    }

    /// The cancel message to send to the other side of the flow.
    pub fn as_content(&self, flow_id: &FlowId) -> (r: CancelContent)
        ensures
            r.flow_id == *flow_id,
            r.code == self.cancel_code,
            r.reason@ == self.reason@,
    {
        CancelContent { flow_id: flow_id.clone(), code: self.cancel_code, reason: self.reason.clone() }
    }
}

} // verus!
