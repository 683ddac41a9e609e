//! The Short Authentication String (SAS) verification state machine of a
//! Matrix end-to-end encryption client: two devices agree on protocols,
//! exchange ephemeral keys under a commitment, compare a short string and
//! prove their identity keys to each other with MACs.

pub mod content;
pub mod crypto;
pub mod dispatch;
pub mod emoji;
pub mod flow;
pub mod ids;
pub mod mac;
pub mod protocols;
pub mod room;
pub mod sas_state;
pub mod short_auth;

pub use content::{AcceptContent, AcceptMethod, DoneContent, KeyContent, MacContent, StartContent, StartMethod};
pub use dispatch::{InboundContent, OutgoingContent, SasFlow, Stage};
pub use emoji::Emoji;
pub use flow::{CancelCode, CancelContent, Cancelled, FlowId};
pub use ids::{Account, Device, OwnUserIdentity, SasIds, UserIdentity};
pub use protocols::{
    AcceptV1Content, AcceptedProtocols, HashAlgorithm, KeyAgreementProtocol,
    MessageAuthenticationCode, SasV1Content, ShortAuthenticationString, VerificationMethod,
};
pub use room::Membership;
pub use sas_state::{
    Accepted, Confirmed, Created, Done, KeyReceived, MacReceived, SasState, Started,
    WaitingForDone, WeAccepted,
};
