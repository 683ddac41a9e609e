use vstd::prelude::*;

use crate::flow::CancelCode;

verus! {

/// A protocol identifier that travels in messages under a name.
pub trait ProtocolName {
    spec fn spec_name(&self) -> Seq<char>;

    /// The name under which the identifier travels in a message.
    fn name(&self) -> (r: String)
        ensures
            r@ == self.spec_name(),
    ;

    /// An equal copy of the identifier.
    fn copied(&self) -> (r: Self) where Self: Sized
        ensures
            r == *self,
    ;
}

/// Copies a list of protocol identifiers, element by element.
pub fn copy_list<T: ProtocolName>(v: &Vec<T>) -> (r: Vec<T>)
    ensures
        r@ == v@,
{
    let mut r: Vec<T> = Vec::new();
    let mut i: usize = 0;
    while i < v.len()
        invariant
            i <= v@.len(),
            r@ == v@.subrange(0, i as int),
        decreases v@.len() - i,
    {
        r.push(v[i].copied());
        i = i + 1;
    }
    assert(r@ =~= v@);
    r
}

/// A key agreement protocol named in a start or accept message.
pub enum KeyAgreementProtocol {
    Curve25519,
    Curve25519HkdfSha256,
    Custom(String),
}

/// A hash algorithm named in a start or accept message.
pub enum HashAlgorithm {
    Sha256,
    Custom(String),
}

/// A message authentication code named in a start or accept message.
pub enum MessageAuthenticationCode {
    HkdfHmacSha256,
    HmacSha256,
    Custom(String),
}

/// A way of showing the short authentication string to the user.
pub enum ShortAuthenticationString {
    Decimal,
    Emoji,
    Custom(String),
}

/// A verification method.
#[derive(Clone, Copy, Debug, PartialEq, Eq, Structural)]
pub enum VerificationMethod {
    SasV1,
    QrCodeScanV1,
    QrCodeShowV1,
    ReciprocateV1,
}

impl ProtocolName for KeyAgreementProtocol {
    open spec fn spec_name(&self) -> Seq<char> {
        match self {
            KeyAgreementProtocol::Curve25519 => "curve25519"@,
            KeyAgreementProtocol::Curve25519HkdfSha256 => "curve25519-hkdf-sha256"@,
            KeyAgreementProtocol::Custom(s) => s@,
        }
    }

    fn name(&self) -> (r: String) {
        match self {
            KeyAgreementProtocol::Curve25519 => "curve25519".to_string(),
            KeyAgreementProtocol::Curve25519HkdfSha256 => "curve25519-hkdf-sha256".to_string(),
            KeyAgreementProtocol::Custom(s) => s.clone(),
        }
    }

    fn copied(&self) -> (r: Self) {
        self.clone()
    }
}

impl ProtocolName for HashAlgorithm {
    open spec fn spec_name(&self) -> Seq<char> {
        match self {
            HashAlgorithm::Sha256 => "sha256"@,
            HashAlgorithm::Custom(s) => s@,
        }
    }

    fn name(&self) -> (r: String) {
        match self {
            HashAlgorithm::Sha256 => "sha256".to_string(),
            HashAlgorithm::Custom(s) => s.clone(),
        }
    }

    fn copied(&self) -> (r: Self) {
        self.clone()
    }
}

impl ProtocolName for MessageAuthenticationCode {
    open spec fn spec_name(&self) -> Seq<char> {
        match self {
            MessageAuthenticationCode::HkdfHmacSha256 => "hkdf-hmac-sha256"@,
            MessageAuthenticationCode::HmacSha256 => "hmac-sha256"@,
            MessageAuthenticationCode::Custom(s) => s@,
        }
    }

    fn name(&self) -> (r: String) {
        match self {
            MessageAuthenticationCode::HkdfHmacSha256 => "hkdf-hmac-sha256".to_string(),
            MessageAuthenticationCode::HmacSha256 => "hmac-sha256".to_string(),
            MessageAuthenticationCode::Custom(s) => s.clone(),
        }
    }

    fn copied(&self) -> (r: Self) {
        self.clone()
    }
}

impl ProtocolName for ShortAuthenticationString {
    open spec fn spec_name(&self) -> Seq<char> {
        match self {
            ShortAuthenticationString::Decimal => "decimal"@,
            ShortAuthenticationString::Emoji => "emoji"@,
            ShortAuthenticationString::Custom(s) => s@,
        }
    }

    fn name(&self) -> (r: String) {
        match self {
            ShortAuthenticationString::Decimal => "decimal".to_string(),
            ShortAuthenticationString::Emoji => "emoji".to_string(),
            ShortAuthenticationString::Custom(s) => s.clone(),
        }
    }

    fn copied(&self) -> (r: Self) {
        self.clone()
    }
}

impl Clone for KeyAgreementProtocol {
    fn clone(&self) -> (r: Self)
        ensures
            r == *self,
    {
        match self {
            KeyAgreementProtocol::Curve25519 => KeyAgreementProtocol::Curve25519,
            KeyAgreementProtocol::Curve25519HkdfSha256 => KeyAgreementProtocol::Curve25519HkdfSha256,
            KeyAgreementProtocol::Custom(s) => KeyAgreementProtocol::Custom(s.clone()),
        }
    }
}

impl Clone for HashAlgorithm {
    fn clone(&self) -> (r: Self)
        ensures
            r == *self,
    {
        match self {
            HashAlgorithm::Sha256 => HashAlgorithm::Sha256,
            HashAlgorithm::Custom(s) => HashAlgorithm::Custom(s.clone()),
        }
    }
}

impl Clone for MessageAuthenticationCode {
    fn clone(&self) -> (r: Self)
        ensures
            r == *self,
    {
        match self {
            MessageAuthenticationCode::HkdfHmacSha256 => MessageAuthenticationCode::HkdfHmacSha256,
            MessageAuthenticationCode::HmacSha256 => MessageAuthenticationCode::HmacSha256,
            MessageAuthenticationCode::Custom(s) => MessageAuthenticationCode::Custom(s.clone()),
        }
    }
}

impl Clone for ShortAuthenticationString {
    fn clone(&self) -> (r: Self)
        ensures
            r == *self,
    {
        match self {
            ShortAuthenticationString::Decimal => ShortAuthenticationString::Decimal,
            ShortAuthenticationString::Emoji => ShortAuthenticationString::Emoji,
            ShortAuthenticationString::Custom(s) => ShortAuthenticationString::Custom(s.clone()),
        }
    }
}

/// The protocols that the initiator of a flow offers.
pub struct SasV1Content {
    pub key_agreement_protocols: Vec<KeyAgreementProtocol>,
    pub hashes: Vec<HashAlgorithm>,
    pub message_authentication_codes: Vec<MessageAuthenticationCode>,
    pub short_authentication_string: Vec<ShortAuthenticationString>,
}

impl SasV1Content {
    /// Two offers name the same protocols in the same order.
    pub open spec fn same_as(&self, o: &SasV1Content) -> bool {
        &&& self.key_agreement_protocols@ == o.key_agreement_protocols@
        &&& self.hashes@ == o.hashes@
        &&& self.message_authentication_codes@ == o.message_authentication_codes@
        &&& self.short_authentication_string@ == o.short_authentication_string@
    }
}

impl Clone for SasV1Content {
    fn clone(&self) -> (r: Self)
        ensures
            r.same_as(self),
    {
        SasV1Content {
            key_agreement_protocols: copy_list(&self.key_agreement_protocols),
            hashes: copy_list(&self.hashes),
            message_authentication_codes: copy_list(&self.message_authentication_codes),
            short_authentication_string: copy_list(&self.short_authentication_string),
        }
    }
}

/// The protocols that the responder of a flow chose, with its commitment.
pub struct AcceptV1Content {
    /// Unpadded base64 of the SHA-256 commitment.
    pub commitment: String,
    pub hash: HashAlgorithm,
    pub key_agreement_protocol: KeyAgreementProtocol,
    pub message_authentication_code: MessageAuthenticationCode,
    pub short_authentication_string: Vec<ShortAuthenticationString>,
}

impl AcceptV1Content {
    /// Two accept answers carry the same choice and commitment.
    pub open spec fn same_as(&self, o: &AcceptV1Content) -> bool {
        &&& self.commitment@ == o.commitment@
        &&& self.hash == o.hash
        &&& self.key_agreement_protocol == o.key_agreement_protocol
        &&& self.message_authentication_code == o.message_authentication_code
        &&& self.short_authentication_string@ == o.short_authentication_string@
    }
}

impl Clone for AcceptV1Content {
    fn clone(&self) -> (r: Self)
        ensures
            r.same_as(self),
    {
        AcceptV1Content {
            commitment: self.commitment.clone(),
            hash: self.hash.clone(),
            key_agreement_protocol: self.key_agreement_protocol.clone(),
            message_authentication_code: self.message_authentication_code.clone(),
            short_authentication_string: copy_list(&self.short_authentication_string),
        }
    }
}

/// The protocols that both sides agreed on for a flow.
pub struct AcceptedProtocols {
    pub method: VerificationMethod,
    pub key_agreement_protocol: KeyAgreementProtocol,
    pub hash: HashAlgorithm,
    pub message_auth_code: MessageAuthenticationCode,
    pub short_auth_string: Vec<ShortAuthenticationString>,
}

impl AcceptedProtocols {
    /// Two agreements name the same protocols.
    pub open spec fn same_as(&self, o: &AcceptedProtocols) -> bool {
        &&& self.method == o.method
        &&& self.key_agreement_protocol == o.key_agreement_protocol
        &&& self.hash == o.hash
        &&& self.message_auth_code == o.message_auth_code
        &&& self.short_auth_string@ == o.short_auth_string@
    }
}

impl Clone for AcceptedProtocols {
    fn clone(&self) -> (r: Self)
        ensures
            r.same_as(self),
    {
        AcceptedProtocols {
            method: self.method,
            key_agreement_protocol: self.key_agreement_protocol.clone(),
            hash: self.hash.clone(),
            message_auth_code: self.message_auth_code.clone(),
            short_auth_string: copy_list(&self.short_auth_string),
        }
    }
}

/// Whether a list of kinds holds one that this library can show.
pub open spec fn offers_known_sas(s: Seq<ShortAuthenticationString>) -> bool {
    s.contains(ShortAuthenticationString::Decimal) || s.contains(ShortAuthenticationString::Emoji)
}

/// Whether the protocols chosen in an accept message are all ones we offer.
pub open spec fn accept_is_supported(c: AcceptV1Content) -> bool {
    &&& c.key_agreement_protocol is Curve25519HkdfSha256
    &&& c.hash is Sha256
    &&& c.message_authentication_code is HkdfHmacSha256
    &&& offers_known_sas(c.short_authentication_string@)
}

/// Whether a start offer leaves us a protocol of each kind to agree on.
pub open spec fn start_is_supported(c: SasV1Content) -> bool {
    &&& c.key_agreement_protocols@.contains(KeyAgreementProtocol::Curve25519HkdfSha256)
    &&& c.message_authentication_codes@.contains(MessageAuthenticationCode::HkdfHmacSha256)
    &&& c.hashes@.contains(HashAlgorithm::Sha256)
    &&& offers_known_sas(c.short_authentication_string@)
}

/// The kinds we select from an offer: decimal first, then emoji, each if offered.
pub open spec fn selected_sas(s: Seq<ShortAuthenticationString>) -> Seq<ShortAuthenticationString> {
    (if s.contains(ShortAuthenticationString::Decimal) {
        seq![ShortAuthenticationString::Decimal]
    } else {
        Seq::empty()
    }) + (if s.contains(ShortAuthenticationString::Emoji) {
        seq![ShortAuthenticationString::Emoji]
    } else {
        Seq::empty()
    })
}

/// The single tuple of protocols this library speaks.
pub open spec fn is_standard_choice(p: AcceptedProtocols) -> bool {
    &&& p.method == VerificationMethod::SasV1
    &&& p.key_agreement_protocol == KeyAgreementProtocol::Curve25519HkdfSha256
    &&& p.hash == HashAlgorithm::Sha256
    &&& p.message_auth_code == MessageAuthenticationCode::HkdfHmacSha256
}

pub fn contains_decimal(v: &Vec<ShortAuthenticationString>) -> (r: bool)
    ensures
        r == v@.contains(ShortAuthenticationString::Decimal),
{
    let mut i: usize = 0;
    while i < v.len()
        invariant
            i <= v@.len(),
            forall|j: int| 0 <= j < i ==> v@[j] != ShortAuthenticationString::Decimal,
        decreases v@.len() - i,
    {
        if let ShortAuthenticationString::Decimal = v[i] {
            assert(v@[i as int] == ShortAuthenticationString::Decimal);
            return true;
        }
        i = i + 1;
    }
    false
}

fn contains_emoji(v: &Vec<ShortAuthenticationString>) -> (r: bool)
    ensures
        r == v@.contains(ShortAuthenticationString::Emoji),
{
    let mut i: usize = 0;
    while i < v.len()
        invariant
            i <= v@.len(),
            forall|j: int| 0 <= j < i ==> v@[j] != ShortAuthenticationString::Emoji,
        decreases v@.len() - i,
    {
        if let ShortAuthenticationString::Emoji = v[i] {
            assert(v@[i as int] == ShortAuthenticationString::Emoji);
            return true;
        }
        i = i + 1;
    }
    false
}

fn contains_hkdf_key_agreement(v: &Vec<KeyAgreementProtocol>) -> (r: bool)
    ensures
        r == v@.contains(KeyAgreementProtocol::Curve25519HkdfSha256),
{
    let mut i: usize = 0;
    while i < v.len()
        invariant
            i <= v@.len(),
            forall|j: int| 0 <= j < i ==> v@[j] != KeyAgreementProtocol::Curve25519HkdfSha256,
        decreases v@.len() - i,
    {
        if let KeyAgreementProtocol::Curve25519HkdfSha256 = v[i] {
            assert(v@[i as int] == KeyAgreementProtocol::Curve25519HkdfSha256);
            return true;
        }
        i = i + 1;
    }
    false
}

fn contains_sha256(v: &Vec<HashAlgorithm>) -> (r: bool)
    ensures
        r == v@.contains(HashAlgorithm::Sha256),
{
    let mut i: usize = 0;
    while i < v.len()
        invariant
            i <= v@.len(),
            forall|j: int| 0 <= j < i ==> v@[j] != HashAlgorithm::Sha256,
        decreases v@.len() - i,
    {
        if let HashAlgorithm::Sha256 = v[i] {
            assert(v@[i as int] == HashAlgorithm::Sha256);
            return true;
        }
        i = i + 1;
    }
    false
}

fn contains_hkdf_hmac(v: &Vec<MessageAuthenticationCode>) -> (r: bool)
    ensures
        r == v@.contains(MessageAuthenticationCode::HkdfHmacSha256),
{
    let mut i: usize = 0;
    while i < v.len()
        invariant
            i <= v@.len(),
            forall|j: int| 0 <= j < i ==> v@[j] != MessageAuthenticationCode::HkdfHmacSha256,
        decreases v@.len() - i,
    {
        if let MessageAuthenticationCode::HkdfHmacSha256 = v[i] {
            assert(v@[i as int] == MessageAuthenticationCode::HkdfHmacSha256);
            return true;
        }
        i = i + 1;
    }
    false
}

/// The offer this library makes: one protocol of each kind, and both
/// decimal and emoji strings.
pub open spec fn is_standard_offer(c: SasV1Content) -> bool {
    &&& c.key_agreement_protocols@ == seq![KeyAgreementProtocol::Curve25519HkdfSha256]
    &&& c.hashes@ == seq![HashAlgorithm::Sha256]
    &&& c.message_authentication_codes@ == seq![MessageAuthenticationCode::HkdfHmacSha256]
    &&& c.short_authentication_string@ == seq![
        ShortAuthenticationString::Decimal,
        ShortAuthenticationString::Emoji,
    ]
}

/// The offer this library makes when it starts a flow.
pub fn the_protocol_definitions() -> (r: SasV1Content)
    ensures
        is_standard_offer(r),
{
    let r = SasV1Content {
        key_agreement_protocols: vec![KeyAgreementProtocol::Curve25519HkdfSha256],
        hashes: vec![HashAlgorithm::Sha256],
        message_authentication_codes: vec![MessageAuthenticationCode::HkdfHmacSha256],
        short_authentication_string: vec![
            ShortAuthenticationString::Decimal,
            ShortAuthenticationString::Emoji,
        ],
    };
    assert(r.key_agreement_protocols@ =~= seq![KeyAgreementProtocol::Curve25519HkdfSha256]);
    assert(r.hashes@ =~= seq![HashAlgorithm::Sha256]);
    assert(r.message_authentication_codes@ =~= seq![MessageAuthenticationCode::HkdfHmacSha256]);
    assert(r.short_authentication_string@ =~= seq![
        ShortAuthenticationString::Decimal,
        ShortAuthenticationString::Emoji,
    ]);
    r
}

impl AcceptedProtocols {
    /// Checks the protocols that the other side chose in its accept message.
    pub fn try_from_accept(content: AcceptV1Content) -> (r: Result<AcceptedProtocols, CancelCode>)
        ensures
            r is Ok <==> accept_is_supported(content),
            r is Err ==> r->Err_0 == CancelCode::UnknownMethod,
            r is Ok ==> ({
                let p = r->Ok_0;
                &&& is_standard_choice(p)
                &&& p.short_auth_string@ == content.short_authentication_string@
            }),
    {
        let known_sas = contains_emoji(&content.short_authentication_string)
            || contains_decimal(&content.short_authentication_string);
        match (content.key_agreement_protocol, content.hash, content.message_authentication_code) {
            (
                KeyAgreementProtocol::Curve25519HkdfSha256,
                HashAlgorithm::Sha256,
                MessageAuthenticationCode::HkdfHmacSha256,
            ) => {
                if known_sas {
                    Ok(AcceptedProtocols {
                        method: VerificationMethod::SasV1,
                        key_agreement_protocol: KeyAgreementProtocol::Curve25519HkdfSha256,
                        hash: HashAlgorithm::Sha256,
                        message_auth_code: MessageAuthenticationCode::HkdfHmacSha256,
                        short_auth_string: content.short_authentication_string,
                    })
                } else {
                    Err(CancelCode::UnknownMethod)
                }
            },
            _ => Err(CancelCode::UnknownMethod),
        }
    }

    /// Checks the offer of a start message and selects what we agree to.
    pub fn try_from_start(method_content: &SasV1Content) -> (r: Result<AcceptedProtocols, CancelCode>)
        ensures
            r is Ok <==> start_is_supported(*method_content),
            r is Err ==> r->Err_0 == CancelCode::UnknownMethod,
            r is Ok ==> ({
                let p = r->Ok_0;
                &&& is_standard_choice(p)
                &&& p.short_auth_string@ == selected_sas(method_content.short_authentication_string@)
            }),
    {
        let has_decimal = contains_decimal(&method_content.short_authentication_string);
        let has_emoji = contains_emoji(&method_content.short_authentication_string);
        if !contains_hkdf_key_agreement(&method_content.key_agreement_protocols)
            || !contains_hkdf_hmac(&method_content.message_authentication_codes)
            || !contains_sha256(&method_content.hashes) || (!has_decimal && !has_emoji) {
            Err(CancelCode::UnknownMethod)
        } else {
            let mut short_auth_string: Vec<ShortAuthenticationString> = Vec::new();
            if has_decimal {
                short_auth_string.push(ShortAuthenticationString::Decimal);
            }
            if has_emoji {
                short_auth_string.push(ShortAuthenticationString::Emoji);
            }
            assert(short_auth_string@ =~= selected_sas(method_content.short_authentication_string@));
            Ok(AcceptedProtocols {
                method: VerificationMethod::SasV1,
                key_agreement_protocol: KeyAgreementProtocol::Curve25519HkdfSha256,
                hash: HashAlgorithm::Sha256,
                message_auth_code: MessageAuthenticationCode::HkdfHmacSha256,
                short_auth_string,
            })
        }
    }
}

impl Default for AcceptedProtocols {
    fn default() -> (r: Self)
        ensures
            is_standard_choice(r),
            r.short_auth_string@ == seq![
                ShortAuthenticationString::Decimal,
                ShortAuthenticationString::Emoji,
            ],
    {
        let r = AcceptedProtocols {
            method: VerificationMethod::SasV1,
            key_agreement_protocol: KeyAgreementProtocol::Curve25519HkdfSha256,
            hash: HashAlgorithm::Sha256,
            message_auth_code: MessageAuthenticationCode::HkdfHmacSha256,
            short_auth_string: vec![
                ShortAuthenticationString::Decimal,
                ShortAuthenticationString::Emoji,
            ],
        };
        assert(r.short_auth_string@ =~= seq![
            ShortAuthenticationString::Decimal,
            ShortAuthenticationString::Emoji,
        ]);
        r
    }
}

} // verus!
