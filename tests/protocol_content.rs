use sas_verification::content::{calculate_commitment, canonical_json, join_key_ids, str_lt};
use sas_verification::protocols::the_protocol_definitions;
use sas_verification::short_auth::{decimals, emoji_indices, extra_info_sas};
use sas_verification::mac::{
    extra_mac_info_receive, extra_mac_info_send, keys_mac_input, mac_input, our_mac_input,
};
use sas_verification::sas_state::short_auth_info;
use sas_verification::{OwnUserIdentity, UserIdentity};
use sas_verification::emoji::emoji_from_index;
use sas_verification::{
    AcceptV1Content, AcceptedProtocols, Account, CancelCode, Device, FlowId, HashAlgorithm,
    KeyAgreementProtocol, MacContent, Membership, MessageAuthenticationCode, SasIds,
    SasV1Content, ShortAuthenticationString, VerificationMethod,
};

fn ids() -> SasIds {
    SasIds {
        account: Account {
            user_id: "@alice:example.org".to_string(),
            device_id: "JLAFKJWSCS".to_string(),
            ed25519_key: "AAAA".to_string(),
        },
        other_device: Device {
            user_id: "@bob:example.org".to_string(),
            device_id: "BOBDEVCIE".to_string(),
            ed25519_key: "BBBB".to_string(),
            curve25519_key: "CCCC".to_string(),
        },
        own_identity: None,
        other_identity: None,
    }
}

fn accept(sas: Vec<ShortAuthenticationString>) -> AcceptV1Content {
    AcceptV1Content {
        commitment: "c".to_string(),
        hash: HashAlgorithm::Sha256,
        key_agreement_protocol: KeyAgreementProtocol::Curve25519HkdfSha256,
        message_authentication_code: MessageAuthenticationCode::HkdfHmacSha256,
        short_authentication_string: sas,
    }
}

#[test]
fn canonical_json_of_to_device_start() {
    let json = canonical_json("DEV", &FlowId::ToDevice("txn".to_string()), &the_protocol_definitions());
    assert_eq!(
        json,
        "{\"from_device\":\"DEV\",\"hashes\":[\"sha256\"],\"key_agreement_protocols\":[\"curve25519-hkdf-sha256\"],\"message_authentication_codes\":[\"hkdf-hmac-sha256\"],\"method\":\"m.sas.v1\",\"short_authentication_string\":[\"decimal\",\"emoji\"],\"transaction_id\":\"txn\"}"
    );
}

#[test]
fn canonical_json_of_in_room_start() {
    let json = canonical_json(
        "DEV",
        &FlowId::InRoom("!r:x".to_string(), "$ev".to_string()),
        &the_protocol_definitions(),
    );
    assert_eq!(
        json,
        "{\"from_device\":\"DEV\",\"hashes\":[\"sha256\"],\"key_agreement_protocols\":[\"curve25519-hkdf-sha256\"],\"m.relates_to\":{\"event_id\":\"$ev\",\"rel_type\":\"m.reference\"},\"message_authentication_codes\":[\"hkdf-hmac-sha256\"],\"method\":\"m.sas.v1\",\"short_authentication_string\":[\"decimal\",\"emoji\"]}"
    );
}

#[test]
fn canonical_json_escapes_strings() {
    let json = canonical_json("D\"V\\", &FlowId::ToDevice("t\n".to_string()), &the_protocol_definitions());
    assert!(json.starts_with("{\"from_device\":\"D\\\"V\\\\\","));
    assert!(json.ends_with("\"transaction_id\":\"t\\n\"}"));
}

#[test]
fn commitment_exact_value() {
    let key: Vec<u8> = (0u8..32).collect();
    let c = calculate_commitment(&key, "DEV", &FlowId::ToDevice("txn".to_string()), &the_protocol_definitions());
    assert_eq!(c, "0hdFFS13x4Qo6BJ/WceNtWhg9cDkXxk/3Viy+9fHC2Q");
    let again = calculate_commitment(&key, "DEV", &FlowId::ToDevice("txn".to_string()), &the_protocol_definitions());
    assert_eq!(c, again);
    let other = calculate_commitment(&vec![1u8; 32], "DEV", &FlowId::ToDevice("txn".to_string()), &the_protocol_definitions());
    assert_ne!(c, other);
}

#[test]
fn emoji_indices_exact_values() {
    assert_eq!(emoji_indices(&vec![0u8; 6]), [0u8; 7]);
    assert_eq!(emoji_indices(&vec![0xffu8; 6]), [63u8; 7]);
    assert_eq!(emoji_indices(&vec![0x80, 0, 0, 0, 0, 0]), [32, 0, 0, 0, 0, 0, 0]);
    // 0b000001_000010_000011_000100_000101_000110_000111_xxxxxx
    assert_eq!(
        emoji_indices(&vec![0x04, 0x20, 0xc4, 0x14, 0x61, 0xc0]),
        [1, 2, 3, 4, 5, 6, 7]
    );
}

#[test]
fn decimals_exact_values() {
    assert_eq!(decimals(&vec![0u8; 6]), (1000, 1000, 1000));
    assert_eq!(decimals(&vec![0xffu8; 6]), (9191, 9191, 9191));
    assert_eq!(decimals(&vec![0x80, 0, 0, 0, 0, 0]), (5096, 1000, 1000));
    assert_eq!(decimals(&vec![0, 0x08, 0, 0x40, 0x02, 0]), (1001, 1001, 1001));
}

#[test]
fn emoji_table_entries() {
    let dog = emoji_from_index(0);
    assert_eq!(dog.symbol, "🐶");
    assert_eq!(dog.description, "Dog");
    assert_eq!(emoji_from_index(36).description, "Thumbs Up");
    assert_eq!(emoji_from_index(63).description, "Pin");
}

#[test]
fn sas_info_orders_initiator_first() {
    let ours = extra_info_sas(&ids(), "OURKEY", "THEIRKEY", "txn", true);
    assert_eq!(
        ours,
        "MATRIX_KEY_VERIFICATION_SAS|@alice:example.org|JLAFKJWSCS|OURKEY|@bob:example.org|BOBDEVCIE|THEIRKEY|txn"
    );
    let theirs = extra_info_sas(&ids(), "OURKEY", "THEIRKEY", "txn", false);
    assert_eq!(
        theirs,
        "MATRIX_KEY_VERIFICATION_SAS|@bob:example.org|BOBDEVCIE|THEIRKEY|@alice:example.org|JLAFKJWSCS|OURKEY|txn"
    );
}

#[test]
fn mac_info_send_and_receive_mirror() {
    assert_eq!(
        extra_mac_info_send(&ids(), "txn"),
        "MATRIX_KEY_VERIFICATION_MAC@alice:example.orgJLAFKJWSCS@bob:example.orgBOBDEVCIEtxn"
    );
    assert_eq!(
        extra_mac_info_receive(&ids(), "txn"),
        "MATRIX_KEY_VERIFICATION_MAC@bob:example.orgBOBDEVCIE@alice:example.orgJLAFKJWSCStxn"
    );
}

#[test]
fn accept_with_supported_protocols() {
    let p = AcceptedProtocols::try_from_accept(accept(vec![ShortAuthenticationString::Emoji]));
    let p = match p {
        Ok(p) => p,
        Err(_) => panic!("refused"),
    };
    assert_eq!(p.method, VerificationMethod::SasV1);
    assert_eq!(p.short_auth_string.len(), 1);
}

#[test]
fn accept_with_unknown_hash_is_refused() {
    let mut c = accept(vec![ShortAuthenticationString::Decimal]);
    c.hash = HashAlgorithm::Custom("md5".to_string());
    assert!(matches!(AcceptedProtocols::try_from_accept(c), Err(CancelCode::UnknownMethod)));
    let mut c = accept(vec![ShortAuthenticationString::Decimal]);
    c.message_authentication_code = MessageAuthenticationCode::HmacSha256;
    assert!(matches!(AcceptedProtocols::try_from_accept(c), Err(CancelCode::UnknownMethod)));
    let mut c = accept(vec![ShortAuthenticationString::Decimal]);
    c.key_agreement_protocol = KeyAgreementProtocol::Curve25519;
    assert!(matches!(AcceptedProtocols::try_from_accept(c), Err(CancelCode::UnknownMethod)));
    let c = accept(vec![ShortAuthenticationString::Custom("words".to_string())]);
    assert!(matches!(AcceptedProtocols::try_from_accept(c), Err(CancelCode::UnknownMethod)));
}

#[test]
fn start_selection_orders_decimal_first() {
    let offer = SasV1Content {
        key_agreement_protocols: vec![
            KeyAgreementProtocol::Curve25519,
            KeyAgreementProtocol::Curve25519HkdfSha256,
        ],
        hashes: vec![HashAlgorithm::Sha256],
        message_authentication_codes: vec![
            MessageAuthenticationCode::HmacSha256,
            MessageAuthenticationCode::HkdfHmacSha256,
        ],
        short_authentication_string: vec![
            ShortAuthenticationString::Emoji,
            ShortAuthenticationString::Custom("x".to_string()),
            ShortAuthenticationString::Decimal,
        ],
    };
    let p = match AcceptedProtocols::try_from_start(&offer) {
        Ok(p) => p,
        Err(_) => panic!("refused"),
    };
    assert!(matches!(p.short_auth_string[0], ShortAuthenticationString::Decimal));
    assert!(matches!(p.short_auth_string[1], ShortAuthenticationString::Emoji));
    assert_eq!(p.short_auth_string.len(), 2);
    assert!(matches!(p.key_agreement_protocol, KeyAgreementProtocol::Curve25519HkdfSha256));
}

#[test]
fn start_with_only_emoji_selects_emoji() {
    let mut offer = the_protocol_definitions();
    offer.short_authentication_string = vec![ShortAuthenticationString::Emoji];
    let p = match AcceptedProtocols::try_from_start(&offer) {
        Ok(p) => p,
        Err(_) => panic!("refused"),
    };
    assert_eq!(p.short_auth_string.len(), 1);
    assert!(matches!(p.short_auth_string[0], ShortAuthenticationString::Emoji));
    offer.hashes = vec![];
    assert!(matches!(AcceptedProtocols::try_from_start(&offer), Err(CancelCode::UnknownMethod)));
}

#[test]
fn default_protocols() {
    let p = AcceptedProtocols::default();
    assert_eq!(p.method, VerificationMethod::SasV1);
    assert!(matches!(p.hash, HashAlgorithm::Sha256));
    assert!(matches!(p.message_auth_code, MessageAuthenticationCode::HkdfHmacSha256));
    assert_eq!(p.short_auth_string.len(), 2);
}

#[test]
fn code_point_order_of_key_ids() {
    assert!(str_lt("ed25519:A", "ed25519:B"));
    assert!(!str_lt("ed25519:B", "ed25519:A"));
    assert!(str_lt("ed25519:A", "ed25519:AB"));
    assert!(!str_lt("same", "same"));
    assert!(str_lt("", "a"));
    assert!(!str_lt("a", ""));
}

#[test]
fn key_ids_join_with_commas() {
    let content = MacContent {
        flow_id: FlowId::ToDevice("t".to_string()),
        mac: vec![
            ("ed25519:A".to_string(), "x".to_string()),
            ("ed25519:B".to_string(), "y".to_string()),
        ],
        keys: String::new(),
    };
    assert!(content.is_sorted());
    assert_eq!(join_key_ids(&content), "ed25519:A,ed25519:B");
    let unsorted = MacContent {
        flow_id: FlowId::ToDevice("t".to_string()),
        mac: vec![
            ("ed25519:B".to_string(), "x".to_string()),
            ("ed25519:A".to_string(), "y".to_string()),
        ],
        keys: String::new(),
    };
    assert!(!unsorted.is_sorted());
}

#[test]
fn cancel_code_names() {
    assert_eq!(CancelCode::Timeout.as_str(), "m.timeout");
    assert_eq!(CancelCode::KeyMismatch.as_str(), "m.key_mismatch");
    assert_eq!(CancelCode::UnknownMethod.as_str(), "m.unknown_method");
}

#[test]
fn membership_values() {
    assert_ne!(Membership::Invited, Membership::Joined);
    assert_eq!(Membership::Left, Membership::Left);
}

#[test]
fn mac_inputs_for_known_keys() {
    let mut ids = ids();
    ids.other_identity = Some(UserIdentity {
        user_id: "@bob:example.org".to_string(),
        master_key: "MASTER".to_string(),
    });
    let info = "MATRIX_KEY_VERIFICATION_MAC@bob:example.orgBOBDEVCIE@alice:example.orgJLAFKJWSCStxn";
    assert_eq!(
        mac_input(&ids, "txn", "ed25519:BOBDEVCIE"),
        Some(("BBBB".to_string(), format!("{info}ed25519:BOBDEVCIE")))
    );
    assert_eq!(
        mac_input(&ids, "txn", "ed25519:MASTER"),
        Some(("MASTER".to_string(), format!("{info}ed25519:MASTER")))
    );
    assert_eq!(mac_input(&ids, "txn", "curve25519:BOBDEVCIE"), None);
    assert_eq!(mac_input(&ids, "txn", "ed25519:JLAFKJWSCS"), None);
}

#[test]
fn our_mac_inputs() {
    let mut ids = ids();
    let info = "MATRIX_KEY_VERIFICATION_MAC@alice:example.orgJLAFKJWSCS@bob:example.orgBOBDEVCIEtxn";
    assert_eq!(
        our_mac_input(&ids, "txn", "ed25519:JLAFKJWSCS"),
        Some(("AAAA".to_string(), format!("{info}ed25519:JLAFKJWSCS")))
    );
    assert_eq!(our_mac_input(&ids, "txn", "ed25519:OWNMASTER"), None);
    ids.own_identity = Some(OwnUserIdentity {
        user_id: "@alice:example.org".to_string(),
        master_key: "OWNMASTER".to_string(),
        verified: true,
    });
    assert_eq!(
        our_mac_input(&ids, "txn", "ed25519:OWNMASTER"),
        Some(("OWNMASTER".to_string(), format!("{info}ed25519:OWNMASTER")))
    );
    assert_eq!(our_mac_input(&ids, "txn", "ed25519:BOBDEVCIE"), None);
}

#[test]
fn keys_mac_input_joins_ids() {
    let content = MacContent {
        flow_id: FlowId::ToDevice("t".to_string()),
        mac: vec![
            ("ed25519:A".to_string(), "x".to_string()),
            ("ed25519:B".to_string(), "y".to_string()),
        ],
        keys: String::new(),
    };
    assert_eq!(
        keys_mac_input("INFO", &content),
        ("ed25519:A,ed25519:B".to_string(), "INFOKEY_IDS".to_string())
    );
}

#[test]
fn short_auth_info_encodes_keys() {
    let info = short_auth_info(&ids(), &vec![0u8; 3], &vec![255u8; 3], &FlowId::ToDevice("txn".to_string()), true);
    assert_eq!(
        info,
        "MATRIX_KEY_VERIFICATION_SAS|@alice:example.org|JLAFKJWSCS|AAAA|@bob:example.org|BOBDEVCIE|////|txn"
    );
}

#[test]
fn cancel_reasons() {
    assert_eq!(CancelCode::User.reason(), "The user cancelled the verification.");
    assert_eq!(CancelCode::Accepted.as_str(), "m.accepted");
}
