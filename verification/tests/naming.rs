use handshake_timing::handshake::{
    handshake_type_of, HandshakeMessagePayload, HandshakePayload, HandshakeType, Message,
    MessagePayload,
};
use handshake_timing::names::{fallback_name, message_name, NEGOTIATE_END, NEGOTIATE_START};
use handshake_timing::role::{Role, Side};

const SIDES: [Side; 2] = [Side::Client, Side::Server];

#[test]
fn message_name_core_vocabulary() {
    assert_eq!(message_name(HandshakeType::ClientHello, Side::Client), "CLIENT_HELLO");
    assert_eq!(message_name(HandshakeType::ClientHello, Side::Server), "CLIENT_HELLO");

    assert_eq!(message_name(HandshakeType::ServerHello, Side::Client), "SERVER_HELLO");
    assert_eq!(message_name(HandshakeType::ServerHello, Side::Server), "SERVER_HELLO");

    assert_eq!(
        message_name(HandshakeType::EncryptedExtensions, Side::Client),
        "ENCRYPTED_EXTENSIONS"
    );
    assert_eq!(
        message_name(HandshakeType::EncryptedExtensions, Side::Server),
        "ENCRYPTED_EXTENSIONS"
    );

    assert_eq!(message_name(HandshakeType::Certificate, Side::Client), "SERVER_CERT");
    assert_eq!(message_name(HandshakeType::Certificate, Side::Server), "CLIENT_CERT");

    assert_eq!(
        message_name(HandshakeType::CertificateVerify, Side::Client),
        "SERVER_CERT_VERIFY"
    );
    assert_eq!(
        message_name(HandshakeType::CertificateVerify, Side::Server),
        "CLIENT_CERT_VERIFY"
    );

    assert_eq!(message_name(HandshakeType::Finished, Side::Client), "SERVER_FINISHED");
    assert_eq!(message_name(HandshakeType::Finished, Side::Server), "CLIENT_FINISHED");
}

#[test]
fn message_name_is_total_and_deterministic() {
    for raw_type in 0u8..=255u8 {
        for side in SIDES {
            let ty = HandshakeType::from(raw_type);
            let name = message_name(ty, side);

            assert!(!name.is_empty(), "empty name for {:?}, {:?}", ty, side);
            assert!(
                name.chars()
                    .all(|c| c.is_ascii_uppercase() || c.is_ascii_digit() || c == '_'),
                "{:?} for {:?}, {:?}",
                name,
                ty,
                side
            );
            assert_eq!(name, message_name(ty, side));
        }
    }
}

#[test]
fn core_vocabulary_matches_fixed_table() {
    for side in SIDES {
        assert_eq!(message_name(HandshakeType::ClientHello, side), "CLIENT_HELLO");
        assert_eq!(message_name(HandshakeType::ServerHello, side), "SERVER_HELLO");
        assert_eq!(message_name(HandshakeType::HelloRetryRequest, side), "HELLO_RETRY_REQUEST");
        assert_eq!(message_name(HandshakeType::EncryptedExtensions, side), "ENCRYPTED_EXTENSIONS");

        match side {
            Side::Client => {
                assert_eq!(message_name(HandshakeType::Certificate, side), "SERVER_CERT");
                assert_eq!(
                    message_name(HandshakeType::CertificateVerify, side),
                    "SERVER_CERT_VERIFY"
                );
                assert_eq!(message_name(HandshakeType::Finished, side), "SERVER_FINISHED");
            }
            Side::Server => {
                assert_eq!(message_name(HandshakeType::Certificate, side), "CLIENT_CERT");
                assert_eq!(
                    message_name(HandshakeType::CertificateVerify, side),
                    "CLIENT_CERT_VERIFY"
                );
                assert_eq!(message_name(HandshakeType::Finished, side), "CLIENT_FINISHED");
            }
        }

        assert_eq!(message_name(HandshakeType::Unknown(0x07), side), "UNKNOWN_HANDSHAKE");
        assert_eq!(message_name(HandshakeType::Unknown(0xFF), side), "UNKNOWN_HANDSHAKE");
    }
}

#[test]
fn other_types_have_the_same_name_on_both_sides() {
    let table = [
        (HandshakeType::HelloRequest, "HELLO_REQUEST"),
        (HandshakeType::HelloVerifyRequest, "HELLO_VERIFY_REQUEST"),
        (HandshakeType::NewSessionTicket, "NEW_SESSION_TICKET"),
        (HandshakeType::EndOfEarlyData, "END_OF_EARLY_DATA"),
        (HandshakeType::ServerKeyExchange, "SERVER_KEY_EXCHANGE"),
        (HandshakeType::CertificateRequest, "CERTIFICATE_REQUEST"),
        (HandshakeType::ServerHelloDone, "SERVER_HELLO_DONE"),
        (HandshakeType::ClientKeyExchange, "CLIENT_KEY_EXCHANGE"),
        (HandshakeType::CertificateURL, "CERTIFICATE_URL"),
        (HandshakeType::CertificateStatus, "CERTIFICATE_STATUS"),
        (HandshakeType::KeyUpdate, "KEY_UPDATE"),
        (HandshakeType::CompressedCertificate, "COMPRESSED_CERTIFICATE"),
        (HandshakeType::MessageHash, "MESSAGE_HASH"),
        (HandshakeType::Unknown(0x42), "UNKNOWN_HANDSHAKE"),
    ];
    for (ty, name) in table {
        assert_eq!(fallback_name(ty), name);
        for side in SIDES {
            assert_eq!(message_name(ty, side), name);
        }
    }
}

#[test]
fn core_types_have_no_fallback_name() {
    for ty in [
        HandshakeType::ClientHello,
        HandshakeType::ServerHello,
        HandshakeType::HelloRetryRequest,
        HandshakeType::EncryptedExtensions,
        HandshakeType::Certificate,
        HandshakeType::CertificateVerify,
        HandshakeType::Finished,
    ] {
        assert_eq!(fallback_name(ty), "UNKNOWN_HANDSHAKE");
    }
}

#[test]
fn names_identify_known_types_and_spare_the_anchors() {
    for side in SIDES {
        for a in 0u8..=255u8 {
            let first = HandshakeType::from(a);
            assert_ne!(message_name(first, side), NEGOTIATE_START);
            assert_ne!(message_name(first, side), NEGOTIATE_END);
            for b in 0u8..=255u8 {
                let second = HandshakeType::from(b);
                let both_unknown = matches!(first, HandshakeType::Unknown(_))
                    && matches!(second, HandshakeType::Unknown(_));
                if a != b && !both_unknown {
                    assert_ne!(message_name(first, side), message_name(second, side));
                }
            }
        }
    }
}

#[test]
fn names_stay_distinct_across_the_sides() {
    for a in 0u8..=255u8 {
        for b in 0u8..=255u8 {
            let client = HandshakeType::from(a);
            let server = HandshakeType::from(b);
            let both_unknown = matches!(client, HandshakeType::Unknown(_))
                && matches!(server, HandshakeType::Unknown(_));
            if a != b && !both_unknown {
                assert_ne!(
                    message_name(client, Side::Client),
                    message_name(server, Side::Server)
                );
            }
        }
    }
}

#[test]
fn anchor_names() {
    assert_eq!(NEGOTIATE_START, "NEGOTIATE_START");
    assert_eq!(NEGOTIATE_END, "NEGOTIATE_END");
}

#[test]
fn type_bytes() {
    assert_eq!(HandshakeType::from(0x00), HandshakeType::HelloRequest);
    assert_eq!(HandshakeType::from(0x01), HandshakeType::ClientHello);
    assert_eq!(HandshakeType::from(0x02), HandshakeType::ServerHello);
    assert_eq!(HandshakeType::from(0x0b), HandshakeType::Certificate);
    assert_eq!(HandshakeType::from(0x14), HandshakeType::Finished);
    assert_eq!(HandshakeType::from(0xfe), HandshakeType::MessageHash);
    assert_eq!(HandshakeType::from(0x07), HandshakeType::Unknown(0x07));
    assert_eq!(HandshakeType::from(0xff), HandshakeType::Unknown(0xff));
}

#[test]
fn role_encoding() {
    assert_eq!(Role::Server.as_u8(), 0);
    assert_eq!(Role::Client.as_u8(), 1);
}

#[test]
fn role_follows_side() {
    assert_eq!(Role::from(Side::Server), Role::Server);
    assert_eq!(Role::from(Side::Client), Role::Client);
    assert_eq!(Role::from(Side::Client).as_u8(), 1);
    assert_eq!(Role::from(Side::Server).as_u8(), 0);
}

#[test]
fn type_of_a_handshake_message() {
    for byte in [0x01u8, 0x02, 0x0f, 0x77] {
        let message = Message {
            payload: MessagePayload::Handshake {
                parsed: HandshakeMessagePayload(HandshakePayload {
                    typ: HandshakeType::from(byte),
                    body: vec![1, 2],
                }),
                encoded: vec![byte, 0, 0, 2, 1, 2],
            },
        };
        assert_eq!(handshake_type_of(&message), HandshakeType::from(byte));
    }
}
