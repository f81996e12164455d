//! The checkpoint name of a handshake message.

use vstd::prelude::*;

use crate::handshake::HandshakeType;
use crate::role::Side;

verus! {

/// Name of the checkpoint that opens a connection's negotiation.
pub const NEGOTIATE_START: &'static str = "NEGOTIATE_START";

/// Name of the checkpoint that closes a connection's negotiation.
pub const NEGOTIATE_END: &'static str = "NEGOTIATE_END";

/// The name of a message outside the core vocabulary. The core types, which [`name_of`] names
/// itself, come out as unknown here.
pub open spec fn fallback_name_of(ty: HandshakeType) -> Seq<char> {
    match ty {
        HandshakeType::HelloRequest => "HELLO_REQUEST"@,
        HandshakeType::HelloVerifyRequest => "HELLO_VERIFY_REQUEST"@,
        HandshakeType::NewSessionTicket => "NEW_SESSION_TICKET"@,
        HandshakeType::EndOfEarlyData => "END_OF_EARLY_DATA"@,
        HandshakeType::ServerKeyExchange => "SERVER_KEY_EXCHANGE"@,
        HandshakeType::CertificateRequest => "CERTIFICATE_REQUEST"@,
        HandshakeType::ServerHelloDone => "SERVER_HELLO_DONE"@,
        HandshakeType::ClientKeyExchange => "CLIENT_KEY_EXCHANGE"@,
        HandshakeType::CertificateURL => "CERTIFICATE_URL"@,
        HandshakeType::CertificateStatus => "CERTIFICATE_STATUS"@,
        HandshakeType::KeyUpdate => "KEY_UPDATE"@,
        HandshakeType::CompressedCertificate => "COMPRESSED_CERTIFICATE"@,
        HandshakeType::MessageHash => "MESSAGE_HASH"@,
        _ => "UNKNOWN_HANDSHAKE"@,
    }
}

/// The checkpoint name of a message of type `ty` that `side` processes.
pub open spec fn name_of(ty: HandshakeType, side: Side) -> Seq<char> {
    match (ty, side) {
        (HandshakeType::ClientHello, _) => "CLIENT_HELLO"@,
        (HandshakeType::ServerHello, _) => "SERVER_HELLO"@,
        (HandshakeType::HelloRetryRequest, _) => "HELLO_RETRY_REQUEST"@,
        (HandshakeType::EncryptedExtensions, _) => "ENCRYPTED_EXTENSIONS"@,
        (HandshakeType::Certificate, Side::Client) => "SERVER_CERT"@,
        (HandshakeType::Certificate, Side::Server) => "CLIENT_CERT"@,
        (HandshakeType::CertificateVerify, Side::Client) => "SERVER_CERT_VERIFY"@,
        (HandshakeType::CertificateVerify, Side::Server) => "CLIENT_CERT_VERIFY"@,
        (HandshakeType::Finished, Side::Client) => "SERVER_FINISHED"@,
        (HandshakeType::Finished, Side::Server) => "CLIENT_FINISHED"@,
        _ => fallback_name_of(ty),
    }
}

/// Map a handshake type and connection side to an s2n-aligned UPPER_SNAKE name.
///
/// The mapping is receiver-relative: when a *client* receives a `Certificate`, it is the
/// server's certificate, hence `SERVER_CERT`.
///
/// Deterministic: identical (type, side) inputs always yield identical output.
pub fn message_name(ty: HandshakeType, side: Side) -> (name: &'static str)
    ensures
        name@ == name_of(ty, side),
{
    match ty {
        HandshakeType::ClientHello => "CLIENT_HELLO",
        HandshakeType::ServerHello => "SERVER_HELLO",
        HandshakeType::HelloRetryRequest => "HELLO_RETRY_REQUEST",
        HandshakeType::EncryptedExtensions => "ENCRYPTED_EXTENSIONS",
        HandshakeType::Certificate => match side {
            Side::Client => "SERVER_CERT",
            Side::Server => "CLIENT_CERT",
        },
        HandshakeType::CertificateVerify => match side {
            Side::Client => "SERVER_CERT_VERIFY",
            Side::Server => "CLIENT_CERT_VERIFY",
        },
        HandshakeType::Finished => match side {
            Side::Client => "SERVER_FINISHED",
            Side::Server => "CLIENT_FINISHED",
        },
        // Every type outside the core vocabulary.
        other => fallback_name(other),
    }
}

/// Deterministic fallback for HandshakeType variants not in the core vocabulary.
pub fn fallback_name(ty: HandshakeType) -> (name: &'static str)
    ensures
        name@ == fallback_name_of(ty),
{
    match ty {
        HandshakeType::HelloRequest => "HELLO_REQUEST",
        HandshakeType::HelloVerifyRequest => "HELLO_VERIFY_REQUEST",
        HandshakeType::NewSessionTicket => "NEW_SESSION_TICKET",
        HandshakeType::EndOfEarlyData => "END_OF_EARLY_DATA",
        HandshakeType::ServerKeyExchange => "SERVER_KEY_EXCHANGE",
        HandshakeType::CertificateRequest => "CERTIFICATE_REQUEST",
        HandshakeType::ServerHelloDone => "SERVER_HELLO_DONE",
        HandshakeType::ClientKeyExchange => "CLIENT_KEY_EXCHANGE",
        HandshakeType::CertificateURL => "CERTIFICATE_URL",
        HandshakeType::CertificateStatus => "CERTIFICATE_STATUS",
        HandshakeType::KeyUpdate => "KEY_UPDATE",
        HandshakeType::CompressedCertificate => "COMPRESSED_CERTIFICATE",
        HandshakeType::MessageHash => "MESSAGE_HASH",
        HandshakeType::Unknown(_) => "UNKNOWN_HANDSHAKE",
        // The core vocabulary belongs to `message_name`.
        _ => "UNKNOWN_HANDSHAKE",
    }
}

/// A letter, digit or underscore as UPPER_SNAKE_CASE has them.
pub open spec fn is_upper_snake_char(c: char) -> bool {
    ||| 'A' <= c <= 'Z'
    ||| '0' <= c <= '9'
    ||| c == '_'
}

/// Non-empty UPPER_SNAKE_CASE.
pub open spec fn is_upper_snake(name: Seq<char>) -> bool {
    &&& name.len() > 0
    &&& forall|i: int| 0 <= i < name.len() ==> is_upper_snake_char(#[trigger] name[i])
}

/// How a name of a message begins that only the peer of `side` can have sent.
pub open spec fn peer_prefix(side: Side) -> Seq<char> {
    match side {
        Side::Client => "SERVER_"@,
        Side::Server => "CLIENT_"@,
    }
}

/// The length and the fourth character of the name of a message, which together tell the names
/// and the two anchors apart.
spec fn mark_of(ty: HandshakeType, side: Side) -> (nat, char) {
    match (ty, side) {
        (HandshakeType::HelloRequest, _) => (13, 'L'),
        (HandshakeType::ClientHello, _) => (12, 'E'),
        (HandshakeType::ServerHello, _) => (12, 'V'),
        (HandshakeType::HelloVerifyRequest, _) => (20, 'L'),
        (HandshakeType::NewSessionTicket, _) => (18, '_'),
        (HandshakeType::EndOfEarlyData, _) => (17, '_'),
        (HandshakeType::HelloRetryRequest, _) => (19, 'L'),
        (HandshakeType::EncryptedExtensions, _) => (20, 'R'),
        (HandshakeType::Certificate, Side::Client) => (11, 'V'),
        (HandshakeType::Certificate, Side::Server) => (11, 'E'),
        (HandshakeType::ServerKeyExchange, _) => (19, 'V'),
        (HandshakeType::CertificateRequest, _) => (19, 'T'),
        (HandshakeType::ServerHelloDone, _) => (17, 'V'),
        (HandshakeType::CertificateVerify, Side::Client) => (18, 'V'),
        (HandshakeType::CertificateVerify, Side::Server) => (18, 'E'),
        (HandshakeType::ClientKeyExchange, _) => (19, 'E'),
        (HandshakeType::Finished, Side::Client) => (15, 'V'),
        (HandshakeType::Finished, Side::Server) => (15, 'E'),
        (HandshakeType::CertificateURL, _) => (15, 'T'),
        (HandshakeType::CertificateStatus, _) => (18, 'T'),
        (HandshakeType::KeyUpdate, _) => (10, '_'),
        (HandshakeType::CompressedCertificate, _) => (22, 'P'),
        (HandshakeType::MessageHash, _) => (12, 'S'),
        (HandshakeType::Unknown(_), _) => (17, 'N'),
    }
}

/// What the text of the names comes to.
proof fn lemma_names_hold(ty: HandshakeType, side: Side)
    ensures
        name_of(ty, side).len() == mark_of(ty, side).0,
        name_of(ty, side)[3] == mark_of(ty, side).1,
        is_upper_snake(name_of(ty, side)),
        is_upper_snake(fallback_name_of(ty)),
{
    reveal_strlit("CLIENT_HELLO");
    reveal_strlit("SERVER_HELLO");
    reveal_strlit("HELLO_RETRY_REQUEST");
    reveal_strlit("ENCRYPTED_EXTENSIONS");
    reveal_strlit("SERVER_CERT");
    reveal_strlit("CLIENT_CERT");
    reveal_strlit("SERVER_CERT_VERIFY");
    reveal_strlit("CLIENT_CERT_VERIFY");
    reveal_strlit("SERVER_FINISHED");
    reveal_strlit("CLIENT_FINISHED");
    reveal_strlit("HELLO_REQUEST");
    reveal_strlit("HELLO_VERIFY_REQUEST");
    reveal_strlit("NEW_SESSION_TICKET");
    reveal_strlit("END_OF_EARLY_DATA");
    reveal_strlit("SERVER_KEY_EXCHANGE");
    reveal_strlit("CERTIFICATE_REQUEST");
    reveal_strlit("SERVER_HELLO_DONE");
    reveal_strlit("CLIENT_KEY_EXCHANGE");
    reveal_strlit("CERTIFICATE_URL");
    reveal_strlit("CERTIFICATE_STATUS");
    reveal_strlit("KEY_UPDATE");
    reveal_strlit("COMPRESSED_CERTIFICATE");
    reveal_strlit("MESSAGE_HASH");
    reveal_strlit("UNKNOWN_HANDSHAKE");
}

/// Every handshake type has a name on either side, and that name is non-empty
/// UPPER_SNAKE_CASE.
pub proof fn law_every_name_is_upper_snake(ty: HandshakeType, side: Side)
    ensures
        is_upper_snake(name_of(ty, side)),
        is_upper_snake(fallback_name_of(ty)),
{
    lemma_names_hold(ty, side);
}

/// The two anchors have non-empty UPPER_SNAKE_CASE names, which differ from each other.
pub proof fn law_anchors_are_upper_snake()
    ensures
        is_upper_snake(NEGOTIATE_START@),
        is_upper_snake(NEGOTIATE_END@),
        NEGOTIATE_START@ != NEGOTIATE_END@,
{
    reveal_strlit("NEGOTIATE_START");
    reveal_strlit("NEGOTIATE_END");
}

/// No message is named like an anchor.
pub proof fn law_message_is_never_named_like_an_anchor(ty: HandshakeType, side: Side)
    ensures
        name_of(ty, side) != NEGOTIATE_START@,
        name_of(ty, side) != NEGOTIATE_END@,
{
    reveal_strlit("NEGOTIATE_START");
    reveal_strlit("NEGOTIATE_END");
    lemma_names_hold(ty, side);
}

/// On one side, messages of different types have different names, except that all unknown types
/// share one.
pub proof fn law_name_identifies_type(a: HandshakeType, b: HandshakeType, side: Side)
    requires
        name_of(a, side) == name_of(b, side),
    ensures
        a == b || (a is Unknown && b is Unknown),
{
    lemma_names_hold(a, side);
    lemma_names_hold(b, side);
}

/// Names stay distinct across the two sides: where two messages have the same name, they have the
/// same type or both have unknown types, and a message of which the name depends on the side was
/// processed by the same side.
pub proof fn law_name_identifies_type_across_sides(
    a: HandshakeType,
    side_a: Side,
    b: HandshakeType,
    side_b: Side,
)
    requires
        name_of(a, side_a) == name_of(b, side_b),
    ensures
        a == b || (a is Unknown && b is Unknown),
        name_of(a, Side::Client) != name_of(a, Side::Server) ==> side_a == side_b,
{
    lemma_names_hold(a, side_a);
    lemma_names_hold(b, side_b);
}

/// A certificate, its verification and a finished message are named after the peer of the side
/// that processes them.
pub proof fn law_authentication_is_named_after_the_peer(side: Side)
    ensures
        name_of(HandshakeType::Certificate, side) == peer_prefix(side) + "CERT"@,
        name_of(HandshakeType::CertificateVerify, side) == peer_prefix(side) + "CERT_VERIFY"@,
        name_of(HandshakeType::Finished, side) == peer_prefix(side) + "FINISHED"@,
{
    reveal_strlit("CLIENT_");
    reveal_strlit("SERVER_");
    reveal_strlit("CERT");
    reveal_strlit("CERT_VERIFY");
    reveal_strlit("FINISHED");
    reveal_strlit("SERVER_CERT");
    reveal_strlit("CLIENT_CERT");
    reveal_strlit("SERVER_CERT_VERIFY");
    reveal_strlit("CLIENT_CERT_VERIFY");
    reveal_strlit("SERVER_FINISHED");
    reveal_strlit("CLIENT_FINISHED");
}

/// Those three are the only types whose name depends on the side that processes them.
pub proof fn law_name_depends_on_side_only_for_authentication(ty: HandshakeType)
    ensures
        name_of(ty, Side::Client) != name_of(ty, Side::Server) <==> {
            ||| ty == HandshakeType::Certificate
            ||| ty == HandshakeType::CertificateVerify
            ||| ty == HandshakeType::Finished
        },
{
    lemma_names_hold(ty, Side::Client);
    lemma_names_hold(ty, Side::Server);
}

/// Any type byte without a name of its own is an unknown handshake on either side.
pub proof fn law_unknown_type_is_unknown_handshake(byte: u8, side: Side)
    ensures
        name_of(HandshakeType::Unknown(byte), side) == "UNKNOWN_HANDSHAKE"@,
        fallback_name_of(HandshakeType::Unknown(byte)) == "UNKNOWN_HANDSHAKE"@,
{
}

} // verus!
