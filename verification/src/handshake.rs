//! Handshake types and the messages that carry them.

use vstd::prelude::*;

verus! {

/// The type of a handshake message.
#[derive(Clone, Copy, Debug, PartialEq, Eq, Structural)]
pub enum HandshakeType {
    HelloRequest,
    ClientHello,
    ServerHello,
    HelloVerifyRequest,
    NewSessionTicket,
    EndOfEarlyData,
    HelloRetryRequest,
    EncryptedExtensions,
    Certificate,
    ServerKeyExchange,
    CertificateRequest,
    ServerHelloDone,
    CertificateVerify,
    ClientKeyExchange,
    Finished,
    CertificateURL,
    CertificateStatus,
    KeyUpdate,
    CompressedCertificate,
    MessageHash,
    /// A type byte without a name of its own.
    Unknown(u8),
}

impl HandshakeType {
    /// The handshake type that a type byte on the wire stands for.
    pub open spec fn of_byte(byte: u8) -> HandshakeType {
        match byte {
            0x00 => HandshakeType::HelloRequest,
            0x01 => HandshakeType::ClientHello,
            0x02 => HandshakeType::ServerHello,
            0x03 => HandshakeType::HelloVerifyRequest,
            0x04 => HandshakeType::NewSessionTicket,
            0x05 => HandshakeType::EndOfEarlyData,
            0x06 => HandshakeType::HelloRetryRequest,
            0x08 => HandshakeType::EncryptedExtensions,
            0x0b => HandshakeType::Certificate,
            0x0c => HandshakeType::ServerKeyExchange,
            0x0d => HandshakeType::CertificateRequest,
            0x0e => HandshakeType::ServerHelloDone,
            0x0f => HandshakeType::CertificateVerify,
            0x10 => HandshakeType::ClientKeyExchange,
            0x14 => HandshakeType::Finished,
            0x15 => HandshakeType::CertificateURL,
            0x16 => HandshakeType::CertificateStatus,
            0x18 => HandshakeType::KeyUpdate,
            0x19 => HandshakeType::CompressedCertificate,
            0xfe => HandshakeType::MessageHash,
            other => HandshakeType::Unknown(other),
        }
    }
}

impl From<u8> for HandshakeType {
    fn from(byte: u8) -> (ty: Self) {
        match byte {
            0x00 => HandshakeType::HelloRequest,
            0x01 => HandshakeType::ClientHello,
            0x02 => HandshakeType::ServerHello,
            0x03 => HandshakeType::HelloVerifyRequest,
            0x04 => HandshakeType::NewSessionTicket,
            0x05 => HandshakeType::EndOfEarlyData,
            0x06 => HandshakeType::HelloRetryRequest,
            0x08 => HandshakeType::EncryptedExtensions,
            0x0b => HandshakeType::Certificate,
            0x0c => HandshakeType::ServerKeyExchange,
            0x0d => HandshakeType::CertificateRequest,
            0x0e => HandshakeType::ServerHelloDone,
            0x0f => HandshakeType::CertificateVerify,
            0x10 => HandshakeType::ClientKeyExchange,
            0x14 => HandshakeType::Finished,
            0x15 => HandshakeType::CertificateURL,
            0x16 => HandshakeType::CertificateStatus,
            0x18 => HandshakeType::KeyUpdate,
            0x19 => HandshakeType::CompressedCertificate,
            0xfe => HandshakeType::MessageHash,
            other => HandshakeType::Unknown(other),
        }
    }
}

impl vstd::std_specs::convert::FromSpecImpl<u8> for HandshakeType {
    open spec fn obeys_from_spec() -> bool {
        true
    }

    open spec fn from_spec(byte: u8) -> Self {
        HandshakeType::of_byte(byte)
    }
}

/// A type byte stands for the type that the TLS registry gives it, and no other byte stands for
/// that type.
pub proof fn law_type_bytes_follow_the_registry(byte: u8)
    ensures
        <HandshakeType as vstd::std_specs::convert::FromSpec<u8>>::from_spec(byte)
            == HandshakeType::of_byte(byte),
        HandshakeType::of_byte(byte) is HelloRequest <==> byte == 0x00,
        HandshakeType::of_byte(byte) is ClientHello <==> byte == 0x01,
        HandshakeType::of_byte(byte) is ServerHello <==> byte == 0x02,
        HandshakeType::of_byte(byte) is HelloVerifyRequest <==> byte == 0x03,
        HandshakeType::of_byte(byte) is NewSessionTicket <==> byte == 0x04,
        HandshakeType::of_byte(byte) is EndOfEarlyData <==> byte == 0x05,
        HandshakeType::of_byte(byte) is HelloRetryRequest <==> byte == 0x06,
        HandshakeType::of_byte(byte) is EncryptedExtensions <==> byte == 0x08,
        HandshakeType::of_byte(byte) is Certificate <==> byte == 0x0b,
        HandshakeType::of_byte(byte) is ServerKeyExchange <==> byte == 0x0c,
        HandshakeType::of_byte(byte) is CertificateRequest <==> byte == 0x0d,
        HandshakeType::of_byte(byte) is ServerHelloDone <==> byte == 0x0e,
        HandshakeType::of_byte(byte) is CertificateVerify <==> byte == 0x0f,
        HandshakeType::of_byte(byte) is ClientKeyExchange <==> byte == 0x10,
        HandshakeType::of_byte(byte) is Finished <==> byte == 0x14,
        HandshakeType::of_byte(byte) is CertificateURL <==> byte == 0x15,
        HandshakeType::of_byte(byte) is CertificateStatus <==> byte == 0x16,
        HandshakeType::of_byte(byte) is KeyUpdate <==> byte == 0x18,
        HandshakeType::of_byte(byte) is CompressedCertificate <==> byte == 0x19,
        HandshakeType::of_byte(byte) is MessageHash <==> byte == 0xfe,
{
}

/// A byte without a type of its own is kept as it is, and different bytes never stand for the
/// same type.
pub proof fn law_type_byte_is_not_lost(a: u8, b: u8)
    ensures
        HandshakeType::of_byte(a) matches HandshakeType::Unknown(kept) ==> kept == a,
        HandshakeType::of_byte(a) == HandshakeType::of_byte(b) ==> a == b,
{
}

/// A parsed handshake message: its type and the bytes of its body.
#[derive(Clone, Debug)]
pub struct HandshakePayload {
    pub typ: HandshakeType,
    pub body: Vec<u8>,
}

impl HandshakePayload {
    /// The type of this message.
    pub fn handshake_type(&self) -> (ty: HandshakeType)
        ensures
            ty == self.typ,
    {
        self.typ
    }
}

/// A handshake message as it stands in a [`MessagePayload`].
#[derive(Clone, Debug)]
pub struct HandshakeMessagePayload(pub HandshakePayload);

/// What a message carries.
#[derive(Clone, Debug)]
pub enum MessagePayload {
    /// An alert, as its bytes.
    Alert(Vec<u8>),
    /// One handshake message, parsed and as it was encoded.
    Handshake { parsed: HandshakeMessagePayload, encoded: Vec<u8> },
    /// Several handshake messages, encoded one after the other.
    HandshakeFlight(Vec<u8>),
    /// A change of cipher spec, as its bytes.
    ChangeCipherSpec(Vec<u8>),
    /// Application data.
    ApplicationData(Vec<u8>),
}

/// A message of the record layer.
#[derive(Clone, Debug)]
pub struct Message {
    pub payload: MessagePayload,
}

impl Message {
    /// Whether this message is one parsed handshake message.
    pub open spec fn is_handshake(self) -> bool {
        self.payload is Handshake
    }

    /// The type of the handshake message that this message carries.
    pub open spec fn carried_type(self) -> HandshakeType
        recommends
            self.is_handshake(),
    {
        self.payload->parsed.0.typ
    }
}

/// Whatever its body and its encoding, a handshake message that was parsed as one of type `typ`
/// carries `typ`.
pub proof fn law_parsed_type_is_carried(typ: HandshakeType, body: Vec<u8>, encoded: Vec<u8>)
    ensures
        ({
            let parsed = HandshakeMessagePayload(HandshakePayload { typ, body });
            let msg = Message { payload: MessagePayload::Handshake { parsed, encoded } };
            msg.is_handshake() && msg.carried_type() == typ
        }),
{
}

/// No other kind of message is a parsed handshake message.
pub proof fn law_only_parsed_messages_are_handshakes(bytes: Vec<u8>)
    ensures
        !(Message { payload: MessagePayload::Alert(bytes) }).is_handshake(),
        !(Message { payload: MessagePayload::HandshakeFlight(bytes) }).is_handshake(),
        !(Message { payload: MessagePayload::ChangeCipherSpec(bytes) }).is_handshake(),
        !(Message { payload: MessagePayload::ApplicationData(bytes) }).is_handshake(),
{
}

/// Extract the `HandshakeType` from a parsed handshake message.
pub fn handshake_type_of(msg: &Message) -> (ty: HandshakeType)
    requires
        msg.is_handshake(),
    ensures
        ty == msg.carried_type(),
        msg.payload matches MessagePayload::Handshake { parsed, .. } ==> ty == parsed.0.typ,
{
    match &msg.payload {
        MessagePayload::Handshake { parsed, .. } => parsed.0.handshake_type(),
        _ => vstd::pervasive::unreached(),
    }
}

} // verus!
