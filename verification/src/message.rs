//! One framed message: its type codes, its checksum, and the codec between a
//! message and its bytes on the wire.
//!
//! A frame is `sync ‖ type ‖ payload ‖ checksum`. It carries no length.

use crate::bytes::extend_bytes;
use crate::errors::{BESLinkError, ErrorView};
use crate::transport::{Action, ActionView};
use vstd::prelude::*;

verus! {

/// The type of a message, the second byte of its frame.
#[derive(Debug, PartialEq, Eq, Structural, Clone, Copy)]
pub enum MessageTypes {
    /// General commands to the device.
    DeviceCommand,
    /// Debug read of the device's address space.
    FlashRead,
    /// Boot ROM synchronisation.
    Sync,
    StartProgrammer,
    ProgrammerRunning,
    ProgrammerStart,
    ProgrammerInit,
    EraseBurnStart,
    FlashBurnData,
    /// Commands to the flash controller, told apart by a sub-code.
    FlashCommand,
    /// A code the device is known to send, of unknown meaning.
    UnknownORInfo,
    /// Any code that is none of the above. It keeps the code it was read
    /// with, so it is never mistaken for a defined type.
    Unrecognized(u8),
}

/// The code that stands for `t` on the wire.
pub open spec fn type_code(t: MessageTypes) -> u8 {
    match t {
        MessageTypes::DeviceCommand => 0x00,
        MessageTypes::FlashRead => 0x03,
        MessageTypes::Sync => 0x50,
        MessageTypes::StartProgrammer => 0x53,
        MessageTypes::ProgrammerRunning => 0x54,
        MessageTypes::ProgrammerStart => 0x55,
        MessageTypes::ProgrammerInit => 0x60,
        MessageTypes::EraseBurnStart => 0x61,
        MessageTypes::FlashBurnData => 0x62,
        MessageTypes::FlashCommand => 0x65,
        MessageTypes::UnknownORInfo => 0x66,
        MessageTypes::Unrecognized(code) => code,
    }
}

/// The type that `code` stands for.
pub open spec fn type_of_code(code: u8) -> MessageTypes {
    if code == 0x00 {
        MessageTypes::DeviceCommand
    } else if code == 0x03 {
        MessageTypes::FlashRead
    } else if code == 0x50 {
        MessageTypes::Sync
    } else if code == 0x53 {
        MessageTypes::StartProgrammer
    } else if code == 0x54 {
        MessageTypes::ProgrammerRunning
    } else if code == 0x55 {
        MessageTypes::ProgrammerStart
    } else if code == 0x60 {
        MessageTypes::ProgrammerInit
    } else if code == 0x61 {
        MessageTypes::EraseBurnStart
    } else if code == 0x62 {
        MessageTypes::FlashBurnData
    } else if code == 0x65 {
        MessageTypes::FlashCommand
    } else if code == 0x66 {
        MessageTypes::UnknownORInfo
    } else {
        MessageTypes::Unrecognized(code)
    }
}

impl MessageTypes {
    /// An `Unrecognized` value is canonical when its code belongs to no
    /// defined type. Every value that decoding produces is canonical.
    pub open spec fn is_canonical(self) -> bool {
        type_of_code(type_code(self)) == self
    }
}

/// Every code stands for one type and that type for this code: no code is
/// taken for the code of another type, defined or not.
pub proof fn lemma_type_codes_do_not_alias(code: u8, other: u8)
    ensures
        type_code(type_of_code(code)) == code,
        type_of_code(code).is_canonical(),
        type_of_code(code) == type_of_code(other) ==> code == other,
{
}

impl From<u8> for MessageTypes {
    fn from(v: u8) -> (r: MessageTypes) {
        match v {
            0x00 => MessageTypes::DeviceCommand,
            0x03 => MessageTypes::FlashRead,
            0x50 => MessageTypes::Sync,
            0x53 => MessageTypes::StartProgrammer,
            0x54 => MessageTypes::ProgrammerRunning,
            0x55 => MessageTypes::ProgrammerStart,
            0x60 => MessageTypes::ProgrammerInit,
            0x61 => MessageTypes::EraseBurnStart,
            0x62 => MessageTypes::FlashBurnData,
            0x65 => MessageTypes::FlashCommand,
            0x66 => MessageTypes::UnknownORInfo,
            _ => MessageTypes::Unrecognized(v),
        }
    }
}

impl vstd::std_specs::convert::FromSpecImpl<u8> for MessageTypes {
    open spec fn obeys_from_spec() -> bool {
        true
    }

    open spec fn from_spec(v: u8) -> MessageTypes {
        type_of_code(v)
    }
}

impl From<MessageTypes> for u8 {
    fn from(v: MessageTypes) -> (r: u8) {
        match v {
            MessageTypes::DeviceCommand => 0x00,
            MessageTypes::FlashRead => 0x03,
            MessageTypes::Sync => 0x50,
            MessageTypes::StartProgrammer => 0x53,
            MessageTypes::ProgrammerRunning => 0x54,
            MessageTypes::ProgrammerStart => 0x55,
            MessageTypes::ProgrammerInit => 0x60,
            MessageTypes::EraseBurnStart => 0x61,
            MessageTypes::FlashBurnData => 0x62,
            MessageTypes::FlashCommand => 0x65,
            MessageTypes::UnknownORInfo => 0x66,
            MessageTypes::Unrecognized(code) => code,
        }
    }
}

impl vstd::std_specs::convert::FromSpecImpl<MessageTypes> for u8 {
    open spec fn obeys_from_spec() -> bool {
        true
    }

    open spec fn from_spec(v: MessageTypes) -> u8 {
        type_code(v)
    }
}

/// The sum of the first `n` bytes of `bytes`.
pub open spec fn byte_sum_upto(bytes: Seq<u8>, n: nat) -> nat
    decreases n,
{
    if n == 0 {
        0
    } else {
        byte_sum_upto(bytes, (n - 1) as nat) + bytes[n - 1] as nat
    }
}

/// The sum of all bytes of `bytes`.
pub open spec fn byte_sum(bytes: Seq<u8>) -> nat {
    byte_sum_upto(bytes, bytes.len())
}

/// The checksum that closes a frame whose earlier bytes are `bytes`:
/// `0xFF` less the sum of those bytes modulo 256.
pub open spec fn checksum_of(bytes: Seq<u8>) -> u8 {
    (0xFF - byte_sum(bytes) % 256) as u8
}

/// A frame is intact when its last byte is the checksum of all bytes before
/// it.
pub open spec fn checksum_holds(packet: Seq<u8>) -> bool
    recommends
        packet.len() >= 1,
{
    packet.last() == checksum_of(packet.drop_last())
}

/// What a frame with a wrong last byte is reported as.
pub open spec fn bad_checksum(packet: Seq<u8>) -> ErrorView
    recommends
        packet.len() >= 1,
{
    ErrorView::BadChecksumError {
        failed_packet: packet,
        got: packet.last(),
        wanted: checksum_of(packet.drop_last()),
    }
}

/// Computes the checksum over `packet`, which is a frame without its last
/// byte.
pub fn calculate_message_checksum(packet: &[u8]) -> (r: u8)
    ensures
        r == checksum_of(packet@),
{
    let mut sum: u32 = 0;
    let mut i: usize = 0;
    while i < packet.len()
        invariant
            i <= packet@.len(),
            sum == byte_sum_upto(packet@, i as nat) % 256,
        decreases packet@.len() - i,
    {
        let b: u8 = packet[i];
        let wide: u32 = sum + b as u32;
        assert(wide & 0xFF == wide % 256) by (bit_vector);
        sum = wide & 0xFF;
        i += 1;
    }
    (0xFF - sum) as u8
}

/// Checks the last byte of `packet` against the checksum of the bytes before
/// it. A mismatch is reported with the whole frame and both values.
pub fn validate_packet_checksum(packet: &[u8]) -> (r: Result<(), BESLinkError>)
    requires
        packet@.len() >= 1,
    ensures
        checksum_holds(packet@) <==> r is Ok,
        r matches Err(e) ==> e@ == bad_checksum(packet@),
{
    let n = packet.len();
    let checksum = calculate_message_checksum(&packet[0..n - 1]);
    assert(packet@.subrange(0, n - 1) == packet@.drop_last());
    if checksum == packet[n - 1] {
        return Ok(());
    }
    let mut failed_packet: Vec<u8> = Vec::new();
    extend_bytes(&mut failed_packet, packet);
    Err(BESLinkError::BadChecksumError { failed_packet, got: packet[n - 1], wanted: checksum })
}

/// The marker that opens every frame.
pub const BES_SYNC: u8 = 0xBE;

/// One message of the link.
///
/// `checksum` is a field like the others: a message may hold a wrong one, as
/// a frame on the wire may. [`BesMessage::set_checksum`] makes it right.
#[derive(Debug, PartialEq)]
pub struct BesMessage {
    pub sync: u8,
    pub type1: MessageTypes,
    pub payload: Vec<u8>,
    pub checksum: u8,
}

/// The mathematical content of a [`BesMessage`].
pub struct MessageView {
    pub sync: u8,
    pub type1: MessageTypes,
    pub payload: Seq<u8>,
    pub checksum: u8,
}

impl View for BesMessage {
    type V = MessageView;

    open spec fn view(&self) -> MessageView {
        MessageView {
            sync: self.sync,
            type1: self.type1,
            payload: self.payload@,
            checksum: self.checksum,
        }
    }
}

impl Clone for BesMessage {
    fn clone(&self) -> (r: BesMessage)
        ensures
            r@ == self@,
    {
        let mut payload: Vec<u8> = Vec::new();
        extend_bytes(&mut payload, self.payload.as_slice());
        BesMessage { sync: self.sync, type1: self.type1, payload, checksum: self.checksum }
    }
}

impl MessageView {
    /// The bytes before the checksum: sync marker, type code, payload.
    pub open spec fn body(self) -> Seq<u8> {
        seq![self.sync, type_code(self.type1)] + self.payload
    }

    /// The frame of this message: its body, then its checksum byte.
    pub open spec fn encode(self) -> Seq<u8> {
        self.body().push(self.checksum)
    }

    /// The message whose frame is `bytes`.
    pub open spec fn decode(bytes: Seq<u8>) -> MessageView
        recommends
            bytes.len() >= 3,
    {
        MessageView {
            sync: bytes[0],
            type1: type_of_code(bytes[1]),
            payload: bytes.subrange(2, bytes.len() - 1),
            checksum: bytes.last(),
        }
    }

    /// This message with the checksum that its body calls for.
    pub open spec fn sealed(self) -> MessageView {
        MessageView { checksum: checksum_of(self.body()), ..self }
    }

    /// The checksum field is the checksum of the body.
    pub open spec fn is_sealed(self) -> bool {
        self.checksum == checksum_of(self.body())
    }
}

impl BesMessage {
    /// Encodes the message as sync marker, type code, payload and checksum,
    /// with no length prefix.
    pub fn to_vec(&self) -> (r: Vec<u8>)
        ensures
            r@ == self@.encode(),
    {
        let mut result: Vec<u8> = Vec::new();
        result.push(self.sync);
        result.push(u8::from(self.type1));
        extend_bytes(&mut result, self.payload.as_slice());
        result.push(self.checksum);
        result
    }

    /// The action that puts the message on the wire: one write of its
    /// frame.
    pub fn send_packet(&self) -> (r: Action)
        ensures
            r@ == ActionView::Send(self@.encode()),
    {
        Action::Send(self.to_vec())
    }

    /// Recomputes the checksum from the other fields.
    pub fn set_checksum(&mut self)
        ensures
            final(self)@ == old(self)@.sealed(),
    {
        let mut v = self.to_vec();
        v.pop();
        assert(v@ == self@.body());
        self.checksum = calculate_message_checksum(v.as_slice());
    }

    /// Decodes a frame. The first byte is taken as the sync marker and the
    /// last as the checksum, neither is checked; a type code that belongs to
    /// no defined type is kept as [`MessageTypes::Unrecognized`].
    pub fn from(d: Vec<u8>) -> (r: BesMessage)
        requires
            d@.len() >= 3,
        ensures
            r@ == MessageView::decode(d@),
    {
        let n = d.len();
        let mut payload: Vec<u8> = Vec::new();
        extend_bytes(&mut payload, &d.as_slice()[2..n - 1]);
        BesMessage { sync: d[0], type1: MessageTypes::from(d[1]), payload, checksum: d[n - 1] }
    }
}

/// Decoding a frame and encoding the result gives the frame back, whatever
/// its bytes are.
pub proof fn lemma_encode_decode(bytes: Seq<u8>)
    requires
        bytes.len() >= 3,
    ensures
        MessageView::decode(bytes).encode() == bytes,
        MessageView::decode(bytes).type1.is_canonical(),
{
}

/// Encoding a message and decoding the frame gives the message back, for
/// every type and payload, and whether or not the checksum is right.
pub proof fn lemma_decode_encode(m: MessageView)
    requires
        m.type1.is_canonical(),
    ensures
        MessageView::decode(m.encode()) == m,
{
    let bytes = m.encode();
    assert(bytes.subrange(2, bytes.len() - 1) == m.payload);
}

/// Once a message is sealed, the last byte of its frame is the checksum of
/// all bytes before it, so the frame passes validation.
pub proof fn lemma_sealed_frame_is_intact(m: MessageView)
    ensures
        m.sealed().is_sealed(),
        m.sealed().encode().last() == checksum_of(m.sealed().encode().drop_last()),
        checksum_holds(m.sealed().encode()),
        m.sealed().encode().drop_last() == m.body(),
{
    assert(m.sealed().encode().drop_last() == m.body());
}

/// The sum of a byte string is its first byte plus the sum of the rest.
pub proof fn lemma_byte_sum_split_first(bytes: Seq<u8>, n: nat)
    requires
        1 <= n <= bytes.len(),
    ensures
        byte_sum_upto(bytes, n) == bytes[0] as nat + byte_sum_upto(
            bytes.subrange(1, bytes.len() as int),
            (n - 1) as nat,
        ),
    decreases n,
{
    let rest = bytes.subrange(1, bytes.len() as int);
    if n > 1 {
        lemma_byte_sum_split_first(bytes, (n - 1) as nat);
        assert(rest[n - 2] == bytes[n - 1]);
    } else {
        assert(byte_sum_upto(bytes, 0) == 0);
        assert(byte_sum_upto(rest, 0) == 0);
    }
}

/// The checksum of a sealed message counts the sync marker: it is the
/// checksum of every byte before it, and it differs from the checksum of the
/// bytes after the marker by the marker's value, modulo 256. The two agree
/// only for a marker of zero.
pub proof fn lemma_checksum_counts_sync(m: MessageView)
    ensures
        m.sealed().checksum == checksum_of(m.body()),
        checksum_of(m.body().subrange(1, m.body().len() as int)) == (m.sealed().checksum
            + m.sync) % 256,
        m.sync == 0 ==> m.sealed().checksum == checksum_of(
            m.body().subrange(1, m.body().len() as int),
        ),
{
    lemma_byte_sum_split_first(m.body(), m.body().len());
}

} // verus!
