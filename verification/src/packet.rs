//! The packet reader: from single bytes to one checked message.
//!
//! A frame does not say how long it is. Its length follows from its type
//! code and, for flash commands, from the first payload byte.

use crate::errors::{BESLinkError, ErrorView};
use crate::message::{
    bad_checksum, calculate_message_checksum, checksum_holds, checksum_of, type_of_code,
    validate_packet_checksum, BesMessage, MessageTypes, MessageView, BES_SYNC,
};
use crate::transport::result_view;
use vstd::prelude::*;

verus! {

/// The length of the shortest frame: sync marker, type code, checksum. It is
/// also what a type without an entry in the table resolves to; such a
/// candidate is judged by its checksum like any other.
pub const MINIMAL_PACKET_LENGTH: u16 = 3;

/// The table from message type, and sub-code where the type has one, to the
/// length of the whole frame.
pub open spec fn frame_length(t: MessageTypes, sub_code: u8) -> u16 {
    match t {
        MessageTypes::Sync => 8,
        MessageTypes::StartProgrammer => 6,
        MessageTypes::ProgrammerRunning => 6,
        MessageTypes::ProgrammerInit => 11,
        MessageTypes::FlashCommand => if sub_code == 0x02 {
            9
        } else if sub_code == 0x08 {
            6
        } else {
            22
        },
        MessageTypes::EraseBurnStart => 6,
        MessageTypes::FlashBurnData => 8,
        MessageTypes::ProgrammerStart => 6,
        MessageTypes::FlashRead => 6,
        MessageTypes::DeviceCommand => MINIMAL_PACKET_LENGTH,
        MessageTypes::UnknownORInfo => MINIMAL_PACKET_LENGTH,
        MessageTypes::Unrecognized(_) => MINIMAL_PACKET_LENGTH,
    }
}

/// The length that the first three bytes of a frame resolve to. With fewer
/// than three bytes nothing can be resolved yet.
pub open spec fn resolved_length(packet: Seq<u8>) -> u16 {
    if packet.len() < 3 {
        MINIMAL_PACKET_LENGTH
    } else {
        frame_length(type_of_code(packet[1]), packet[2])
    }
}

/// Resolves the length of the frame that begins with `packet`.
pub fn decode_packet_length(packet: &Vec<u8>) -> (r: u16)
    ensures
        r == resolved_length(packet@),
{
    if packet.len() < 3 {
        return MINIMAL_PACKET_LENGTH;
    }
    let packet_id2 = packet[2];
    match MessageTypes::from(packet[1]) {
        MessageTypes::Sync => 8,
        MessageTypes::StartProgrammer => 6,
        MessageTypes::ProgrammerRunning => 6,
        MessageTypes::ProgrammerInit => 11,
        MessageTypes::FlashCommand => {
            if packet_id2 == 0x02 {
                9
            } else if packet_id2 == 0x08 {
                6
            } else {
                22
            }
        },
        MessageTypes::EraseBurnStart => 6,
        MessageTypes::FlashBurnData => 8,
        MessageTypes::ProgrammerStart => 6,
        MessageTypes::FlashRead => 6,
        MessageTypes::DeviceCommand => MINIMAL_PACKET_LENGTH,
        MessageTypes::UnknownORInfo => MINIMAL_PACKET_LENGTH,
        MessageTypes::Unrecognized(_) => MINIMAL_PACKET_LENGTH,
    }
}

/// Computes the checksum over `packet`, which is a frame without its last
/// byte.
pub fn calculate_packet_checksum(packet: &Vec<u8>) -> (r: u8)
    ensures
        r == checksum_of(packet@),
{
    calculate_message_checksum(packet.as_slice())
}

/// What the reader holds after being fed `byte` on top of `partial`: bytes
/// before the first sync marker are dropped, all others are kept.
pub open spec fn accumulate(partial: Seq<u8>, byte: u8) -> Seq<u8> {
    if partial.len() == 0 && byte != BES_SYNC {
        partial
    } else {
        partial.push(byte)
    }
}

/// The accumulated bytes have reached the length they resolve to.
pub open spec fn is_complete(partial: Seq<u8>) -> bool {
    partial.len() >= 3 && partial.len() >= resolved_length(partial)
}

/// What a reader may hold between two bytes: nothing, or the beginning of a
/// frame that is not complete yet.
pub open spec fn is_partial_frame(partial: Seq<u8>) -> bool {
    &&& partial.len() > 0 ==> partial[0] == BES_SYNC
    &&& !is_complete(partial)
}

/// A frame as it stands in a stream: it opens with the sync marker and is
/// exactly as long as its first three bytes resolve to.
pub open spec fn is_frame(frame: Seq<u8>) -> bool {
    &&& frame.len() >= 3
    &&& frame[0] == BES_SYNC
    &&& frame.len() == resolved_length(frame)
}

/// The verdict on a complete frame: the message it decodes to, or the
/// checksum failure.
pub open spec fn verdict(frame: Seq<u8>) -> Result<MessageView, ErrorView>
    recommends
        frame.len() >= 3,
{
    if checksum_holds(frame) {
        Ok(MessageView::decode(frame))
    } else {
        Err(bad_checksum(frame))
    }
}

/// Assembles one frame at a time from a stream that is fed to it byte by
/// byte.
#[derive(Debug)]
pub struct PacketReader {
    packet: Vec<u8>,
}

impl View for PacketReader {
    type V = Seq<u8>;

    /// The bytes of the frame that is being assembled.
    closed spec fn view(&self) -> Seq<u8> {
        self.packet@
    }
}

impl PacketReader {
    /// The reader holds nothing or an incomplete frame.
    pub open spec fn wf(&self) -> bool {
        is_partial_frame(self@)
    }

    /// A reader that has seen nothing.
    pub fn new() -> (r: PacketReader)
        ensures
            r.wf(),
            r@ == Seq::<u8>::empty(),
    {
        PacketReader { packet: Vec::new() }
    }

    /// Forgets the frame that is being assembled.
    pub fn reset(&mut self)
        ensures
            final(self).wf(),
            final(self)@ == Seq::<u8>::empty(),
    {
        self.packet = Vec::new();
    }

    /// Takes the next byte of the stream.
    ///
    /// Returns `None` while the frame is incomplete. With the byte that
    /// completes it the reader hands out the verdict on the frame and starts
    /// over with nothing.
    pub fn push_byte(&mut self, byte: u8) -> (r: Option<Result<BesMessage, BESLinkError>>)
        requires
            old(self).wf(),
        ensures
            final(self).wf(),
            is_complete(accumulate(old(self)@, byte)) ==> {
                &&& final(self)@ == Seq::<u8>::empty()
                &&& r matches Some(outcome)
                &&& result_view(outcome) == verdict(accumulate(old(self)@, byte))
            },
            !is_complete(accumulate(old(self)@, byte)) ==> {
                &&& final(self)@ == accumulate(old(self)@, byte)
                &&& r is None
            },
    {
        if self.packet.len() == 0 && byte != BES_SYNC {
            return None;
        }
        self.packet.push(byte);
        if self.packet.len() < 3 || self.packet.len() < decode_packet_length(&self.packet) as usize {
            return None;
        }
        let mut frame: Vec<u8> = Vec::new();
        std::mem::swap(&mut frame, &mut self.packet);
        match validate_packet_checksum(frame.as_slice()) {
            Ok(_) => Some(Ok(BesMessage::from(frame))),
            Err(e) => Some(Err(e)),
        }
    }
}

} // verus!
