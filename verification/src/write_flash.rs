//! The flash writer: erase, windowed write of chunks, commit.
//!
//! The image is padded to whole chunks. Each chunk goes out as a header
//! frame followed at once by the chunk's bytes, in one write. At most
//! [`MAX_UNACKED_PACKETS`] chunks are out without acknowledgement; when that
//! many are, the writer waits for an acknowledgement before it sends more.
//! The commit goes out once every chunk is acknowledged.

use crate::bytes::{extend_bytes, filled, le_bytes_u16, le_bytes_u32, push_le_u16, push_le_u32};
use crate::errors::{BESLinkError, ErrorView};
use crate::exchange::{Exchange, ExchangeView};
use crate::message::{BesMessage, MessageTypes, MessageView, BES_SYNC};
use crate::sync::{sync, SyncEngine, SyncView};
use crate::transport::{Action, ActionView, Event, EventView, Step, StepView};
use crc::{Crc, CRC_32_ISO_HDLC};
use vstd::prelude::*;

verus! {

/// The size of a chunk: the number of bytes that go out with one header.
pub const FLASH_WRITE_SIZE: usize = 0x8000;

/// The most chunks that may be out without acknowledgement.
pub const MAX_UNACKED_PACKETS: usize = 2;

/// The byte that pads an image to whole chunks. It is the value of erased
/// flash.
pub const FLASH_FILL: u8 = 0xFF;

/// How long the device is given after each chunk before anything else is
/// sent.
pub const CHUNK_SETTLE_MILLIS: u64 = 10;

/// The CRC-32/ISO-HDLC check value of `data`, as the `crc` crate computes it
/// with its `CRC_32_ISO_HDLC` algorithm.
pub uninterp spec fn crc32_iso_hdlc(data: Seq<u8>) -> u32;

/// Computes the check value of `data` with `crc::Crc::<u32>` over
/// `CRC_32_ISO_HDLC`: a digest is made, fed all of `data` once, and
/// finalized. The result depends on the bytes alone.
#[verifier::external_body]
fn crc32(data: &[u8]) -> (r: u32)
    ensures
        r == crc32_iso_hdlc(data@),
{
    let crc = Crc::<u32>::new(&CRC_32_ISO_HDLC);
    let mut digest = crc.digest();
    digest.update(data);
    digest.finalize()
}

/// The number of fill bytes that bring a length of `len` to a multiple of
/// the chunk size.
pub open spec fn padding_for(len: nat) -> nat {
    ((FLASH_WRITE_SIZE - len % (FLASH_WRITE_SIZE as nat)) % (FLASH_WRITE_SIZE as int)) as nat
}

/// The image followed by as few fill bytes as make it whole chunks.
pub open spec fn padded(image: Seq<u8>) -> Seq<u8> {
    image + filled(padding_for(image.len()), FLASH_FILL)
}

/// Pads `payload` with [`FLASH_FILL`] to a multiple of the chunk size.
pub fn pad_image(payload: Vec<u8>) -> (r: Vec<u8>)
    ensures
        r@ == padded(payload@),
        r@.len() % (FLASH_WRITE_SIZE as nat) == 0,
{
    let mut payload = payload;
    let ghost unpadded = payload@;
    while payload.len() % FLASH_WRITE_SIZE != 0
        invariant
            payload@.len() >= unpadded.len(),
            payload@.len() - unpadded.len() <= padding_for(unpadded.len()),
            payload@ == unpadded + filled((payload@.len() - unpadded.len()) as nat, FLASH_FILL),
        decreases padding_for(unpadded.len()) - (payload@.len() - unpadded.len()),
    {
        payload.push(FLASH_FILL);
    }
    payload
}

/// The header that announces chunk number `chunk`, whose bytes have the
/// check value `crc_value`: a rolling sequence byte, the chunk size, the
/// check value and the low byte of the chunk number.
pub open spec fn chunk_header(crc_value: u32, chunk: nat) -> MessageView {
    MessageView {
        sync: BES_SYNC,
        type1: MessageTypes::FlashBurnData,
        payload: seq![((0xC1 + chunk) % 256) as u8, 0x0B] + le_bytes_u16(FLASH_WRITE_SIZE as u16)
            + seq![0x00, 0x00] + le_bytes_u32(crc_value) + seq![(chunk % 256) as u8, 0x00, 0x00],
        checksum: 0,
    }.sealed()
}

/// What goes on the wire for chunk number `chunk` with the bytes `data`: the
/// header frame, then the bytes themselves, unframed.
pub open spec fn chunk_on_wire(data: Seq<u8>, chunk: nat) -> Seq<u8> {
    chunk_header(crc32_iso_hdlc(data), chunk).encode() + data
}

/// The command that erases `payload_len` bytes of flash from `address` on.
pub open spec fn erase_message(payload_len: u32, address: u32) -> MessageView {
    MessageView {
        sync: BES_SYNC,
        type1: MessageTypes::EraseBurnStart,
        payload: seq![0x07, 0x0C] + le_bytes_u32(address) + le_bytes_u32(payload_len)
            + le_bytes_u32(FLASH_WRITE_SIZE as u32),
        checksum: 0,
    }.sealed()
}

/// The command that commits what was written from `address` on.
pub open spec fn commit_message(address: u32) -> MessageView {
    MessageView {
        sync: BES_SYNC,
        type1: MessageTypes::FlashCommand,
        payload: seq![0x08, 0x09, 0x22] + le_bytes_u32(address) + seq![0x1C, 0xEC, 0x57, 0xBE],
        checksum: 0,
    }.sealed()
}

/// Builds the header of chunk number `chunk` from the check value of its
/// bytes.
pub fn flash_chunk_header(crc_value: u32, chunk: usize) -> (r: BesMessage)
    ensures
        r@ == chunk_header(crc_value, chunk as nat),
{
    let low: u8 = (chunk % 256) as u8;
    let rolling: u8 = ((0xC1 + low as u16) % 256) as u8;
    let mut payload: Vec<u8> = vec![rolling, 0x0B];
    push_le_u16(&mut payload, FLASH_WRITE_SIZE as u16);
    payload.push(0x00);
    payload.push(0x00);
    push_le_u32(&mut payload, crc_value);
    payload.push(low);
    payload.push(0x00);
    payload.push(0x00);
    let mut data_message = BesMessage {
        sync: BES_SYNC,
        type1: MessageTypes::FlashBurnData,
        payload,
        checksum: 0,
    };
    assert(data_message@.payload == chunk_header(crc_value, chunk as nat).payload);
    data_message.set_checksum();
    data_message
}

/// Builds the header of chunk number `chunk` for the bytes `payload`.
pub fn get_flash_chunk_msg(payload: Vec<u8>, chunk: usize) -> (r: BesMessage)
    ensures
        r@ == chunk_header(crc32_iso_hdlc(payload@), chunk as nat),
{
    flash_chunk_header(crc32(payload.as_slice()), chunk)
}

/// Builds the write of chunk number `chunk`: its header and, right behind
/// it, its bytes. A chunk of any length but [`FLASH_WRITE_SIZE`] is
/// rejected, and nothing is built.
pub fn send_flash_chunk_msg(payload: Vec<u8>, chunk: usize) -> (r: Result<Action, BESLinkError>)
    ensures
        payload@.len() == FLASH_WRITE_SIZE <==> r is Ok,
        r matches Ok(action) ==> action@ == ActionView::Send(
            chunk_on_wire(payload@, chunk as nat),
        ),
        r matches Err(e) ==> e@ == ErrorView::InvalidArgs,
{
    if payload.len() != FLASH_WRITE_SIZE {
        return Err(BESLinkError::InvalidArgs);
    }
    let data_message = flash_chunk_header(crc32(payload.as_slice()), chunk);
    let mut message_vec = data_message.to_vec();
    extend_bytes(&mut message_vec, payload.as_slice());
    Ok(Action::Send(message_vec))
}

/// Builds the erase command for `payload_len` bytes from `address` on.
pub fn get_flash_erase_message(payload_len: u32, address: u32) -> (r: BesMessage)
    ensures
        r@ == erase_message(payload_len, address),
{
    let mut payload: Vec<u8> = vec![0x07, 0x0C];
    push_le_u32(&mut payload, address);
    push_le_u32(&mut payload, payload_len);
    push_le_u32(&mut payload, FLASH_WRITE_SIZE as u32);
    let mut burn_prepare_message = BesMessage {
        sync: BES_SYNC,
        type1: MessageTypes::EraseBurnStart,
        payload,
        checksum: 0,
    };
    assert(burn_prepare_message@.payload == erase_message(payload_len, address).payload);
    burn_prepare_message.set_checksum();
    burn_prepare_message
}

/// Builds the commit command for what was written from `address` on.
pub fn get_flash_commit_message(address: u32) -> (r: BesMessage)
    ensures
        r@ == commit_message(address),
{
    let mut payload: Vec<u8> = vec![0x08, 0x09, 0x22];
    push_le_u32(&mut payload, address);
    payload.push(0x1C);
    payload.push(0xEC);
    payload.push(0x57);
    payload.push(0xBE);
    let mut burn_commit_message = BesMessage {
        sync: BES_SYNC,
        type1: MessageTypes::FlashCommand,
        payload,
        checksum: 0,
    };
    assert(burn_commit_message@.payload == commit_message(address).payload);
    burn_commit_message.set_checksum();
    burn_commit_message
}

/// Where a write stands.
#[derive(Debug, PartialEq, Eq, Structural, Clone, Copy)]
pub enum WriterStage {
    /// The erase command is out or being answered.
    Erase,
    /// A chunk is being written.
    SendChunk,
    /// The device is given time after a chunk.
    ChunkPause,
    /// The acknowledgement of a chunk is awaited.
    AwaitAck,
    /// The commit command is out or being answered.
    Commit,
    /// The write has ended, well or badly.
    Closed,
}

/// The state of a write.
pub struct WriterView {
    pub stage: WriterStage,
    /// Where in flash the image goes.
    pub address: u32,
    /// The padded image.
    pub image: Seq<u8>,
    /// The number of chunks that were handed to the transport.
    pub next_chunk: nat,
    /// The number of chunks that were sent and not acknowledged yet.
    pub outstanding: nat,
    /// The exchange in progress, while erasing and committing.
    pub exchange: ExchangeView,
    /// The wait in progress, while awaiting an acknowledgement.
    pub acks: SyncView,
}

impl WriterView {
    /// The number of chunks of the padded image.
    pub open spec fn chunk_count(self) -> nat {
        self.image.len() / (FLASH_WRITE_SIZE as nat)
    }

    /// The bytes of chunk number `chunk`.
    pub open spec fn chunk(self, chunk: nat) -> Seq<u8> {
        self.image.subrange(chunk * FLASH_WRITE_SIZE, (chunk + 1) * FLASH_WRITE_SIZE)
    }

    /// The image is whole chunks, and of the chunks that are out no more are
    /// unacknowledged than the window allows.
    pub open spec fn within_window(self) -> bool {
        &&& self.image.len() % (FLASH_WRITE_SIZE as nat) == 0
        &&& self.image.len() <= u32::MAX
        &&& self.outstanding <= MAX_UNACKED_PACKETS
        &&& self.outstanding <= self.next_chunk <= self.chunk_count()
    }

    /// What holds of a write at all times. The window is never exceeded, a
    /// chunk is only written while the window has room, and the commit is
    /// only under way when every chunk is out and acknowledged.
    pub open spec fn inv(self) -> bool {
        &&& self.within_window()
        &&& self.stage == WriterStage::SendChunk ==> {
            &&& self.next_chunk < self.chunk_count()
            &&& self.outstanding < MAX_UNACKED_PACKETS
        }
        &&& self.stage == WriterStage::AwaitAck ==> self.outstanding > 0
        &&& self.stage == WriterStage::Commit ==> {
            &&& self.next_chunk == self.chunk_count()
            &&& self.outstanding == 0
        }
    }

    /// Whether an image of this length can be written from this address
    /// on: the address and the padded length each fit the four bytes that
    /// the erase command has for them.
    pub open spec fn accepts(image: Seq<u8>, address: usize) -> bool {
        &&& address <= u32::MAX
        &&& padded(image).len() <= u32::MAX
    }

    /// The state in which the write of `image` to `address` begins, together
    /// with the first action: the erase command for the padded image.
    pub open spec fn begin(image: Seq<u8>, address: usize) -> (WriterView, ActionView) {
        (
            WriterView {
                stage: WriterStage::Erase,
                address: address as u32,
                image: padded(image),
                next_chunk: 0,
                outstanding: 0,
                exchange: ExchangeView::begin(MessageTypes::EraseBurnStart),
                acks: SyncView { wanted: MessageTypes::FlashBurnData, partial: Seq::empty() },
            },
            ActionView::Send(
                erase_message(padded(image).len() as u32, address as u32).encode(),
            ),
        )
    }

    /// Ends the write with `error`.
    pub open spec fn fail(self, error: ErrorView) -> (WriterView, StepView<()>) {
        (WriterView { stage: WriterStage::Closed, ..self }, StepView::Finished(Err(error)))
    }

    /// Decides what to do when nothing is in progress: write the next chunk
    /// if there is one and the window has room, else await an
    /// acknowledgement if any is owed, else commit.
    pub open spec fn advance(self) -> (WriterView, StepView<()>) {
        if self.next_chunk < self.chunk_count() && self.outstanding < MAX_UNACKED_PACKETS {
            (
                WriterView { stage: WriterStage::SendChunk, ..self },
                StepView::Next(
                    ActionView::Send(chunk_on_wire(self.chunk(self.next_chunk), self.next_chunk)),
                ),
            )
        } else if self.outstanding > 0 {
            (
                WriterView { stage: WriterStage::AwaitAck, ..self },
                StepView::Next(ActionView::Receive(1)),
            )
        } else {
            (
                WriterView {
                    stage: WriterStage::Commit,
                    exchange: ExchangeView::begin(MessageTypes::FlashCommand),
                    ..self
                },
                StepView::Next(ActionView::Send(commit_message(self.address).encode())),
            )
        }
    }

    /// The transition on one event of the transport.
    ///
    /// A failure while erasing, writing a chunk or committing ends the
    /// write. A wait for an acknowledgement that the transport fails does
    /// not: the wait starts over, and the chunk stays counted as
    /// unacknowledged.
    pub open spec fn step(self, event: EventView) -> (WriterView, StepView<()>) {
        match self.stage {
            WriterStage::Erase => {
                let stepped = WriterView { exchange: self.exchange.step(event).0, ..self };
                match self.exchange.step(event).1 {
                    StepView::Next(action) => (stepped, StepView::Next(action)),
                    StepView::Finished(Err(error)) => stepped.fail(error),
                    StepView::Finished(Ok(_)) => stepped.advance(),
                }
            },
            WriterStage::SendChunk => match event {
                EventView::Done => (
                    WriterView {
                        stage: WriterStage::ChunkPause,
                        next_chunk: self.next_chunk + 1,
                        outstanding: self.outstanding + 1,
                        ..self
                    },
                    StepView::Next(ActionView::Pause(CHUNK_SETTLE_MILLIS)),
                ),
                EventView::Failed(e) => self.fail(ErrorView::IOError { e }),
                _ => self.fail(ErrorView::InvalidArgs),
            },
            WriterStage::ChunkPause => match event {
                EventView::Done => self.advance(),
                _ => self.fail(ErrorView::InvalidArgs),
            },
            WriterStage::AwaitAck => {
                let stepped = WriterView { acks: self.acks.step(event).0, ..self };
                match self.acks.step(event).1 {
                    StepView::Next(action) => (stepped, StepView::Next(action)),
                    StepView::Finished(Err(ErrorView::InvalidArgs)) => stepped.fail(
                        ErrorView::InvalidArgs,
                    ),
                    StepView::Finished(Err(_)) => (stepped, StepView::Next(ActionView::Receive(1))),
                    StepView::Finished(Ok(_)) => (WriterView {
                        outstanding: (self.outstanding - 1) as nat,
                        ..stepped
                    }).advance(),
                }
            },
            WriterStage::Commit => {
                let stepped = WriterView { exchange: self.exchange.step(event).0, ..self };
                match self.exchange.step(event).1 {
                    StepView::Next(action) => (stepped, StepView::Next(action)),
                    StepView::Finished(Err(error)) => stepped.fail(error),
                    StepView::Finished(Ok(_)) => (
                        WriterView { stage: WriterStage::Closed, ..stepped },
                        StepView::Finished(Ok(())),
                    ),
                }
            },
            WriterStage::Closed => self.fail(ErrorView::InvalidArgs),
        }
    }
}

/// No step of a write breaks what holds of it at all times. In particular
/// the number of unacknowledged chunks never exceeds the window, whatever
/// the transport reports and in whatever order.
pub proof fn lemma_step_keeps_window(state: WriterView, event: EventView)
    requires
        state.inv(),
    ensures
        state.step(event).0.inv(),
        state.step(event).0.outstanding <= MAX_UNACKED_PACKETS,
{
}

impl WriterView {
    /// What goes on the wire for every chunk from number `from` on, in
    /// order.
    pub open spec fn chunks_from(self, from: nat) -> Seq<Seq<u8>> {
        Seq::new(
            (self.chunk_count() - from) as nat,
            |i: int| chunk_on_wire(self.chunk((from + i) as nat), (from + i) as nat),
        )
    }

    /// What a write in this state has still to write before it ends well:
    /// the chunks that are not out yet, in order, and then the commit.
    pub open spec fn owed(self) -> Seq<Seq<u8>> {
        match self.stage {
            WriterStage::Erase | WriterStage::ChunkPause | WriterStage::AwaitAck => {
                self.chunks_from(self.next_chunk).push(commit_message(self.address).encode())
            },
            WriterStage::SendChunk => {
                self.chunks_from(self.next_chunk + 1).push(commit_message(self.address).encode())
            },
            WriterStage::Commit | WriterStage::Closed => Seq::empty(),
        }
    }

    /// What is written, one element for each write, while the events of
    /// `events` are handed in one after the other and the write goes on.
    pub open spec fn writes(self, events: Seq<EventView>) -> Seq<Seq<u8>>
        decreases events.len(),
    {
        if events.len() == 0 {
            Seq::empty()
        } else {
            match self.step(events[0]).1 {
                StepView::Next(ActionView::Send(bytes)) => seq![bytes] + self.step(
                    events[0],
                ).0.writes(events.skip(1)),
                StepView::Next(_) => self.step(events[0]).0.writes(events.skip(1)),
                StepView::Finished(_) => Seq::empty(),
            }
        }
    }

    /// The write ends well with the last of `events`, and not before.
    pub open spec fn ends_well_with(self, events: Seq<EventView>) -> bool
        decreases events.len(),
    {
        if events.len() == 0 {
            false
        } else {
            match self.step(events[0]).1 {
                StepView::Next(_) => self.step(events[0]).0.ends_well_with(events.skip(1)),
                StepView::Finished(Ok(_)) => events.len() == 1,
                StepView::Finished(Err(_)) => false,
            }
        }
    }
}

/// Whatever the transport reports on the way, a write that ends well has
/// written what it owed and nothing else: every chunk that was not out yet,
/// each as its header with its bytes right behind, in the order of the
/// image, and the commit last.
pub proof fn lemma_write_settles_what_is_owed(state: WriterView, events: Seq<EventView>)
    requires
        state.inv(),
        state.ends_well_with(events),
    ensures
        state.writes(events) == state.owed(),
    decreases events.len(),
{
    let next = state.step(events[0]).0;
    lemma_step_keeps_window(state, events[0]);
    let commit = commit_message(state.address).encode();
    match state.step(events[0]).1 {
        StepView::Next(action) => {
            lemma_write_settles_what_is_owed(next, events.skip(1));
            if next.stage == WriterStage::SendChunk && state.stage != WriterStage::SendChunk {
                assert(state.chunks_from(state.next_chunk).push(commit) == seq![
                    chunk_on_wire(state.chunk(state.next_chunk), state.next_chunk),
                ] + next.chunks_from(next.next_chunk + 1).push(commit));
            } else if next.stage == WriterStage::Commit && state.stage != WriterStage::Commit {
                assert(state.chunks_from(state.next_chunk).push(commit) == seq![commit]);
            } else if state.stage == WriterStage::SendChunk {
                assert(state.chunks_from(state.next_chunk + 1) == next.chunks_from(
                    next.next_chunk,
                ));
            } else {
                assert(state.chunks_from(state.next_chunk) == next.chunks_from(next.next_chunk));
            }
        },
        StepView::Finished(_) => {},
    }
}

/// From its first action to its good end a write puts on the wire the erase
/// command for the padded image, every chunk of the padded image in order,
/// and the commit.
pub proof fn lemma_write_sends_erase_chunks_commit(
    image: Seq<u8>,
    address: usize,
    events: Seq<EventView>,
)
    requires
        WriterView::accepts(image, address),
        WriterView::begin(image, address).0.ends_well_with(events),
    ensures
        ({
            let begun = WriterView::begin(image, address).0;
            &&& WriterView::begin(image, address).1 == ActionView::Send(
                erase_message(padded(image).len() as u32, address as u32).encode(),
            )
            &&& begun.writes(events) == begun.chunks_from(0).push(
                commit_message(address as u32).encode(),
            )
            &&& begun.chunks_from(0).len() * FLASH_WRITE_SIZE == padded(image).len()
        }),
{
    lemma_begin_within_window(image, address);
    lemma_write_settles_what_is_owed(WriterView::begin(image, address).0, events);
}

/// A write that has ended stays ended: whatever it is handed, it answers
/// with `InvalidArgs` and never with success.
pub proof fn lemma_closed_write_stays_closed(state: WriterView, event: EventView)
    requires
        state.stage == WriterStage::Closed,
    ensures
        state.step(event) == (state, StepView::<()>::Finished(Err(ErrorView::InvalidArgs))),
{
}

/// A write ends well only with the confirmation of the commit, when every
/// chunk of the image is out and acknowledged.
pub proof fn lemma_write_ends_after_commit(state: WriterView, event: EventView)
    requires
        state.inv(),
    ensures
        state.step(event).1 is Finished ==> state.step(event).0.stage == WriterStage::Closed,
        state.step(event).1 matches StepView::Finished(Ok(_)) ==> {
            &&& state.stage == WriterStage::Commit
            &&& state.next_chunk == state.chunk_count()
            &&& state.outstanding == 0
        },
{
}

/// A write begins within the window, with no chunk out.
pub proof fn lemma_begin_within_window(image: Seq<u8>, address: usize)
    requires
        WriterView::accepts(image, address),
    ensures
        WriterView::begin(image, address).0.inv(),
        WriterView::begin(image, address).0.outstanding == 0,
{
    lemma_padded_is_whole_chunks(image);
}

/// A padded image is whole chunks, begins with the image, and is no more
/// than one chunk longer.
pub proof fn lemma_padded_is_whole_chunks(image: Seq<u8>)
    ensures
        padded(image).len() % (FLASH_WRITE_SIZE as nat) == 0,
        padded(image).len() < image.len() + FLASH_WRITE_SIZE,
        padded(image).subrange(0, image.len() as int) == image,
        forall|i: int| image.len() <= i < padded(image).len() ==> padded(image)[i] == FLASH_FILL,
{
}

/// A write in progress.
#[derive(Debug)]
pub struct FlashWriter {
    stage: WriterStage,
    address: u32,
    image: Vec<u8>,
    chunk_count: usize,
    next_chunk: usize,
    outstanding: usize,
    exchange: Exchange,
    acks: SyncEngine,
}

impl View for FlashWriter {
    type V = WriterView;

    closed spec fn view(&self) -> WriterView {
        WriterView {
            stage: self.stage,
            address: self.address,
            image: self.image@,
            next_chunk: self.next_chunk as nat,
            outstanding: self.outstanding as nat,
            exchange: self.exchange@,
            acks: self.acks@,
        }
    }
}

impl FlashWriter {
    /// All holds that holds of a write at all times, and the parts it is
    /// made of are well-formed.
    pub open spec fn wf(&self) -> bool {
        &&& self@.inv()
        &&& self.parts_wf()
    }

    /// The exchange and the wait in progress are well-formed, and the count
    /// of chunks is that of the image.
    pub closed spec fn parts_wf(&self) -> bool {
        &&& self.chunk_count == self@.chunk_count()
        &&& self.exchange.wf()
        &&& self.acks.wf()
    }

    /// The number of chunks that were sent and not acknowledged yet.
    pub fn unacknowledged(&self) -> (r: usize)
        requires
            self.wf(),
        ensures
            r == self@.outstanding,
            r <= MAX_UNACKED_PACKETS,
    {
        self.outstanding
    }

    fn fail(&mut self, error: BESLinkError) -> (r: Step<()>)
        requires
            old(self).wf(),
        ensures
            final(self).wf(),
            (final(self)@, r@) == old(self)@.fail(error@),
    {
        self.stage = WriterStage::Closed;
        Step::Finished(Err(error))
    }

    fn advance(&mut self) -> (r: Step<()>)
        requires
            old(self)@.within_window(),
            old(self).parts_wf(),
        ensures
            final(self).wf(),
            (final(self)@, r@) == old(self)@.advance(),
    {
        if self.next_chunk < self.chunk_count && self.outstanding < MAX_UNACKED_PACKETS {
            let start: usize = self.next_chunk * FLASH_WRITE_SIZE;
            let mut chunk: Vec<u8> = Vec::new();
            extend_bytes(&mut chunk, &self.image.as_slice()[start..start + FLASH_WRITE_SIZE]);
            match send_flash_chunk_msg(chunk, self.next_chunk) {
                Ok(action) => {
                    self.stage = WriterStage::SendChunk;
                    Step::Next(action)
                },
                Err(error) => self.fail(error),
            }
        } else if self.outstanding > 0 {
            self.stage = WriterStage::AwaitAck;
            Step::Next(Action::Receive(1))
        } else {
            let (exchange, action) = Exchange::begin(
                &get_flash_commit_message(self.address),
                MessageTypes::FlashCommand,
            );
            self.stage = WriterStage::Commit;
            self.exchange = exchange;
            Step::Next(action)
        }
    }

    /// Takes the outcome of the last action and says how the write goes on.
    /// Whatever it is handed, no more than [`MAX_UNACKED_PACKETS`] chunks
    /// are unacknowledged afterwards.
    pub fn step(&mut self, event: Event) -> (r: Step<()>)
        requires
            old(self).wf(),
        ensures
            final(self).wf(),
            (final(self)@, r@) == old(self)@.step(event@),
            final(self)@.outstanding <= MAX_UNACKED_PACKETS,
    {
        match self.stage {
            WriterStage::Erase => match self.exchange.step(event) {
                Step::Next(action) => Step::Next(action),
                Step::Finished(Err(error)) => self.fail(error),
                Step::Finished(Ok(_)) => self.advance(),
            },
            WriterStage::SendChunk => match event {
                Event::Done => {
                    self.stage = WriterStage::ChunkPause;
                    self.next_chunk = self.next_chunk + 1;
                    self.outstanding = self.outstanding + 1;
                    Step::Next(Action::Pause(CHUNK_SETTLE_MILLIS))
                },
                Event::Failed(e) => self.fail(BESLinkError::IOError { e }),
                _ => self.fail(BESLinkError::InvalidArgs),
            },
            WriterStage::ChunkPause => match event {
                Event::Done => self.advance(),
                _ => self.fail(BESLinkError::InvalidArgs),
            },
            WriterStage::AwaitAck => match self.acks.step(event) {
                Step::Next(action) => Step::Next(action),
                Step::Finished(Err(BESLinkError::InvalidArgs)) => self.fail(
                    BESLinkError::InvalidArgs,
                ),
                Step::Finished(Err(_)) => Step::Next(Action::Receive(1)),
                Step::Finished(Ok(_)) => {
                    self.outstanding = self.outstanding - 1;
                    self.advance()
                },
            },
            WriterStage::Commit => match self.exchange.step(event) {
                Step::Next(action) => Step::Next(action),
                Step::Finished(Err(error)) => self.fail(error),
                Step::Finished(Ok(_)) => {
                    self.stage = WriterStage::Closed;
                    Step::Finished(Ok(()))
                },
            },
            WriterStage::Closed => self.fail(BESLinkError::InvalidArgs),
        }
    }
}

/// Begins the write of `payload_in` to flash from `address` on. The action
/// to begin with is the write of the erase command.
///
/// An address or a padded length that does not fit 32 bits is rejected
/// before anything is sent.
pub fn burn_image_to_flash(payload_in: Vec<u8>, address: usize) -> (r: Result<
    (FlashWriter, Action),
    BESLinkError,
>)
    ensures
        WriterView::accepts(payload_in@, address) <==> r is Ok,
        r matches Ok(begun) ==> begun.0.wf() && (begun.0@, begun.1@) == WriterView::begin(
            payload_in@,
            address,
        ),
        r matches Err(e) ==> e@ == ErrorView::InvalidArgs,
{
    if address > u32::MAX as usize || payload_in.len() > (u32::MAX as usize / FLASH_WRITE_SIZE)
        * FLASH_WRITE_SIZE {
        proof {
            lemma_padded_is_whole_chunks(payload_in@);
        }
        return Err(BESLinkError::InvalidArgs);
    }
    proof {
        lemma_padded_is_whole_chunks(payload_in@);
    }
    let image = pad_image(payload_in);
    let chunk_count = image.len() / FLASH_WRITE_SIZE;
    let (exchange, action) = Exchange::begin(
        &get_flash_erase_message(image.len() as u32, address as u32),
        MessageTypes::EraseBurnStart,
    );
    let (acks, _) = sync(MessageTypes::FlashBurnData);
    Ok(
        (
            FlashWriter {
                stage: WriterStage::Erase,
                address: address as u32,
                image,
                chunk_count,
                next_chunk: 0,
                outstanding: 0,
                exchange,
                acks,
            },
            action,
        ),
    )
}

} // verus!
