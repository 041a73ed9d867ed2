//! The flash reader: the image is read through the device's debug memory
//! dump, in bursts with a reset of the device between them.
//!
//! The memory dump does not feed the device's watchdog, so a long read ends
//! in a silent reboot. To stay clear of it no burst asks for more than
//! [`MAX_READ_BEFORE_RESET`] bytes. Each burst runs the whole handshake,
//! reads chunk after chunk, and reboots the device.

use crate::bytes::{extend_bytes, filled, le_bytes_u32, push_le_u32};
use crate::errors::{BESLinkError, ErrorView};
use crate::exchange::{Exchange, ExchangeView};
use crate::handshake::{helper_sync_and_load_programmer, Handshake, HandshakeView};
use crate::message::{
    type_code, BesMessage, MessageTypes, MessageView, BES_SYNC,
};
use crate::packet::{accumulate, is_complete, is_partial_frame, verdict, PacketReader};
use crate::reboot::{device_reboot_message, send_device_reboot};
use crate::transport::{Action, ActionView, Event, EventView, Step, StepView};
use vstd::prelude::*;

verus! {

/// The size of the device's flash buffer, and the most that one read of raw
/// bytes asks for.
pub const FLASH_BUFFER_SIZE: usize = 0x8000;

/// The number of bytes that one chunk-read request asks for.
pub const READ_CHUNK_SIZE: usize = 0x4000;

/// Where the flash is mapped in the device's address space.
pub const FLASH_BASE_ADDRESS: usize = 0x3C00_0000;

/// The most that is read between two resets of the device.
pub const MAX_READ_BEFORE_RESET: usize = 0x10_0000;

/// The number of failed chunk reads that a burst survives.
pub const READ_RETRY_LIMIT: usize = 10;

/// How long the device is given after each chunk.
pub const READ_SETTLE_MILLIS: u64 = 10;

/// The byte that stands for what could not be read.
pub const READ_FILL: u8 = 0xFF;

/// The request for `length` bytes of the device's memory from `address` on.
pub open spec fn read_request(address: u32, length: u32) -> MessageView {
    MessageView {
        sync: BES_SYNC,
        type1: MessageTypes::FlashRead,
        payload: seq![0x05, 0x08] + le_bytes_u32(address) + le_bytes_u32(length),
        checksum: 0,
    }.sealed()
}

/// Builds the request for `length` bytes from `address` on.
pub fn get_read_request(address: u32, length: u32) -> (r: BesMessage)
    ensures
        r@ == read_request(address, length),
{
    let mut payload: Vec<u8> = vec![0x05, 0x08];
    push_le_u32(&mut payload, address);
    push_le_u32(&mut payload, length);
    let mut request = BesMessage {
        sync: BES_SYNC,
        type1: MessageTypes::FlashRead,
        payload,
        checksum: 0,
    };
    assert(request@.payload == read_request(address, length).payload);
    request.set_checksum();
    request
}

/// `data` cut or filled to exactly `length` bytes: what is beyond `length`
/// is dropped, what is missing is [`READ_FILL`].
pub open spec fn fitted(data: Seq<u8>, length: nat) -> Seq<u8> {
    if data.len() >= length {
        data.take(length as int)
    } else {
        data + filled((length - data.len()) as nat, READ_FILL)
    }
}

/// Cuts or fills `data` to exactly `length` bytes.
pub fn fit_to_length(data: Vec<u8>, length: usize) -> (r: Vec<u8>)
    ensures
        r@ == fitted(data@, length as nat),
        r@.len() == length,
{
    let mut data = data;
    let ghost given = data@;
    if data.len() >= length {
        data.truncate(length);
    } else {
        while data.len() < length
            invariant
                given.len() <= data@.len() <= length,
                data@ == given + filled((data@.len() - given.len()) as nat, READ_FILL),
            decreases length - data@.len(),
        {
            data.push(READ_FILL);
        }
    }
    data
}

/// The most raw bytes that one read asks for when `missing` are still to
/// come.
pub open spec fn raw_limit(missing: nat) -> usize {
    if missing < FLASH_BUFFER_SIZE {
        missing as usize
    } else {
        FLASH_BUFFER_SIZE
    }
}

/// Where the read of one chunk stands.
#[derive(Debug, PartialEq, Eq, Structural, Clone, Copy)]
pub enum ChunkStage {
    /// The request is being written.
    Request,
    /// The framed header of the response is being read.
    Header,
    /// The raw bytes behind the header are being read.
    Raw,
    /// The read has ended, well or badly.
    Closed,
}

/// The state of the read of one chunk.
pub struct ChunkReadView {
    pub stage: ChunkStage,
    /// The number of raw bytes that follow the header.
    pub expected: nat,
    /// The bytes of the header that is being assembled.
    pub header: Seq<u8>,
    /// The raw bytes that are in.
    pub data: Seq<u8>,
}

impl ChunkReadView {
    /// The state in which the read of `expected` bytes begins.
    pub open spec fn begin(expected: nat) -> ChunkReadView {
        ChunkReadView {
            stage: ChunkStage::Request,
            expected,
            header: Seq::empty(),
            data: Seq::empty(),
        }
    }

    /// What holds of a chunk read at all times.
    pub open spec fn inv(self) -> bool {
        &&& self.expected <= usize::MAX
        &&& is_partial_frame(self.header)
        &&& self.stage == ChunkStage::Raw ==> self.data.len() < self.expected
        &&& self.stage != ChunkStage::Raw ==> self.data.len() == 0
    }

    /// Ends the read with `error`. What was read is dropped.
    pub open spec fn fail(self, error: ErrorView) -> (ChunkReadView, StepView<Seq<u8>>) {
        (
            ChunkReadView {
                stage: ChunkStage::Closed,
                header: Seq::empty(),
                data: Seq::empty(),
                ..self
            },
            StepView::Finished(Err(error)),
        )
    }

    /// Ends the read with the raw bytes `data`.
    pub open spec fn finish(self, data: Seq<u8>) -> (ChunkReadView, StepView<Seq<u8>>) {
        (
            ChunkReadView {
                stage: ChunkStage::Closed,
                header: Seq::empty(),
                data: Seq::empty(),
                ..self
            },
            StepView::Finished(Ok(data)),
        )
    }

    /// What follows the verdict on the header frame. Only an intact frame of
    /// type `FlashRead` opens the raw phase: this reader makes one attempt
    /// and passes nothing over.
    pub open spec fn on_header(self, frame: Seq<u8>) -> (ChunkReadView, StepView<Seq<u8>>) {
        match verdict(frame) {
            Ok(message) => if message.type1 != MessageTypes::FlashRead {
                self.fail(
                    ErrorView::BadResponseCode {
                        failed_packet: message.encode(),
                        got: type_code(message.type1),
                        wanted: type_code(MessageTypes::FlashRead),
                    },
                )
            } else if self.expected == 0 {
                self.finish(Seq::empty())
            } else {
                (
                    ChunkReadView { stage: ChunkStage::Raw, header: Seq::empty(), ..self },
                    StepView::Next(ActionView::Receive(raw_limit(self.expected))),
                )
            },
            Err(error) => self.fail(error),
        }
    }

    /// What follows the arrival of raw bytes.
    pub open spec fn on_raw(self, bytes: Seq<u8>) -> (ChunkReadView, StepView<Seq<u8>>) {
        if bytes.len() > raw_limit((self.expected - self.data.len()) as nat) {
            self.fail(ErrorView::InvalidArgs)
        } else if self.data.len() + bytes.len() >= self.expected {
            self.finish(self.data + bytes)
        } else {
            (
                ChunkReadView { data: self.data + bytes, ..self },
                StepView::Next(
                    ActionView::Receive(
                        raw_limit((self.expected - self.data.len() - bytes.len()) as nat),
                    ),
                ),
            )
        }
    }

    /// The transition on one event of the transport. A timeout and an empty
    /// read mean "not yet" in both phases of the response.
    pub open spec fn step(self, event: EventView) -> (ChunkReadView, StepView<Seq<u8>>) {
        match self.stage {
            ChunkStage::Request => match event {
                EventView::Done => (
                    ChunkReadView { stage: ChunkStage::Header, ..self },
                    StepView::Next(ActionView::Receive(1)),
                ),
                EventView::Failed(e) => self.fail(ErrorView::IOError { e }),
                _ => self.fail(ErrorView::InvalidArgs),
            },
            ChunkStage::Header => match event {
                EventView::Data(bytes) => if bytes.len() == 0 {
                    (self, StepView::Next(ActionView::Receive(1)))
                } else if bytes.len() > 1 {
                    self.fail(ErrorView::InvalidArgs)
                } else if is_complete(accumulate(self.header, bytes[0])) {
                    self.on_header(accumulate(self.header, bytes[0]))
                } else {
                    (
                        ChunkReadView { header: accumulate(self.header, bytes[0]), ..self },
                        StepView::Next(ActionView::Receive(1)),
                    )
                },
                EventView::TimedOut => (self, StepView::Next(ActionView::Receive(1))),
                EventView::Failed(e) => self.fail(ErrorView::IOError { e }),
                EventView::Done => self.fail(ErrorView::InvalidArgs),
            },
            ChunkStage::Raw => match event {
                EventView::Data(bytes) => self.on_raw(bytes),
                EventView::TimedOut => (
                    self,
                    StepView::Next(
                        ActionView::Receive(raw_limit((self.expected - self.data.len()) as nat)),
                    ),
                ),
                EventView::Failed(e) => self.fail(ErrorView::IOError { e }),
                EventView::Done => self.fail(ErrorView::InvalidArgs),
            },
            ChunkStage::Closed => self.fail(ErrorView::InvalidArgs),
        }
    }
}

/// A chunk read that ends well hands out exactly as many raw bytes as were
/// expected, and no step breaks what holds of a chunk read.
pub proof fn lemma_chunk_read_is_exact(state: ChunkReadView, event: EventView)
    requires
        state.inv(),
    ensures
        state.step(event).0.inv(),
        state.step(event).1 matches StepView::Finished(Ok(data)) ==> data.len() == state.expected,
{
}

/// The read of one chunk in progress.
#[derive(Debug)]
pub struct ChunkRead {
    stage: ChunkStage,
    expected: usize,
    reader: PacketReader,
    data: Vec<u8>,
}

impl View for ChunkRead {
    type V = ChunkReadView;

    closed spec fn view(&self) -> ChunkReadView {
        ChunkReadView {
            stage: self.stage,
            expected: self.expected as nat,
            header: self.reader@,
            data: self.data@,
        }
    }
}

impl ChunkRead {
    /// All holds that holds of a chunk read at all times.
    pub open spec fn wf(&self) -> bool {
        self@.inv()
    }

    fn fail(&mut self, error: BESLinkError) -> (r: Step<Vec<u8>>)
        ensures
            final(self).wf(),
            (final(self)@, r@) == old(self)@.fail(error@),
    {
        self.stage = ChunkStage::Closed;
        self.reader.reset();
        self.data = Vec::new();
        Step::Finished(Err(error))
    }

    fn finish(&mut self) -> (r: Step<Vec<u8>>)
        ensures
            final(self).wf(),
            (final(self)@, r@) == old(self)@.finish(old(self)@.data),
    {
        let mut data: Vec<u8> = Vec::new();
        std::mem::swap(&mut data, &mut self.data);
        self.stage = ChunkStage::Closed;
        self.reader.reset();
        Step::Finished(Ok(data))
    }

    fn raw_limit(&self) -> (r: usize)
        requires
            self@.data.len() <= self@.expected,
        ensures
            r == raw_limit((self@.expected - self@.data.len()) as nat),
    {
        let missing = self.expected - self.data.len();
        if missing < FLASH_BUFFER_SIZE {
            missing
        } else {
            FLASH_BUFFER_SIZE
        }
    }

    /// Takes the outcome of the last action and says how the read goes on.
    pub fn step(&mut self, event: Event) -> (r: Step<Vec<u8>>)
        requires
            old(self).wf(),
        ensures
            final(self).wf(),
            (final(self)@, r@) == old(self)@.step(event@),
    {
        match self.stage {
            ChunkStage::Request => match event {
                Event::Done => {
                    self.stage = ChunkStage::Header;
                    Step::Next(Action::Receive(1))
                },
                Event::Failed(e) => self.fail(BESLinkError::IOError { e }),
                _ => self.fail(BESLinkError::InvalidArgs),
            },
            ChunkStage::Header => match event {
                Event::Data(bytes) => {
                    if bytes.len() == 0 {
                        Step::Next(Action::Receive(1))
                    } else if bytes.len() > 1 {
                        self.fail(BESLinkError::InvalidArgs)
                    } else {
                        match self.reader.push_byte(bytes[0]) {
                            None => Step::Next(Action::Receive(1)),
                            Some(Err(error)) => self.fail(error),
                            Some(Ok(message)) => {
                                if message.type1 != MessageTypes::FlashRead {
                                    let failed_packet = message.to_vec();
                                    self.fail(
                                        BESLinkError::BadResponseCode {
                                            failed_packet,
                                            got: u8::from(message.type1),
                                            wanted: u8::from(MessageTypes::FlashRead),
                                        },
                                    )
                                } else if self.expected == 0 {
                                    assert(self.data@ == Seq::<u8>::empty());
                                    self.finish()
                                } else {
                                    self.stage = ChunkStage::Raw;
                                    Step::Next(Action::Receive(self.raw_limit()))
                                }
                            },
                        }
                    }
                },
                Event::TimedOut => Step::Next(Action::Receive(1)),
                Event::Failed(e) => self.fail(BESLinkError::IOError { e }),
                Event::Done => self.fail(BESLinkError::InvalidArgs),
            },
            ChunkStage::Raw => match event {
                Event::Data(bytes) => {
                    if bytes.len() > self.raw_limit() {
                        self.fail(BESLinkError::InvalidArgs)
                    } else {
                        extend_bytes(&mut self.data, bytes.as_slice());
                        if self.data.len() >= self.expected {
                            self.finish()
                        } else {
                            Step::Next(Action::Receive(self.raw_limit()))
                        }
                    }
                },
                Event::TimedOut => Step::Next(Action::Receive(self.raw_limit())),
                Event::Failed(e) => self.fail(BESLinkError::IOError { e }),
                Event::Done => self.fail(BESLinkError::InvalidArgs),
            },
            ChunkStage::Closed => self.fail(BESLinkError::InvalidArgs),
        }
    }
}

/// Begins the read of one chunk of [`READ_CHUNK_SIZE`] bytes from `address`
/// on. The action to begin with is the write of the request.
pub fn read_flash_chunk(address: u32) -> (r: (ChunkRead, Action))
    ensures
        r.0.wf(),
        r.0@ == ChunkReadView::begin(READ_CHUNK_SIZE as nat),
        r.1@ == ActionView::Send(read_request(address, READ_CHUNK_SIZE as u32).encode()),
{
    let request = get_read_request(address, READ_CHUNK_SIZE as u32);
    (
        ChunkRead {
            stage: ChunkStage::Request,
            expected: READ_CHUNK_SIZE,
            reader: PacketReader::new(),
            data: Vec::new(),
        },
        request.send_packet(),
    )
}

/// Where the read of an image stands.
#[derive(Debug, PartialEq, Eq, Structural, Clone, Copy)]
pub enum ReaderStage {
    /// The handshake that opens a burst is under way.
    Handshake,
    /// A chunk is being read.
    Chunk,
    /// The device is given time after a chunk.
    ChunkPause,
    /// The reboot that closes a burst is out or being acknowledged.
    Reboot,
    /// The read has ended, well or badly.
    Closed,
}

/// The state of the read of an image.
pub struct ReaderView {
    pub stage: ReaderStage,
    /// The programmer image that every burst loads anew.
    pub programmer: Seq<u8>,
    /// The offset into flash at which the read begins.
    pub start: nat,
    /// The number of bytes asked for.
    pub length: nat,
    /// What the bursts that are over have read.
    pub content: Seq<u8>,
    /// What the burst in progress has read.
    pub burst: Seq<u8>,
    /// The number of chunk reads that failed in the burst in progress.
    pub tries: nat,
    /// The number of bursts that are over.
    pub bursts: nat,
    pub handshake: HandshakeView,
    pub chunk: ChunkReadView,
    pub exchange: ExchangeView,
}

/// The number of bursts that a read of `length` bytes takes.
pub open spec fn burst_count(length: nat) -> nat {
    (length + MAX_READ_BEFORE_RESET - 1) as nat / (MAX_READ_BEFORE_RESET as nat)
}

impl ReaderView {
    /// Whether `length` bytes from offset `start` lie within the 32-bit
    /// address space of the device.
    pub open spec fn accepts(start: usize, length: usize) -> bool {
        FLASH_BASE_ADDRESS + start + length <= u32::MAX + 1
    }

    /// The number of bytes that the burst in progress is to deliver: what is
    /// still missing, but no more than [`MAX_READ_BEFORE_RESET`].
    pub open spec fn burst_goal(self) -> nat {
        if self.length - self.content.len() < MAX_READ_BEFORE_RESET {
            (self.length - self.content.len()) as nat
        } else {
            MAX_READ_BEFORE_RESET as nat
        }
    }

    /// The whole range lies within the address space of the device.
    pub open spec fn in_range(self) -> bool {
        FLASH_BASE_ADDRESS + self.start + self.length <= u32::MAX + 1
    }

    /// The device address of the next chunk.
    pub open spec fn next_address(self) -> u32 {
        (FLASH_BASE_ADDRESS + self.start + self.content.len() + self.burst.len()) as u32
    }

    /// What holds of a read at all times. No burst holds more than
    /// [`MAX_READ_BEFORE_RESET`] bytes, and the bursts that are over have
    /// delivered that many bytes each, but for the last.
    pub open spec fn inv(self) -> bool {
        &&& self.stage != ReaderStage::Closed ==> self.in_range()
        &&& self.content.len() <= self.length
        &&& self.tries <= READ_RETRY_LIMIT
        &&& self.chunk.inv()
        &&& self.chunk.expected == READ_CHUNK_SIZE
        &&& self.burst.len() % (READ_CHUNK_SIZE as nat) == 0
        &&& self.burst.len() <= MAX_READ_BEFORE_RESET
        &&& (self.stage == ReaderStage::Handshake || self.stage == ReaderStage::Chunk
            || self.stage == ReaderStage::ChunkPause) ==> {
            &&& self.content.len() == self.bursts * MAX_READ_BEFORE_RESET
            &&& self.content.len() < self.length
        }
        &&& (self.stage == ReaderStage::Handshake || self.stage == ReaderStage::Chunk)
            ==> self.burst.len() < self.burst_goal()
        &&& self.stage == ReaderStage::ChunkPause ==> self.burst.len() < self.burst_goal()
            + READ_CHUNK_SIZE
        &&& self.stage == ReaderStage::Reboot ==> {
            &&& self.bursts * MAX_READ_BEFORE_RESET < self.length
            &&& self.content.len() == if (self.bursts + 1) * MAX_READ_BEFORE_RESET
                < self.length {
                (self.bursts + 1) * MAX_READ_BEFORE_RESET
            } else {
                self.length as int
            }
        }
    }

    /// The state before anything was asked of the transport.
    pub open spec fn idle(programmer: Seq<u8>, start: usize, length: usize) -> ReaderView {
        ReaderView {
            stage: ReaderStage::Closed,
            programmer,
            start: start as nat,
            length: length as nat,
            content: Seq::empty(),
            burst: Seq::empty(),
            tries: 0,
            bursts: 0,
            handshake: HandshakeView::begin(Seq::empty()).0,
            chunk: ChunkReadView::begin(READ_CHUNK_SIZE as nat),
            exchange: ExchangeView::begin(MessageTypes::DeviceCommand),
        }
    }

    /// The state in which the read of `length` bytes from offset `start`
    /// begins, and what happens first: a range outside the address space is
    /// rejected, a read of nothing is over at once, and any other read opens
    /// its first burst.
    pub open spec fn begin(programmer: Seq<u8>, start: usize, length: usize) -> (
        ReaderView,
        StepView<Seq<u8>>,
    ) {
        let idle = ReaderView::idle(programmer, start, length);
        if !ReaderView::accepts(start, length) {
            (idle, StepView::Finished(Err(ErrorView::InvalidArgs)))
        } else if length == 0 {
            (idle, StepView::Finished(Ok(Seq::empty())))
        } else {
            idle.begin_burst()
        }
    }

    /// Ends the read with `error`.
    pub open spec fn fail(self, error: ErrorView) -> (ReaderView, StepView<Seq<u8>>) {
        (ReaderView { stage: ReaderStage::Closed, ..self }, StepView::Finished(Err(error)))
    }

    /// Opens a burst: the handshake starts from scratch.
    pub open spec fn begin_burst(self) -> (ReaderView, StepView<Seq<u8>>) {
        (
            ReaderView {
                stage: ReaderStage::Handshake,
                burst: Seq::empty(),
                tries: 0,
                handshake: HandshakeView::begin(self.programmer).0,
                ..self
            },
            StepView::Next(HandshakeView::begin(self.programmer).1),
        )
    }

    /// Asks for the next chunk of the burst.
    pub open spec fn request_chunk(self) -> (ReaderView, StepView<Seq<u8>>) {
        (
            ReaderView {
                stage: ReaderStage::Chunk,
                chunk: ChunkReadView::begin(READ_CHUNK_SIZE as nat),
                ..self
            },
            StepView::Next(
                ActionView::Send(
                    read_request(self.next_address(), READ_CHUNK_SIZE as u32).encode(),
                ),
            ),
        )
    }

    /// Closes a burst: what it read is cut to the burst's goal and joins the
    /// content, and the device is rebooted.
    pub open spec fn close_burst(self) -> (ReaderView, StepView<Seq<u8>>) {
        (
            ReaderView {
                stage: ReaderStage::Reboot,
                content: self.content + fitted(self.burst, self.burst_goal()),
                burst: Seq::empty(),
                exchange: ExchangeView::begin(MessageTypes::DeviceCommand),
                ..self
            },
            StepView::Next(ActionView::Send(device_reboot_message().encode())),
        )
    }

    /// What follows a chunk read that failed with `error`: the chunk is
    /// asked for again, until more than [`READ_RETRY_LIMIT`] reads of the
    /// burst have failed. A misuse of the reader is not tried again.
    pub open spec fn retry(self, error: ErrorView) -> (ReaderView, StepView<Seq<u8>>) {
        if error is InvalidArgs || self.tries + 1 > READ_RETRY_LIMIT {
            self.fail(error)
        } else {
            (ReaderView { tries: self.tries + 1, ..self }).request_chunk()
        }
    }

    /// What follows the acknowledgement of the reboot: the next burst, or
    /// the end of the read with all of the content.
    pub open spec fn after_reboot(self) -> (ReaderView, StepView<Seq<u8>>) {
        let counted = ReaderView { bursts: self.bursts + 1, ..self };
        if counted.content.len() < counted.length {
            counted.begin_burst()
        } else {
            (
                ReaderView { stage: ReaderStage::Closed, content: Seq::empty(), ..counted },
                StepView::Finished(Ok(counted.content)),
            )
        }
    }

    /// The transition on one event of the transport.
    ///
    /// A failed handshake and a failed reboot end the read. A failed chunk
    /// read is tried again within the burst.
    pub open spec fn step(self, event: EventView) -> (ReaderView, StepView<Seq<u8>>) {
        match self.stage {
            ReaderStage::Handshake => {
                let stepped = ReaderView { handshake: self.handshake.step(event).0, ..self };
                match self.handshake.step(event).1 {
                    StepView::Next(action) => (stepped, StepView::Next(action)),
                    StepView::Finished(Err(error)) => stepped.fail(error),
                    StepView::Finished(Ok(_)) => stepped.request_chunk(),
                }
            },
            ReaderStage::Chunk => {
                let stepped = ReaderView { chunk: self.chunk.step(event).0, ..self };
                match self.chunk.step(event).1 {
                    StepView::Next(action) => (stepped, StepView::Next(action)),
                    StepView::Finished(Err(error)) => stepped.retry(error),
                    StepView::Finished(Ok(data)) => (
                        ReaderView {
                            stage: ReaderStage::ChunkPause,
                            burst: self.burst + data,
                            ..stepped
                        },
                        StepView::Next(ActionView::Pause(READ_SETTLE_MILLIS)),
                    ),
                }
            },
            ReaderStage::ChunkPause => match event {
                EventView::Done => if self.burst.len() < self.burst_goal() {
                    self.request_chunk()
                } else {
                    self.close_burst()
                },
                _ => self.fail(ErrorView::InvalidArgs),
            },
            ReaderStage::Reboot => {
                let stepped = ReaderView { exchange: self.exchange.step(event).0, ..self };
                match self.exchange.step(event).1 {
                    StepView::Next(action) => (stepped, StepView::Next(action)),
                    StepView::Finished(Err(error)) => stepped.fail(error),
                    StepView::Finished(Ok(_)) => stepped.after_reboot(),
                }
            },
            ReaderStage::Closed => self.fail(ErrorView::InvalidArgs),
        }
    }
}

/// No step of a read breaks what holds of it at all times, and a read that
/// ends well hands out exactly as many bytes as were asked for, after as
/// many bursts as that takes.
pub proof fn lemma_read_is_exact(state: ReaderView, event: EventView)
    requires
        state.inv(),
    ensures
        state.step(event).0.inv(),
        state.step(event).1 matches StepView::Finished(Ok(content)) ==> {
            &&& content.len() == state.length
            &&& state.step(event).0.bursts == burst_count(state.length)
        },
{
    lemma_chunk_read_is_exact(state.chunk, event);
}

/// A read that has ended stays ended: whatever it is handed, it answers
/// with `InvalidArgs` and never with success.
pub proof fn lemma_closed_read_stays_closed(state: ReaderView, event: EventView)
    requires
        state.stage == ReaderStage::Closed,
    ensures
        state.step(event) == (state, StepView::<Seq<u8>>::Finished(Err(ErrorView::InvalidArgs))),
{
}

/// Nothing is made up: when a burst is closed it holds at least what it was
/// to deliver, so fitting it to its goal only cuts and never fills.
pub proof fn lemma_burst_is_cut_not_filled(state: ReaderView, event: EventView)
    requires
        state.inv(),
        state.stage == ReaderStage::ChunkPause,
        state.step(event).0.stage == ReaderStage::Reboot,
    ensures
        state.burst.len() >= state.burst_goal(),
        state.step(event).0.content == state.content + state.burst.take(
            state.burst_goal() as int,
        ),
{
}

/// A read begins in a state of which all holds that holds at all times. A
/// read of nothing takes no burst.
pub proof fn lemma_read_begins_well(programmer: Seq<u8>, start: usize, length: usize)
    ensures
        ReaderView::begin(programmer, start, length).0.inv(),
        ReaderView::begin(programmer, start, length).1 matches StepView::Finished(Ok(content))
            ==> length == 0 && content.len() == 0,
{
}

fn is_invalid_args(error: &BESLinkError) -> (r: bool)
    ensures
        r == (error@ is InvalidArgs),
{
    match error {
        BESLinkError::InvalidArgs => true,
        _ => false,
    }
}

/// The read of an image in progress.
#[derive(Debug)]
pub struct FlashReader {
    stage: ReaderStage,
    programmer: Vec<u8>,
    start: usize,
    length: usize,
    content: Vec<u8>,
    burst: Vec<u8>,
    tries: usize,
    bursts: usize,
    handshake: Handshake,
    chunk: ChunkRead,
    exchange: Exchange,
}

impl View for FlashReader {
    type V = ReaderView;

    closed spec fn view(&self) -> ReaderView {
        ReaderView {
            stage: self.stage,
            programmer: self.programmer@,
            start: self.start as nat,
            length: self.length as nat,
            content: self.content@,
            burst: self.burst@,
            tries: self.tries as nat,
            bursts: self.bursts as nat,
            handshake: self.handshake@,
            chunk: self.chunk@,
            exchange: self.exchange@,
        }
    }
}

impl FlashReader {
    /// All holds that holds of a read at all times, and the parts it is made
    /// of are well-formed.
    pub open spec fn wf(&self) -> bool {
        &&& self@.inv()
        &&& self.parts_wf()
    }

    /// The handshake, the chunk read and the exchange in progress are
    /// well-formed.
    pub closed spec fn parts_wf(&self) -> bool {
        &&& self.handshake.wf()
        &&& self.chunk.wf()
        &&& self.exchange.wf()
    }

    /// The number of bursts that are over.
    pub fn bursts_completed(&self) -> (r: usize)
        ensures
            r == self@.bursts,
    {
        self.bursts
    }

    fn fail(&mut self, error: BESLinkError) -> (r: Step<Vec<u8>>)
        requires
            old(self).wf(),
        ensures
            final(self).wf(),
            (final(self)@, r@) == old(self)@.fail(error@),
    {
        self.stage = ReaderStage::Closed;
        Step::Finished(Err(error))
    }

    fn begin_burst(&mut self) -> (r: Step<Vec<u8>>)
        requires
            old(self).wf(),
            old(self)@.in_range(),
            old(self)@.content.len() == old(self)@.bursts * MAX_READ_BEFORE_RESET,
            old(self)@.content.len() < old(self)@.length,
        ensures
            final(self).wf(),
            (final(self)@, r@) == old(self)@.begin_burst(),
    {
        let mut programmer: Vec<u8> = Vec::new();
        extend_bytes(&mut programmer, self.programmer.as_slice());
        let (handshake, action) = helper_sync_and_load_programmer(programmer);
        self.stage = ReaderStage::Handshake;
        self.burst = Vec::new();
        self.tries = 0;
        self.handshake = handshake;
        Step::Next(action)
    }

    fn request_chunk(&mut self) -> (r: Step<Vec<u8>>)
        requires
            old(self).wf(),
            old(self)@.in_range(),
            old(self)@.content.len() == old(self)@.bursts * MAX_READ_BEFORE_RESET,
            old(self)@.content.len() < old(self)@.length,
            old(self)@.burst.len() < old(self)@.burst_goal(),
        ensures
            final(self).wf(),
            (final(self)@, r@) == old(self)@.request_chunk(),
    {
        let address: usize = FLASH_BASE_ADDRESS + self.start + self.content.len()
            + self.burst.len();
        let (chunk, action) = read_flash_chunk(address as u32);
        self.stage = ReaderStage::Chunk;
        self.chunk = chunk;
        Step::Next(action)
    }

    fn burst_goal(&self) -> (r: usize)
        requires
            self.wf(),
        ensures
            r == self@.burst_goal(),
    {
        let missing = self.length - self.content.len();
        if missing < MAX_READ_BEFORE_RESET {
            missing
        } else {
            MAX_READ_BEFORE_RESET
        }
    }

    fn close_burst(&mut self) -> (r: Step<Vec<u8>>)
        requires
            old(self).wf(),
            old(self)@.stage == ReaderStage::ChunkPause,
            old(self)@.burst.len() >= old(self)@.burst_goal(),
        ensures
            final(self).wf(),
            (final(self)@, r@) == old(self)@.close_burst(),
    {
        let goal = self.burst_goal();
        let mut burst: Vec<u8> = Vec::new();
        std::mem::swap(&mut burst, &mut self.burst);
        let burst = fit_to_length(burst, goal);
        let (exchange, action) = send_device_reboot();
        extend_bytes(&mut self.content, burst.as_slice());
        self.stage = ReaderStage::Reboot;
        self.exchange = exchange;
        Step::Next(action)
    }

    fn after_reboot(&mut self) -> (r: Step<Vec<u8>>)
        requires
            old(self).wf(),
            old(self)@.stage == ReaderStage::Reboot,
        ensures
            final(self).wf(),
            (final(self)@, r@) == old(self)@.after_reboot(),
    {
        self.bursts = self.bursts + 1;
        if self.content.len() < self.length {
            self.stage = ReaderStage::Closed;
            self.begin_burst()
        } else {
            let mut content: Vec<u8> = Vec::new();
            std::mem::swap(&mut content, &mut self.content);
            self.stage = ReaderStage::Closed;
            Step::Finished(Ok(content))
        }
    }

    /// Takes the outcome of the last action and says how the read goes on.
    /// It ends with the bytes that were asked for, or with the error that
    /// ended it.
    pub fn step(&mut self, event: Event) -> (r: Step<Vec<u8>>)
        requires
            old(self).wf(),
        ensures
            final(self).wf(),
            (final(self)@, r@) == old(self)@.step(event@),
            r matches Step::Finished(Ok(content)) ==> content@.len() == old(self)@.length,
    {
        proof {
            lemma_read_is_exact(self@, event@);
        }
        match self.stage {
            ReaderStage::Handshake => match self.handshake.step(event) {
                Step::Next(action) => Step::Next(action),
                Step::Finished(Err(error)) => self.fail(error),
                Step::Finished(Ok(_)) => self.request_chunk(),
            },
            ReaderStage::Chunk => match self.chunk.step(event) {
                Step::Next(action) => Step::Next(action),
                Step::Finished(Err(error)) => {
                    if is_invalid_args(&error) || self.tries + 1 > READ_RETRY_LIMIT {
                        self.fail(error)
                    } else {
                        self.tries = self.tries + 1;
                        self.request_chunk()
                    }
                },
                Step::Finished(Ok(data)) => {
                    extend_bytes(&mut self.burst, data.as_slice());
                    self.stage = ReaderStage::ChunkPause;
                    Step::Next(Action::Pause(READ_SETTLE_MILLIS))
                },
            },
            ReaderStage::ChunkPause => match event {
                Event::Done => {
                    if self.burst.len() < self.burst_goal() {
                        self.request_chunk()
                    } else {
                        self.close_burst()
                    }
                },
                _ => self.fail(BESLinkError::InvalidArgs),
            },
            ReaderStage::Reboot => match self.exchange.step(event) {
                Step::Next(action) => Step::Next(action),
                Step::Finished(Err(error)) => self.fail(error),
                Step::Finished(Ok(_)) => self.after_reboot(),
            },
            ReaderStage::Closed => self.fail(BESLinkError::InvalidArgs),
        }
    }
}

/// Begins the read of `length` bytes of flash from offset `start` on, with
/// `programmer` as the image that every burst loads. What happens first is
/// the write of the handshake's first command, unless the range is rejected
/// or nothing is asked for.
pub fn read_flash_data(programmer: Vec<u8>, start: usize, length: usize) -> (r: (
    FlashReader,
    Step<Vec<u8>>,
))
    ensures
        r.0.wf(),
        (r.0@, r.1@) == ReaderView::begin(programmer@, start, length),
{
    let (handshake, _) = helper_sync_and_load_programmer(Vec::new());
    let (chunk, _) = read_flash_chunk(0);
    let (exchange, _) = send_device_reboot();
    let mut reader = FlashReader {
        stage: ReaderStage::Closed,
        programmer,
        start,
        length,
        content: Vec::new(),
        burst: Vec::new(),
        tries: 0,
        bursts: 0,
        handshake,
        chunk,
        exchange,
    };
    let room: usize = u32::MAX as usize - FLASH_BASE_ADDRESS + 1;
    if start > room || length > room - start {
        (reader, Step::Finished(Err(BESLinkError::InvalidArgs)))
    } else if length == 0 {
        (reader, Step::Finished(Ok(Vec::new())))
    } else {
        let first = reader.begin_burst();
        (reader, first)
    }
}

} // verus!
