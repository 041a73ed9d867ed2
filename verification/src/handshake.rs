//! The bootloader handshake: from a device in its boot ROM to a running
//! programmer that answers flash commands.
//!
//! The handshake keeps the boot ROM from starting the firmware, announces
//! and writes the programmer image, starts it, and asks it for the identity
//! of the flash chip to see that the whole round trip works. A failure at
//! any point ends the handshake.

use crate::bytes::extend_bytes;
use crate::errors::{BESLinkError, ErrorView};
use crate::exchange::{Exchange, ExchangeView};
use crate::message::{
    byte_sum_upto, BesMessage, MessageTypes, MessageView, BES_SYNC,
};
use crate::transport::{Action, ActionView, Event, EventView, Step, StepView};
use vstd::prelude::*;

verus! {

/// How long to wait before the "stay in bootloader" command is repeated.
pub const STAY_RESIDENT_RETRY_MILLIS: u64 = 2;

/// The command that keeps the boot ROM resident.
pub open spec fn stay_in_programmer_message() -> MessageView {
    MessageView {
        sync: BES_SYNC,
        type1: MessageTypes::Sync,
        payload: seq![0x00, 0x01, 0x01],
        checksum: 0xEF,
    }
}

/// The announcement of the programmer image: its load address, its length
/// and a check value, as the boot ROM expects them for the image that ships
/// with the tool.
pub open spec fn programmer_preamble_message() -> MessageView {
    MessageView {
        sync: BES_SYNC,
        type1: MessageTypes::StartProgrammer,
        payload: seq![
            0x00, 0x0C, 0xDC, 0x05, 0x01, 0x20, 0xDC, 0x32, 0x01, 0x00, 0xC0, 0xA7, 0xE8, 0x0C,
        ],
        checksum: 0x76,
    }
}

/// The command that starts the loaded programmer.
pub open spec fn programmer_start_message() -> MessageView {
    MessageView {
        sync: BES_SYNC,
        type1: MessageTypes::ProgrammerStart,
        payload: seq![0x01, 0x00],
        checksum: 0xEB,
    }
}

/// The query for the identity of the flash chip.
pub open spec fn flash_id_query() -> MessageView {
    MessageView {
        sync: BES_SYNC,
        type1: MessageTypes::FlashCommand,
        payload: seq![0x02, 0x01, 0x11],
        checksum: 0xC8,
    }
}

/// The query for the unique identity of the flash chip.
pub open spec fn flash_unique_id_query() -> MessageView {
    MessageView {
        sync: BES_SYNC,
        type1: MessageTypes::FlashCommand,
        payload: seq![0x03, 0x01, 0x12],
        checksum: 0xC6,
    }
}

/// The fixed messages of the handshake carry the checksums that their bodies
/// call for.
pub proof fn lemma_handshake_messages_are_sealed()
    ensures
        stay_in_programmer_message().is_sealed(),
        programmer_preamble_message().is_sealed(),
        programmer_start_message().is_sealed(),
        flash_id_query().is_sealed(),
        flash_unique_id_query().is_sealed(),
{
    reveal_with_fuel(byte_sum_upto, 17);
}

/// Builds the command that keeps the boot ROM resident.
pub fn get_stay_in_programmer_message() -> (r: BesMessage)
    ensures
        r@ == stay_in_programmer_message(),
{
    BesMessage {
        sync: BES_SYNC,
        type1: MessageTypes::Sync,
        payload: vec![0x00, 0x01, 0x01],
        checksum: 0xEF,
    }
}

/// Builds the announcement of the programmer image.
pub fn get_programmer_preamble_message() -> (r: BesMessage)
    ensures
        r@ == programmer_preamble_message(),
{
    BesMessage {
        sync: BES_SYNC,
        type1: MessageTypes::StartProgrammer,
        payload: vec![
            0x00, 0x0C, 0xDC, 0x05, 0x01, 0x20, 0xDC, 0x32, 0x01, 0x00, 0xC0, 0xA7, 0xE8, 0x0C,
        ],
        checksum: 0x76,
    }
}

/// Builds the command that starts the loaded programmer.
pub fn get_programmer_start_message() -> (r: BesMessage)
    ensures
        r@ == programmer_start_message(),
{
    BesMessage {
        sync: BES_SYNC,
        type1: MessageTypes::ProgrammerStart,
        payload: vec![0x01, 0x00],
        checksum: 0xEB,
    }
}

/// Builds the query for the identity of the flash chip.
pub fn get_flash_id_query() -> (r: BesMessage)
    ensures
        r@ == flash_id_query(),
{
    BesMessage {
        sync: BES_SYNC,
        type1: MessageTypes::FlashCommand,
        payload: vec![0x02, 0x01, 0x11],
        checksum: 0xC8,
    }
}

/// Builds the query for the unique identity of the flash chip.
pub fn get_flash_unique_id_query() -> (r: BesMessage)
    ensures
        r@ == flash_unique_id_query(),
{
    BesMessage {
        sync: BES_SYNC,
        type1: MessageTypes::FlashCommand,
        payload: vec![0x03, 0x01, 0x12],
        checksum: 0xC6,
    }
}

/// What the programmer said of the flash chip when the handshake ended.
#[derive(Debug)]
pub struct FlashIdentity {
    /// The payload of the reply to the identity query.
    pub flash_id: Vec<u8>,
    /// The payload of the reply to the unique-identity query.
    pub flash_unique_id: Vec<u8>,
}

/// The mathematical content of a [`FlashIdentity`].
pub struct FlashIdentityView {
    pub flash_id: Seq<u8>,
    pub flash_unique_id: Seq<u8>,
}

impl View for FlashIdentity {
    type V = FlashIdentityView;

    open spec fn view(&self) -> FlashIdentityView {
        FlashIdentityView { flash_id: self.flash_id@, flash_unique_id: self.flash_unique_id@ }
    }
}

/// Where a handshake stands.
#[derive(Debug, PartialEq, Eq, Structural, Clone, Copy)]
pub enum Stage {
    /// The "stay in bootloader" command is out or being answered.
    StayResident,
    /// The last answer did not confirm; the command is repeated after a
    /// pause.
    StayPause,
    /// The announcement of the programmer image is out or being answered.
    Preamble,
    /// The programmer image is being written, as it is and unframed.
    LoadImage,
    /// The start command is out, the programmer's first message is awaited.
    StartProgrammer,
    /// The identity query is out or being answered.
    FlashId,
    /// The unique-identity query is out or being answered.
    FlashUniqueId,
    /// The handshake has ended, well or badly.
    Closed,
}

/// Whether a reply of the boot ROM confirms that it stays resident: the
/// payload bytes at offsets 2 and 3 are `0x02` and `0x00`.
pub open spec fn confirms_residency(reply: MessageView) -> bool {
    &&& reply.payload.len() >= 4
    &&& reply.payload[2] == 0x02
    &&& reply.payload[3] == 0x00
}

/// The state of a handshake.
pub struct HandshakeView {
    pub stage: Stage,
    /// The exchange in progress, in the stages that are exchanges.
    pub exchange: ExchangeView,
    /// The programmer image, byte for byte as it was handed in.
    pub programmer: Seq<u8>,
    /// The payload of the reply to the identity query, once it is in.
    pub flash_id: Seq<u8>,
}

impl HandshakeView {
    /// The state in which a handshake with this programmer image begins,
    /// together with the first action: the "stay in bootloader" command.
    pub open spec fn begin(programmer: Seq<u8>) -> (HandshakeView, ActionView) {
        (
            HandshakeView {
                stage: Stage::StayResident,
                exchange: ExchangeView::begin(MessageTypes::Sync),
                programmer,
                flash_id: Seq::empty(),
            },
            ActionView::Send(stay_in_programmer_message().encode()),
        )
    }

    /// Enters the stage `stage` by sending `request` and awaiting `reply`.
    pub open spec fn ask(self, stage: Stage, request: MessageView, reply: MessageTypes) -> (
        HandshakeView,
        StepView<FlashIdentityView>,
    ) {
        (
            HandshakeView { stage, exchange: ExchangeView::begin(reply), ..self },
            StepView::Next(ActionView::Send(request.encode())),
        )
    }

    /// Ends the handshake with `error`.
    pub open spec fn fail(self, error: ErrorView) -> (HandshakeView, StepView<FlashIdentityView>) {
        (HandshakeView { stage: Stage::Closed, ..self }, StepView::Finished(Err(error)))
    }

    /// What follows the reply that completes the exchange of the current
    /// stage.
    pub open spec fn after_reply(self, reply: MessageView) -> (
        HandshakeView,
        StepView<FlashIdentityView>,
    ) {
        match self.stage {
            Stage::StayResident => if confirms_residency(reply) {
                self.ask(
                    Stage::Preamble,
                    programmer_preamble_message(),
                    MessageTypes::StartProgrammer,
                )
            } else {
                (
                    HandshakeView { stage: Stage::StayPause, ..self },
                    StepView::Next(ActionView::Pause(STAY_RESIDENT_RETRY_MILLIS)),
                )
            },
            Stage::Preamble => (
                HandshakeView { stage: Stage::LoadImage, ..self },
                StepView::Next(ActionView::Send(self.programmer)),
            ),
            Stage::StartProgrammer => self.ask(
                Stage::FlashId,
                flash_id_query(),
                MessageTypes::FlashCommand,
            ),
            Stage::FlashId => (HandshakeView { flash_id: reply.payload, ..self }).ask(
                Stage::FlashUniqueId,
                flash_unique_id_query(),
                MessageTypes::FlashCommand,
            ),
            Stage::FlashUniqueId => (
                HandshakeView { stage: Stage::Closed, ..self },
                StepView::Finished(
                    Ok(
                        FlashIdentityView {
                            flash_id: self.flash_id,
                            flash_unique_id: reply.payload,
                        },
                    ),
                ),
            ),
            _ => self.fail(ErrorView::InvalidArgs),
        }
    }

    /// The transition on one event of the transport.
    pub open spec fn step(self, event: EventView) -> (HandshakeView, StepView<FlashIdentityView>) {
        match self.stage {
            Stage::StayPause => match event {
                EventView::Done => self.ask(
                    Stage::StayResident,
                    stay_in_programmer_message(),
                    MessageTypes::Sync,
                ),
                _ => self.fail(ErrorView::InvalidArgs),
            },
            Stage::LoadImage => match event {
                EventView::Done => self.ask(
                    Stage::StartProgrammer,
                    programmer_start_message(),
                    MessageTypes::ProgrammerInit,
                ),
                EventView::Failed(e) => self.fail(ErrorView::IOError { e }),
                _ => self.fail(ErrorView::InvalidArgs),
            },
            Stage::Closed => self.fail(ErrorView::InvalidArgs),
            _ => {
                let stepped = HandshakeView { exchange: self.exchange.step(event).0, ..self };
                match self.exchange.step(event).1 {
                    StepView::Next(action) => (stepped, StepView::Next(action)),
                    StepView::Finished(Err(error)) => stepped.fail(error),
                    StepView::Finished(Ok(reply)) => stepped.after_reply(reply),
                }
            },
        }
    }
}

impl HandshakeView {
    /// What a handshake writes once the boot ROM has confirmed that it
    /// stays resident: the announcement, the image, the start command and
    /// the two queries.
    pub open spec fn load_and_verify(self) -> Seq<Seq<u8>> {
        seq![
            programmer_preamble_message().encode(),
            self.programmer,
            programmer_start_message().encode(),
            flash_id_query().encode(),
            flash_unique_id_query().encode(),
        ]
    }

    /// What a handshake in this state has still to write before it ends
    /// well, if it pauses `pauses` times on the way: the "stay in
    /// bootloader" command once after each pause, and of the rest what is
    /// not out yet.
    pub open spec fn owed(self, pauses: nat) -> Seq<Seq<u8>> {
        match self.stage {
            Stage::StayResident => Seq::new(
                pauses,
                |i: int| stay_in_programmer_message().encode(),
            ) + self.load_and_verify(),
            Stage::StayPause => Seq::new(
                pauses + 1,
                |i: int| stay_in_programmer_message().encode(),
            ) + self.load_and_verify(),
            Stage::Preamble => self.load_and_verify().skip(1),
            Stage::LoadImage => self.load_and_verify().skip(2),
            Stage::StartProgrammer => self.load_and_verify().skip(3),
            Stage::FlashId => self.load_and_verify().skip(4),
            Stage::FlashUniqueId | Stage::Closed => Seq::empty(),
        }
    }

    /// What is written, one element for each write, while the events of
    /// `events` are handed in one after the other and the handshake goes on.
    pub open spec fn writes(self, events: Seq<EventView>) -> Seq<Seq<u8>>
        decreases events.len(),
    {
        if events.len() == 0 {
            Seq::empty()
        } else {
            match self.step(events[0]).1 {
                StepView::Next(ActionView::Send(bytes)) => seq![bytes] + self.step(
                    events[0],
                ).0.writes(events.skip(1)),
                StepView::Next(_) => self.step(events[0]).0.writes(events.skip(1)),
                StepView::Finished(_) => Seq::empty(),
            }
        }
    }

    /// The number of pauses that are asked for while the events of `events`
    /// are handed in one after the other and the handshake goes on.
    pub open spec fn pauses(self, events: Seq<EventView>) -> nat
        decreases events.len(),
    {
        if events.len() == 0 {
            0
        } else {
            match self.step(events[0]).1 {
                StepView::Next(ActionView::Pause(_)) => 1 + self.step(events[0]).0.pauses(
                    events.skip(1),
                ),
                StepView::Next(_) => self.step(events[0]).0.pauses(events.skip(1)),
                StepView::Finished(_) => 0,
            }
        }
    }

    /// The handshake ends well with the last of `events`, and not before.
    pub open spec fn ends_well_with(self, events: Seq<EventView>) -> bool
        decreases events.len(),
    {
        if events.len() == 0 {
            false
        } else {
            match self.step(events[0]).1 {
                StepView::Next(_) => self.step(events[0]).0.ends_well_with(events.skip(1)),
                StepView::Finished(Ok(_)) => events.len() == 1,
                StepView::Finished(Err(_)) => false,
            }
        }
    }
}

/// Once the boot ROM has confirmed that it stays resident, the handshake
/// asks for no more pauses.
pub proof fn lemma_no_pause_after_residency(state: HandshakeView, events: Seq<EventView>)
    requires
        state.stage != Stage::StayResident,
        state.stage != Stage::StayPause,
    ensures
        state.pauses(events) == 0,
    decreases events.len(),
{
    if events.len() > 0 {
        lemma_no_pause_after_residency(state.step(events[0]).0, events.skip(1));
    }
}

/// Whatever the transport reports on the way, a handshake that ends well
/// has written what it owed and nothing else, in order: the image goes out
/// only behind its announcement, the start command only behind the image,
/// and the queries only behind the start command.
pub proof fn lemma_handshake_settles_what_is_owed(state: HandshakeView, events: Seq<EventView>)
    requires
        state.ends_well_with(events),
    ensures
        state.writes(events) == state.owed(state.pauses(events)),
    decreases events.len(),
{
    let next = state.step(events[0]).0;
    let stay = stay_in_programmer_message().encode();
    let rest = state.load_and_verify();
    match state.step(events[0]).1 {
        StepView::Next(action) => {
            lemma_handshake_settles_what_is_owed(next, events.skip(1));
            let later = next.pauses(events.skip(1));
            assert(next.load_and_verify() == rest);
            if next.stage != Stage::StayResident && next.stage != Stage::StayPause {
                lemma_no_pause_after_residency(next, events.skip(1));
            }
            if state.stage == Stage::StayPause {
                assert(Seq::new(later + 1, |i: int| stay) + rest == seq![stay] + (Seq::new(
                    later,
                    |i: int| stay,
                ) + rest));
            } else if state.stage == Stage::StayResident && next.stage == Stage::Preamble {
                assert(Seq::new(0, |i: int| stay) + rest == seq![rest[0]] + rest.skip(1));
            } else if state.stage == Stage::Preamble && next.stage == Stage::LoadImage {
                assert(rest.skip(1) == seq![rest[1]] + rest.skip(2));
            } else if state.stage == Stage::LoadImage && next.stage == Stage::StartProgrammer {
                assert(rest.skip(2) == seq![rest[2]] + rest.skip(3));
            } else if state.stage == Stage::StartProgrammer && next.stage == Stage::FlashId {
                assert(rest.skip(3) == seq![rest[3]] + rest.skip(4));
            } else if state.stage == Stage::FlashId && next.stage == Stage::FlashUniqueId {
                assert(rest.skip(4) == seq![rest[4]] + Seq::<Seq<u8>>::empty());
            }
        },
        StepView::Finished(_) => {},
    }
}

/// From its first action to its good end a handshake puts on the wire the
/// "stay in bootloader" command, once and once more after each pause, then
/// the announcement of the image, the image as it was handed in, the start
/// command and the two queries.
pub proof fn lemma_handshake_writes_in_order(programmer: Seq<u8>, events: Seq<EventView>)
    requires
        HandshakeView::begin(programmer).0.ends_well_with(events),
    ensures
        ({
            let begun = HandshakeView::begin(programmer).0;
            let stay = stay_in_programmer_message().encode();
            &&& HandshakeView::begin(programmer).1 == ActionView::Send(stay)
            &&& begun.writes(events) == Seq::new(begun.pauses(events), |i: int| stay) + seq![
                programmer_preamble_message().encode(),
                programmer,
                programmer_start_message().encode(),
                flash_id_query().encode(),
                flash_unique_id_query().encode(),
            ]
        }),
{
    lemma_handshake_settles_what_is_owed(HandshakeView::begin(programmer).0, events);
}

/// A handshake that has ended stays ended: whatever it is handed, it answers
/// with `InvalidArgs` and never with success.
pub proof fn lemma_closed_handshake_stays_closed(state: HandshakeView, event: EventView)
    requires
        state.stage == Stage::Closed,
    ensures
        state.step(event) == (state, StepView::<FlashIdentityView>::Finished(Err(ErrorView::InvalidArgs))),
{
}

/// A handshake ends well only with the reply to the last query, and it ends
/// with the first error of any stage: every step that ends it leaves it
/// closed.
pub proof fn lemma_handshake_ends_closed(state: HandshakeView, event: EventView)
    ensures
        state.step(event).1 is Finished ==> state.step(event).0.stage == Stage::Closed,
        state.step(event).1 matches StepView::Finished(Ok(_)) ==> state.stage
            == Stage::FlashUniqueId,
{
}

/// A handshake in progress.
#[derive(Debug)]
pub struct Handshake {
    stage: Stage,
    exchange: Exchange,
    programmer: Vec<u8>,
    flash_id: Vec<u8>,
}

impl View for Handshake {
    type V = HandshakeView;

    closed spec fn view(&self) -> HandshakeView {
        HandshakeView {
            stage: self.stage,
            exchange: self.exchange@,
            programmer: self.programmer@,
            flash_id: self.flash_id@,
        }
    }
}

impl Handshake {
    /// The exchange in progress is well-formed.
    pub closed spec fn wf(&self) -> bool {
        self.exchange.wf()
    }

    fn ask(&mut self, stage: Stage, request: &BesMessage, reply: MessageTypes) -> (r: Step<
        FlashIdentity,
    >)
        ensures
            final(self).wf(),
            (final(self)@, r@) == old(self)@.ask(stage, request@, reply),
    {
        let (exchange, action) = Exchange::begin(request, reply);
        self.stage = stage;
        self.exchange = exchange;
        Step::Next(action)
    }

    fn fail(&mut self, error: BESLinkError) -> (r: Step<FlashIdentity>)
        requires
            old(self).wf(),
        ensures
            final(self).wf(),
            (final(self)@, r@) == old(self)@.fail(error@),
    {
        self.stage = Stage::Closed;
        Step::Finished(Err(error))
    }

    fn after_reply(&mut self, reply: BesMessage) -> (r: Step<FlashIdentity>)
        requires
            old(self).wf(),
        ensures
            final(self).wf(),
            (final(self)@, r@) == old(self)@.after_reply(reply@),
    {
        match self.stage {
            Stage::StayResident => {
                if reply.payload.len() >= 4 && reply.payload[2] == 0x02 && reply.payload[3]
                    == 0x00 {
                    self.ask(
                        Stage::Preamble,
                        &get_programmer_preamble_message(),
                        MessageTypes::StartProgrammer,
                    )
                } else {
                    self.stage = Stage::StayPause;
                    Step::Next(Action::Pause(STAY_RESIDENT_RETRY_MILLIS))
                }
            },
            Stage::Preamble => {
                let mut image: Vec<u8> = Vec::new();
                extend_bytes(&mut image, self.programmer.as_slice());
                self.stage = Stage::LoadImage;
                Step::Next(Action::Send(image))
            },
            Stage::StartProgrammer => self.ask(
                Stage::FlashId,
                &get_flash_id_query(),
                MessageTypes::FlashCommand,
            ),
            Stage::FlashId => {
                self.flash_id = reply.payload;
                self.ask(
                    Stage::FlashUniqueId,
                    &get_flash_unique_id_query(),
                    MessageTypes::FlashCommand,
                )
            },
            Stage::FlashUniqueId => {
                let mut flash_id: Vec<u8> = Vec::new();
                extend_bytes(&mut flash_id, self.flash_id.as_slice());
                self.stage = Stage::Closed;
                Step::Finished(Ok(FlashIdentity { flash_id, flash_unique_id: reply.payload }))
            },
            _ => self.fail(BESLinkError::InvalidArgs),
        }
    }

    /// Takes the outcome of the last action and says how the handshake goes
    /// on. It ends with the identity of the flash chip, or with the first
    /// error of any stage.
    pub fn step(&mut self, event: Event) -> (r: Step<FlashIdentity>)
        requires
            old(self).wf(),
        ensures
            final(self).wf(),
            (final(self)@, r@) == old(self)@.step(event@),
    {
        match self.stage {
            Stage::StayPause => match event {
                Event::Done => self.ask(
                    Stage::StayResident,
                    &get_stay_in_programmer_message(),
                    MessageTypes::Sync,
                ),
                _ => self.fail(BESLinkError::InvalidArgs),
            },
            Stage::LoadImage => match event {
                Event::Done => self.ask(
                    Stage::StartProgrammer,
                    &get_programmer_start_message(),
                    MessageTypes::ProgrammerInit,
                ),
                Event::Failed(e) => self.fail(BESLinkError::IOError { e }),
                _ => self.fail(BESLinkError::InvalidArgs),
            },
            Stage::Closed => self.fail(BESLinkError::InvalidArgs),
            _ => match self.exchange.step(event) {
                Step::Next(action) => Step::Next(action),
                Step::Finished(Err(error)) => self.fail(error),
                Step::Finished(Ok(reply)) => self.after_reply(reply),
            },
        }
    }
}

/// Begins the handshake that loads and starts `programmer`. The action to
/// begin with is the write of the "stay in bootloader" command.
pub fn helper_sync_and_load_programmer(programmer: Vec<u8>) -> (r: (Handshake, Action))
    ensures
        r.0.wf(),
        (r.0@, r.1@) == HandshakeView::begin(programmer@),
{
    let (exchange, action) = Exchange::begin(&get_stay_in_programmer_message(), MessageTypes::Sync);
    (Handshake { stage: Stage::StayResident, exchange, programmer, flash_id: Vec::new() }, action)
}

} // verus!
