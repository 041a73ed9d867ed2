//! The sync engine: reading frames until one of a wanted type arrives.
//!
//! Noise before a frame, frames of other types and frames with a wrong
//! checksum are passed over in silence. No count of them ends the wait: the
//! engine goes on for as long as the transport reports data or timeouts, and
//! ends with the first failure of the transport. Whoever drives the engine
//! owns the overall timeout.

use crate::errors::{BESLinkError, ErrorView};
use crate::message::{
    checksum_holds, type_of_code, BesMessage, MessageTypes, MessageView, BES_SYNC,
};
use crate::packet::{
    accumulate, is_complete, is_frame, is_partial_frame, resolved_length, verdict, PacketReader,
};
use crate::transport::{Action, ActionView, Event, EventView, Step, StepView};
use vstd::prelude::*;

verus! {

/// The state of a wait: the type that is wanted and the bytes of the frame
/// that is being assembled.
pub struct SyncView {
    pub wanted: MessageTypes,
    pub partial: Seq<u8>,
}

/// The read that a waiting engine asks for: one byte at a time.
pub open spec fn next_byte() -> StepView<MessageView> {
    StepView::Next(ActionView::Receive(1))
}

impl SyncView {
    /// The state in which a wait begins and in which it ends.
    pub open spec fn fresh(self) -> SyncView {
        SyncView { partial: Seq::empty(), ..self }
    }

    /// The transition on one byte of the stream.
    pub open spec fn on_byte(self, byte: u8) -> (SyncView, StepView<MessageView>) {
        let grown = accumulate(self.partial, byte);
        if !is_complete(grown) {
            (SyncView { partial: grown, ..self }, next_byte())
        } else {
            match verdict(grown) {
                Ok(message) => if message.type1 == self.wanted {
                    (self.fresh(), StepView::Finished(Ok(message)))
                } else {
                    (self.fresh(), next_byte())
                },
                Err(_) => (self.fresh(), next_byte()),
            }
        }
    }

    /// The transition on one event of the transport.
    ///
    /// A timeout and an empty read mean "not yet". A read of more than the
    /// one byte asked for, or the completion of something that was never
    /// asked for, is a misuse of the engine.
    pub open spec fn step(self, event: EventView) -> (SyncView, StepView<MessageView>) {
        match event {
            EventView::Data(bytes) => if bytes.len() == 0 {
                (self, next_byte())
            } else if bytes.len() == 1 {
                self.on_byte(bytes[0])
            } else {
                (self.fresh(), StepView::Finished(Err(ErrorView::InvalidArgs)))
            },
            EventView::TimedOut => (self, next_byte()),
            EventView::Failed(e) => (self.fresh(), StepView::Finished(Err(ErrorView::IOError { e }))),
            EventView::Done => (self.fresh(), StepView::Finished(Err(ErrorView::InvalidArgs))),
        }
    }
}

impl SyncView {
    /// The state after the bytes of `stream` were handed in one at a time,
    /// if the wait went on after each of them; `None` if one of them ended
    /// the wait.
    pub open spec fn wait_through(self, stream: Seq<u8>) -> Option<SyncView>
        decreases stream.len(),
    {
        if stream.len() == 0 {
            Some(self)
        } else {
            match self.wait_through(stream.drop_last()) {
                Some(state) => match state.on_byte(stream.last()).1 {
                    StepView::Next(_) => Some(state.on_byte(stream.last()).0),
                    StepView::Finished(_) => None,
                },
                None => None,
            }
        }
    }
}

/// Waiting through one stream and then another is waiting through both on
/// end.
pub proof fn lemma_wait_through_both(state: SyncView, first: Seq<u8>, second: Seq<u8>)
    ensures
        state.wait_through(first + second) == match state.wait_through(first) {
            Some(between) => between.wait_through(second),
            None => None,
        },
    decreases second.len(),
{
    if second.len() == 0 {
        assert(first + second == first);
    } else {
        lemma_wait_through_both(state, first, second.drop_last());
        assert((first + second).drop_last() == first + second.drop_last());
    }
}

/// Bytes that come while no frame is being assembled are dropped, as long as
/// none of them is the sync marker.
pub proof fn lemma_noise_is_dropped(state: SyncView, noise: Seq<u8>)
    requires
        state.partial.len() == 0,
        forall|i: int| 0 <= i < noise.len() ==> noise[i] != BES_SYNC,
    ensures
        state.wait_through(noise) == Some(state),
    decreases noise.len(),
{
    if noise.len() > 0 {
        lemma_noise_is_dropped(state, noise.drop_last());
    }
}

/// While the bytes of a frame come in, the wait goes on and holds exactly
/// the bytes that came.
pub proof fn lemma_frame_is_assembled(state: SyncView, frame: Seq<u8>, count: nat)
    requires
        state.partial.len() == 0,
        is_frame(frame),
        count < frame.len(),
    ensures
        state.wait_through(frame.take(count as int)) == Some(
            SyncView { partial: frame.take(count as int), ..state },
        ),
    decreases count,
{
    if count > 0 {
        let before = frame.take(count - 1);
        let now = frame.take(count as int);
        lemma_frame_is_assembled(state, frame, (count - 1) as nat);
        assert(now.drop_last() == before);
        assert(accumulate(before, now.last()) == now);
        assert(!is_complete(now)) by {
            if now.len() >= 3 {
                assert(resolved_length(now) == resolved_length(frame));
            }
        }
    } else {
        assert(frame.take(0) == Seq::<u8>::empty());
        assert(state.partial == Seq::<u8>::empty());
    }
}

/// The last byte of a frame completes it: the frame that answers the wait
/// ends it, any other frame is passed over and leaves nothing behind.
pub proof fn lemma_frame_is_judged(state: SyncView, frame: Seq<u8>)
    requires
        state.partial.len() == 0,
        is_frame(frame),
    ensures
        state.wait_through(frame.drop_last()) == Some(
            SyncView { partial: frame.drop_last(), ..state },
        ),
        checksum_holds(frame) && type_of_code(frame[1]) == state.wanted ==> (SyncView {
            partial: frame.drop_last(),
            ..state
        }).on_byte(frame.last()) == (
            state.fresh(),
            StepView::<MessageView>::Finished(Ok(MessageView::decode(frame))),
        ),
        !(checksum_holds(frame) && type_of_code(frame[1]) == state.wanted) ==> state.wait_through(
            frame,
        ) == Some(state.fresh()),
{
    lemma_frame_is_assembled(state, frame, (frame.len() - 1) as nat);
    assert(frame.take(frame.len() - 1) == frame.drop_last());
    assert(accumulate(frame.drop_last(), frame.last()) == frame);
}

/// A wait finds the frame it wants behind noise and behind a frame of
/// another type, and not before that frame's last byte: up to there the wait
/// goes on, and the last byte ends it with the wanted frame, decoded.
pub proof fn lemma_sync_returns_only_the_wanted_frame(
    wanted: MessageTypes,
    noise: Seq<u8>,
    other: Seq<u8>,
    target: Seq<u8>,
)
    requires
        forall|i: int| 0 <= i < noise.len() ==> noise[i] != BES_SYNC,
        is_frame(other),
        type_of_code(other[1]) != wanted || !checksum_holds(other),
        is_frame(target),
        checksum_holds(target),
        type_of_code(target[1]) == wanted,
    ensures
        ({
            let begun = SyncView { wanted, partial: Seq::empty() };
            let waiting = SyncView { wanted, partial: target.drop_last() };
            &&& begun.wait_through(noise + other + target.drop_last()) == Some(waiting)
            &&& waiting.step(EventView::Data(seq![target.last()])) == (
                begun,
                StepView::<MessageView>::Finished(Ok(MessageView::decode(target))),
            )
        }),
{
    let begun = SyncView { wanted, partial: Seq::empty() };
    lemma_noise_is_dropped(begun, noise);
    lemma_frame_is_judged(begun, other);
    lemma_frame_is_judged(begun, target);
    lemma_wait_through_both(begun, noise, other);
    lemma_wait_through_both(begun, noise + other, target.drop_last());
    assert(begun.fresh() == begun);
}

/// A wait for a message of one type.
#[derive(Debug)]
pub struct SyncEngine {
    wanted: MessageTypes,
    reader: PacketReader,
}

impl View for SyncEngine {
    type V = SyncView;

    closed spec fn view(&self) -> SyncView {
        SyncView { wanted: self.wanted, partial: self.reader@ }
    }
}

impl SyncEngine {
    /// The engine holds nothing or an incomplete frame.
    pub open spec fn wf(&self) -> bool {
        is_partial_frame(self@.partial)
    }

    /// Takes the outcome of the last read and says how the wait goes on.
    pub fn step(&mut self, event: Event) -> (r: Step<BesMessage>)
        requires
            old(self).wf(),
        ensures
            final(self).wf(),
            (final(self)@, r@) == old(self)@.step(event@),
    {
        match event {
            Event::Data(bytes) => {
                if bytes.len() == 0 {
                    Step::Next(Action::Receive(1))
                } else if bytes.len() == 1 {
                    match self.reader.push_byte(bytes[0]) {
                        None => Step::Next(Action::Receive(1)),
                        Some(Ok(message)) => {
                            if message.type1 == self.wanted {
                                Step::Finished(Ok(message))
                            } else {
                                Step::Next(Action::Receive(1))
                            }
                        },
                        Some(Err(_)) => Step::Next(Action::Receive(1)),
                    }
                } else {
                    self.reader.reset();
                    Step::Finished(Err(BESLinkError::InvalidArgs))
                }
            },
            Event::TimedOut => Step::Next(Action::Receive(1)),
            Event::Failed(e) => {
                self.reader.reset();
                Step::Finished(Err(BESLinkError::IOError { e }))
            },
            Event::Done => {
                self.reader.reset();
                Step::Finished(Err(BESLinkError::InvalidArgs))
            },
        }
    }
}

/// Begins a wait for a message of type `sync_type`. The action to begin with
/// is the read of one byte.
pub fn sync(sync_type: MessageTypes) -> (r: (SyncEngine, Action))
    ensures
        r.0.wf(),
        r.0@ == (SyncView { wanted: sync_type, partial: Seq::empty() }),
        r.1@ == ActionView::Receive(1),
{
    (SyncEngine { wanted: sync_type, reader: PacketReader::new() }, Action::Receive(1))
}

} // verus!
