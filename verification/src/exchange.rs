//! One request and the wait for its reply.
//!
//! Most of the protocol is made of this step: a framed message goes out, and
//! the sync engine waits for a message of the type that answers it.

use crate::errors::{BESLinkError, ErrorView};
use crate::message::{BesMessage, MessageTypes, MessageView};
use crate::sync::{sync, SyncEngine, SyncView};
use crate::transport::{Action, ActionView, Event, EventView, Step, StepView};
use vstd::prelude::*;

verus! {

/// The state of an exchange.
pub enum ExchangeView {
    /// The request is being written.
    Sending { reply: MessageTypes },
    /// The request is out, the reply is awaited.
    Waiting(SyncView),
}

impl ExchangeView {
    /// The state in which the exchange with a reply of type `reply` begins.
    pub open spec fn begin(reply: MessageTypes) -> ExchangeView {
        ExchangeView::Sending { reply }
    }

    /// The transition on one event of the transport. A failed write ends the
    /// exchange; once the request is out, the sync engine decides.
    pub open spec fn step(self, event: EventView) -> (ExchangeView, StepView<MessageView>) {
        match self {
            ExchangeView::Sending { reply } => match event {
                EventView::Done => (
                    ExchangeView::Waiting(SyncView { wanted: reply, partial: Seq::empty() }),
                    StepView::Next(ActionView::Receive(1)),
                ),
                EventView::Failed(e) => (self, StepView::Finished(Err(ErrorView::IOError { e }))),
                _ => (self, StepView::Finished(Err(ErrorView::InvalidArgs))),
            },
            ExchangeView::Waiting(wait) => (
                ExchangeView::Waiting(wait.step(event).0),
                wait.step(event).1,
            ),
        }
    }
}

/// A request that was handed to the transport, and the wait for its reply.
#[derive(Debug)]
pub struct Exchange {
    sent: bool,
    engine: SyncEngine,
}

impl View for Exchange {
    type V = ExchangeView;

    closed spec fn view(&self) -> ExchangeView {
        if self.sent {
            ExchangeView::Waiting(self.engine@)
        } else {
            ExchangeView::Sending { reply: self.engine@.wanted }
        }
    }
}

impl Exchange {
    /// The wait is well-formed, and holds nothing before the request is out.
    pub closed spec fn wf(&self) -> bool {
        &&& self.engine.wf()
        &&& !self.sent ==> self.engine@.partial == Seq::<u8>::empty()
    }

    /// Begins the exchange of `request` for a reply of type `reply`. The
    /// action to begin with is the write of the request's frame.
    pub fn begin(request: &BesMessage, reply: MessageTypes) -> (r: (Exchange, Action))
        ensures
            r.0.wf(),
            r.0@ == ExchangeView::begin(reply),
            r.1@ == ActionView::Send(request@.encode()),
    {
        let (engine, _) = sync(reply);
        (Exchange { sent: false, engine }, request.send_packet())
    }

    /// Takes the outcome of the last action and says how the exchange goes
    /// on.
    pub fn step(&mut self, event: Event) -> (r: Step<BesMessage>)
        requires
            old(self).wf(),
        ensures
            final(self).wf(),
            (final(self)@, r@) == old(self)@.step(event@),
    {
        if self.sent {
            self.engine.step(event)
        } else {
            match event {
                Event::Done => {
                    self.sent = true;
                    Step::Next(Action::Receive(1))
                },
                Event::Failed(e) => Step::Finished(Err(BESLinkError::IOError { e })),
                _ => Step::Finished(Err(BESLinkError::InvalidArgs)),
            }
        }
    }
}

} // verus!
