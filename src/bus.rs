//! The action bus: an ordered, unbounded queue of actions on top of tokio's
//! unbounded channel. The bus owns both ends of its channel and never hands a
//! sender out, so what is queued changes only through the methods below.

use vstd::prelude::*;
use tokio::sync::mpsc::{UnboundedReceiver, UnboundedSender};
use crate::action::Action;

verus! {

#[verifier::external_type_specification]
#[verifier::external_body]
#[verifier::reject_recursive_types(T)]
pub struct ExUnboundedSender<T>(UnboundedSender<T>);

#[verifier::external_type_specification]
#[verifier::external_body]
#[verifier::reject_recursive_types(T)]
pub struct ExUnboundedReceiver<T>(UnboundedReceiver<T>);

/// The actions waiting in a channel, oldest first, as its receiver sees them.
pub uninterp spec fn queued(rx: UnboundedReceiver<Action>) -> Seq<Action>;

/// Relies on `tokio::sync::mpsc::unbounded_channel`: a fresh channel holds
/// no message.
#[verifier::external_body]
fn open_channel() -> (r: (UnboundedSender<Action>, UnboundedReceiver<Action>))
    ensures
        queued(r.1) == Seq::<Action>::empty(),
{
    tokio::sync::mpsc::unbounded_channel()
}

/// Relies on `UnboundedSender::send`: the message is queued behind the
/// earlier ones; it fails only when the receiver has been closed or dropped.
/// The receiver lives in the same bus and is never closed, so the send
/// succeeds.
#[verifier::external_body]
fn send_on(bus: &mut ActionBus, action: Action) -> (sent: bool)
    ensures
        sent,
        queued(final(bus).rx) == queued(old(bus).rx).push(action),
{
    bus.tx.send(action).is_ok()
}

/// Relies on `UnboundedReceiver::try_recv`: it hands out the oldest queued
/// message, and fails only when nothing is queued.
#[verifier::external_body]
fn receive_on(bus: &mut ActionBus) -> (r: Option<Action>)
    ensures
        queued(old(bus).rx).len() == 0 ==> r is None && queued(final(bus).rx) == queued(
            old(bus).rx,
        ),
        queued(old(bus).rx).len() > 0 ==> r == Some(queued(old(bus).rx)[0]) && queued(
            final(bus).rx,
        ) == queued(old(bus).rx).drop_first(),
{
    bus.rx.try_recv().ok()
}

/// Both ends of one channel of actions.
pub struct ActionBus {
    tx: UnboundedSender<Action>,
    rx: UnboundedReceiver<Action>,
}

impl View for ActionBus {
    type V = Seq<Action>;

    closed spec fn view(&self) -> Seq<Action> {
        queued(self.rx)
    }
}

impl ActionBus {
    /// An empty bus.
    pub fn new() -> (r: ActionBus)
        ensures
            r@ == Seq::<Action>::empty(),
    {
        let (tx, rx) = open_channel();
        ActionBus { tx, rx }
    }

    /// Queues an action behind the others. The bus holds its own receiver
    /// open, so this always succeeds and returns true.
    pub fn send(&mut self, action: Action) -> (sent: bool)
        ensures
            sent,
            final(self)@ == old(self)@.push(action),
    {
        send_on(self, action)
    }

    /// Takes the oldest queued action, if any.
    pub fn try_recv(&mut self) -> (r: Option<Action>)
        ensures
            old(self)@.len() == 0 ==> r is None && final(self)@ == old(self)@,
            old(self)@.len() > 0 ==> r == Some(old(self)@[0]) && final(self)@ == old(
                self,
            )@.drop_first(),
    {
        receive_on(self)
    }
}

} // verus!
