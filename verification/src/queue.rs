use vstd::prelude::*;
use std::sync::mpsc::SyncSender;
use crate::error::{is_queue_closed_error, is_shut_down_error, Error};

verus! {

/// The sending half of the bounded channel to the background worker.
#[verifier::external_type_specification]
#[verifier::external_body]
#[verifier::reject_recursive_types(T)]
pub struct ExSyncSender<T>(SyncSender<T>);

/// Hands `item` to the worker through `SyncSender::send`, waiting while the
/// channel is full; tells whether the receiving half took it. Whether it does
/// depends on the other thread, so nothing is stated of the result.
#[verifier::external_body]
fn send_to_worker<T>(sender: &SyncSender<T>, item: T) -> (accepted: bool) {
    sender.send(item).is_ok()
}

/// The capture side of a client: it queues events for the background worker
/// until it is closed.
#[verifier::reject_recursive_types(E)]
pub struct EventQueue<E> {
    sender: Option<SyncSender<E>>,
}

impl<E> EventQueue<E> {
    /// The queue no longer takes events: it has been shut down.
    pub closed spec fn is_shut_down(&self) -> bool {
        self.sender is None
    }

    /// A queue that hands events to the receiving half of `sender`'s channel.
    pub fn new(sender: SyncSender<E>) -> (q: Self)
        ensures
            !q.is_shut_down(),
    {
        EventQueue { sender: Some(sender) }
    }

    /// Whether the queue has been shut down.
    pub fn is_closed(&self) -> (r: bool)
        ensures
            r == self.is_shut_down(),
    {
        self.sender.is_none()
    }

    /// Shuts the queue down: the worker sees the channel disconnect once every
    /// event already queued has been received.
    pub fn close(&mut self)
        ensures
            final(self).is_shut_down(),
    {
        self.sender = None;
    }

    /// Queues `event` for the worker. A queue that was shut down refuses it
    /// with the shut-down error; an open one succeeds, or reports that the
    /// worker no longer takes events.
    pub fn capture(&self, event: E) -> (r: Result<(), Error>)
        ensures
            self.is_shut_down() ==> (r matches Err(e) && is_shut_down_error(e)),
            !self.is_shut_down() ==> (r is Ok || (r matches Err(e) && is_queue_closed_error(e))),
    {
        match &self.sender {
            None => Err(Error::shut_down()),
            Some(sender) => {
                if send_to_worker(sender, event) {
                    Ok(())
                } else {
                    Err(Error::queue_closed())
                }
            },
        }
    }

    /// Queues `events` one after the other, in order, and stops at the first
    /// that is refused, reporting its error. No events means success, even on
    /// a queue that was shut down.
    pub fn capture_batch(&self, events: Vec<E>) -> (r: Result<(), Error>)
        ensures
            events@.len() == 0 ==> r is Ok,
            events@.len() > 0 && self.is_shut_down() ==> (r matches Err(e) && is_shut_down_error(e)),
            !self.is_shut_down() ==> (r is Ok || (r matches Err(e) && is_queue_closed_error(e))),
    {
        for event in it: events.into_iter()
            invariant
                it.seq().len() == events@.len(),
                self.is_shut_down() ==> it.index() == 0,
        {
            match self.capture(event) {
                Ok(()) => {},
                Err(e) => {
                    return Err(e);
                },
            }
        }
        Ok(())
    }
}

} // verus!
