use vstd::prelude::*;

verus! {

/// The errors that capturing or sending events can report.
#[derive(Debug)]
pub enum Error {
    /// The event could not be handed over or delivered.
    Connection(String),
    /// The events could not be encoded for sending.
    Serialization(String),
}

/// The message reported when events are captured on a client that was shut down.
pub open spec fn shut_down_message() -> Seq<char> {
    "Client has been shut down"@
}

/// The message reported when the background worker no longer takes events.
pub open spec fn queue_closed_message() -> Seq<char> {
    "Event queue closed"@
}

/// `e` is the error of a client that was shut down.
pub open spec fn is_shut_down_error(e: Error) -> bool {
    e matches Error::Connection(m) && m@ == shut_down_message()
}

/// `e` is the error of a queue whose worker has gone away.
pub open spec fn is_queue_closed_error(e: Error) -> bool {
    e matches Error::Connection(m) && m@ == queue_closed_message()
}

impl Error {
    /// The connection error of a client that was shut down.
    pub fn shut_down() -> (e: Error)
        ensures
            is_shut_down_error(e),
    {
        Error::Connection(String::from_str("Client has been shut down"))
    }

    /// The connection error of a queue whose worker has gone away.
    pub fn queue_closed() -> (e: Error)
        ensures
            is_queue_closed_error(e),
    {
        Error::Connection(String::from_str("Event queue closed"))
    }
}

} // verus!
