//! Verified core of a PostHog client: the error type, the client options, the
//! batching decisions of the background worker and the capture side of the
//! event queue.

pub mod batching;
pub mod delivery;
pub mod error;
pub mod options;
pub mod queue;

pub use error::Error;
pub use options::{ClientOptions, ClientOptionsBuilder};
pub use queue::EventQueue;
