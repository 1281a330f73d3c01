use vstd::prelude::*;
use crate::batching::{Batcher, BatcherView, Phase};

verus! {

/// The number of events a batch reaches before it is sent, unless configured.
pub const DEFAULT_FLUSH_AT: usize = 100;

/// How long a batch collects events before it is sent, unless configured.
pub const DEFAULT_FLUSH_INTERVAL_MS: u64 = 500;

/// Unless configured, the queue to the worker holds this many full batches.
pub const QUEUE_BATCHES: usize = 10;

/// How long one request may take, unless configured.
pub const DEFAULT_REQUEST_TIMEOUT_SECONDS: u64 = 30;

/// Where events are posted, unless configured.
pub open spec fn default_api_endpoint_spec() -> Seq<char> {
    "https://us.i.posthog.com/i/v0/e/"@
}

/// The endpoint used unless another is configured.
pub fn default_api_endpoint() -> (e: String)
    ensures
        e@ == default_api_endpoint_spec(),
{
    String::from_str("https://us.i.posthog.com/i/v0/e/")
}

/// How a client reaches PostHog and when it sends what it collected.
pub struct ClientOptions {
    /// The project's API key, sent with every event.
    pub api_key: String,
    /// Where batches are posted.
    pub api_endpoint: String,
    /// How long one request may take.
    pub request_timeout_seconds: u64,
    /// A batch is sent once it holds this many events.
    pub flush_at: usize,
    /// A batch is sent once it has collected for this many milliseconds.
    pub flush_interval_ms: u64,
    /// How many captured events the queue to the worker holds; capturing
    /// waits while it is full. Unless given, `QUEUE_BATCHES` times `flush_at`.
    pub max_queue_size: Option<usize>,
}

impl ClientOptions {
    /// Options for `api_key` with every other setting at its default.
    pub fn new(api_key: String) -> (o: Self)
        ensures
            o.api_key@ == api_key@,
            o.api_endpoint@ == default_api_endpoint_spec(),
            o.request_timeout_seconds == DEFAULT_REQUEST_TIMEOUT_SECONDS,
            o.flush_at == DEFAULT_FLUSH_AT,
            o.flush_interval_ms == DEFAULT_FLUSH_INTERVAL_MS,
            o.max_queue_size is None,
    {
        ClientOptions {
            api_key,
            api_endpoint: default_api_endpoint(),
            request_timeout_seconds: DEFAULT_REQUEST_TIMEOUT_SECONDS,
            flush_at: DEFAULT_FLUSH_AT,
            flush_interval_ms: DEFAULT_FLUSH_INTERVAL_MS,
            max_queue_size: None,
        }
    }

    /// Options for the API key `api_key`, every other setting at its default.
    pub fn from_api_key(api_key: &str) -> (o: Self)
        ensures
            o.api_key@ == api_key@,
            o.api_endpoint@ == default_api_endpoint_spec(),
            o.request_timeout_seconds == DEFAULT_REQUEST_TIMEOUT_SECONDS,
            o.flush_at == DEFAULT_FLUSH_AT,
            o.flush_interval_ms == DEFAULT_FLUSH_INTERVAL_MS,
            o.max_queue_size is None,
    {
        ClientOptions::new(String::from_str(api_key))
    }

    /// How many events the queue to the worker holds: `max_queue_size` where
    /// given, else `QUEUE_BATCHES` times `flush_at`, or nothing where that
    /// product does not fit in a `usize`.
    pub fn queue_capacity(&self) -> (c: Option<usize>)
        ensures
            self.max_queue_size matches Some(n) ==> c == Some(n),
            self.max_queue_size is None ==> (c matches Some(n) ==> n == self.flush_at
                * QUEUE_BATCHES),
            self.max_queue_size is None ==> (c is None <==> self.flush_at * QUEUE_BATCHES
                > usize::MAX),
    {
        match self.max_queue_size {
            Some(n) => Some(n),
            None => self.flush_at.checked_mul(QUEUE_BATCHES),
        }
    }

    /// The batching decisions these options call for, before the first cycle.
    pub fn batcher<T>(&self) -> (b: Batcher<T>)
        ensures
            b@ == (BatcherView::<T> {
                flush_at: self.flush_at as nat,
                flush_interval_ms: self.flush_interval_ms as nat,
                phase: Phase::BetweenCycles,
                batch: Seq::empty(),
                cycle_start: 0,
            }),
    {
        Batcher::new(self.flush_at, self.flush_interval_ms)
    }
}

/// Why a [`ClientOptionsBuilder`] could not build options.
#[derive(Debug)]
pub enum ClientOptionsBuilderError {
    /// No API key was given; it has no default.
    MissingApiKey,
}

/// The settings given to a [`ClientOptionsBuilder`] so far; `None` where the
/// default applies.
pub struct ClientOptionsBuilderView {
    pub api_key: Option<Seq<char>>,
    pub api_endpoint: Option<Seq<char>>,
    pub request_timeout_seconds: Option<u64>,
    pub flush_at: Option<usize>,
    pub flush_interval_ms: Option<u64>,
    pub max_queue_size: Option<usize>,
}

/// Builds [`ClientOptions`] one setting at a time; settings not given take
/// their defaults, except the API key, which must be given.
pub struct ClientOptionsBuilder {
    api_key: Option<String>,
    api_endpoint: Option<String>,
    request_timeout_seconds: Option<u64>,
    flush_at: Option<usize>,
    flush_interval_ms: Option<u64>,
    max_queue_size: Option<usize>,
}

/// The view of an optional string.
pub open spec fn opt_view(s: Option<String>) -> Option<Seq<char>> {
    match s {
        Some(s) => Some(s@),
        None => None,
    }
}

impl View for ClientOptionsBuilder {
    type V = ClientOptionsBuilderView;

    closed spec fn view(&self) -> ClientOptionsBuilderView {
        ClientOptionsBuilderView {
            api_key: opt_view(self.api_key),
            api_endpoint: opt_view(self.api_endpoint),
            request_timeout_seconds: self.request_timeout_seconds,
            flush_at: self.flush_at,
            flush_interval_ms: self.flush_interval_ms,
            max_queue_size: self.max_queue_size,
        }
    }
}

impl Default for ClientOptionsBuilder {
    /// A builder with nothing given yet.
    fn default() -> (b: Self)
        ensures
            b@ == (ClientOptionsBuilderView {
                api_key: None,
                api_endpoint: None,
                request_timeout_seconds: None,
                flush_at: None,
                flush_interval_ms: None,
                max_queue_size: None,
            }),
    {
        ClientOptionsBuilder {
            api_key: None,
            api_endpoint: None,
            request_timeout_seconds: None,
            flush_at: None,
            flush_interval_ms: None,
            max_queue_size: None,
        }
    }
}

impl ClientOptionsBuilder {
    /// Gives the API key.
    pub fn api_key(self, api_key: String) -> (b: Self)
        ensures
            b@ == (ClientOptionsBuilderView { api_key: Some(api_key@), ..self@ }),
    {
        ClientOptionsBuilder { api_key: Some(api_key), ..self }
    }

    /// Gives the endpoint that batches are posted to.
    pub fn api_endpoint(self, api_endpoint: String) -> (b: Self)
        ensures
            b@ == (ClientOptionsBuilderView { api_endpoint: Some(api_endpoint@), ..self@ }),
    {
        ClientOptionsBuilder { api_endpoint: Some(api_endpoint), ..self }
    }

    /// Gives how long one request may take.
    pub fn request_timeout_seconds(self, seconds: u64) -> (b: Self)
        ensures
            b@ == (ClientOptionsBuilderView { request_timeout_seconds: Some(seconds), ..self@ }),
    {
        ClientOptionsBuilder { request_timeout_seconds: Some(seconds), ..self }
    }

    /// Gives the number of events at which a batch is sent.
    pub fn flush_at(self, flush_at: usize) -> (b: Self)
        ensures
            b@ == (ClientOptionsBuilderView { flush_at: Some(flush_at), ..self@ }),
    {
        ClientOptionsBuilder { flush_at: Some(flush_at), ..self }
    }

    /// Gives how many milliseconds a batch collects before it is sent.
    pub fn flush_interval_ms(self, flush_interval_ms: u64) -> (b: Self)
        ensures
            b@ == (ClientOptionsBuilderView { flush_interval_ms: Some(flush_interval_ms), ..self@ }),
    {
        ClientOptionsBuilder { flush_interval_ms: Some(flush_interval_ms), ..self }
    }

    /// Gives how many events the queue to the worker holds.
    pub fn max_queue_size(self, max_queue_size: usize) -> (b: Self)
        ensures
            b@ == (ClientOptionsBuilderView { max_queue_size: Some(max_queue_size), ..self@ }),
    {
        ClientOptionsBuilder { max_queue_size: Some(max_queue_size), ..self }
    }

    /// The options given, with defaults for the rest; an error when no API key
    /// was given.
    pub fn build(self) -> (r: Result<ClientOptions, ClientOptionsBuilderError>)
        ensures
            r is Err <==> self@.api_key is None,
            r matches Ok(o) ==> {
                &&& self@.api_key == Some(o.api_key@)
                &&& o.api_endpoint@ == match self@.api_endpoint {
                    Some(e) => e,
                    None => default_api_endpoint_spec(),
                }
                &&& o.request_timeout_seconds == match self@.request_timeout_seconds {
                    Some(t) => t,
                    None => DEFAULT_REQUEST_TIMEOUT_SECONDS,
                }
                &&& o.flush_at == match self@.flush_at {
                    Some(n) => n,
                    None => DEFAULT_FLUSH_AT,
                }
                &&& o.flush_interval_ms == match self@.flush_interval_ms {
                    Some(t) => t,
                    None => DEFAULT_FLUSH_INTERVAL_MS,
                }
                &&& o.max_queue_size == self@.max_queue_size
            },
    {
        let api_key = match self.api_key {
            Some(k) => k,
            None => {
                return Err(ClientOptionsBuilderError::MissingApiKey);
            },
        };
        let api_endpoint = match self.api_endpoint {
            Some(e) => e,
            None => default_api_endpoint(),
        };
        let request_timeout_seconds = match self.request_timeout_seconds {
            Some(t) => t,
            None => DEFAULT_REQUEST_TIMEOUT_SECONDS,
        };
        let flush_at = match self.flush_at {
            Some(n) => n,
            None => DEFAULT_FLUSH_AT,
        };
        let flush_interval_ms = match self.flush_interval_ms {
            Some(t) => t,
            None => DEFAULT_FLUSH_INTERVAL_MS,
        };
        let max_queue_size = self.max_queue_size;
        Ok(
            ClientOptions {
                api_key,
                api_endpoint,
                request_timeout_seconds,
                flush_at,
                flush_interval_ms,
                max_queue_size,
            },
        )
    }
}

} // verus!
