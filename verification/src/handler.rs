//! The cache-aside flow of one request, stage by stage.
//!
//! A request starts at [`begin`]. Each stage is a value that is used up by
//! the one answer it waits for and gives either the response or the next
//! stage, so a request reads the cache at most once, calls the provider at
//! most once and writes the cache at most once. The caller does the I/O
//! between the stages. [`flight_details`] runs all stages on answers that
//! are already at hand.

use vstd::prelude::*;
use crate::date::{is_date, is_date_shape};
use crate::flight_contract::RequestError;
use crate::key::{cache_key, cache_key_of};
use crate::upstream::{
    body_view,
    error_message,
    fetch_outcome,
    is_request_to,
    request_url_of,
    sent_error,
    sent_verdict,
    Provider,
    UpstreamError,
    UpstreamRequest,
    ENTRY_TTL_SECONDS,
};

verus! {

/// The status of a response that carries a batch.
pub const OK_STATUS: u16 = 200;

/// The status of a response that carries an error.
pub const ERROR_STATUS: u16 = 400;

/// The message for a date that has not the accepted shape.
pub open spec fn invalid_date_message() -> Seq<char> {
    "Invalid date provided"@
}

/// One write to the cache: the record at `index` of the batch that goes
/// with it is stored under `key`, replacing what was there, and expires
/// after `ttl_seconds`.
#[derive(Debug, Clone, PartialEq, Eq)]
pub struct CacheWrite {
    pub key: String,
    pub index: usize,
    pub ttl_seconds: u64,
}

/// A request with an accepted date that waits for the cache's answer.
#[derive(Debug)]
pub struct CacheLookup {
    number: String,
    date: String,
}

/// A request that missed the cache and waits for the provider's response.
#[derive(Debug)]
pub struct UpstreamFetch {
    number: String,
    date: String,
}

/// A request whose response has arrived with a status that leaves the
/// decision to the body, and that waits for the body to be read.
#[derive(Debug)]
pub struct BodyRead {
    number: String,
    date: String,
}

/// What follows the cache's answer.
#[derive(Debug)]
pub enum LookupStep<R> {
    /// A hit: respond with this batch of one record.
    Respond(Vec<R>),
    /// A miss: ask the provider.
    Fetch(UpstreamFetch),
}

/// What follows the sending of the request.
#[derive(Debug)]
pub enum SentStep {
    /// Respond with this error.
    Respond(RequestError),
    /// Read the body as a batch of records.
    ReadBody(BodyRead),
}

/// What follows the reading of the body.
#[derive(Debug)]
pub enum BodyStep<R> {
    /// Respond with this error.
    Respond(RequestError),
    /// Perform the write, then respond with the whole batch.
    Store(CacheWrite, Vec<R>),
}

/// Starts a request: a date of the accepted shape leads to the cache, any
/// other date to the error for an invalid date.
pub fn begin(number: &str, date: &str) -> (started: Result<CacheLookup, RequestError>)
    ensures
        (match started {
            Ok(lookup) => is_date_shape(date@) && lookup.flight_number() == number@
                && lookup.flight_date() == date@,
            Err(error) => !is_date_shape(date@) && error.message@ == invalid_date_message(),
        }),
{
    if is_date(date) {
        Ok(CacheLookup { number: String::from_str(number), date: String::from_str(date) })
    } else {
        Err(RequestError::new("Invalid date provided"))
    }
}

impl CacheLookup {
    #[verifier::type_invariant]
    spec fn accepted(self) -> bool {
        is_date_shape(self.date@)
    }

    /// The flight number of the request.
    pub closed spec fn flight_number(self) -> Seq<char> {
        self.number@
    }

    /// The date of the request.
    pub closed spec fn flight_date(self) -> Seq<char> {
        self.date@
    }

    /// The key to read from the cache. A request that got this far has a
    /// date of the accepted shape.
    pub fn key(&self) -> (key: String)
        ensures
            key@ == cache_key_of(self.flight_number(), self.flight_date()),
            is_date_shape(self.flight_date()),
    {
        proof {
            use_type_invariant(self);
        }
        cache_key(self.number.as_str(), self.date.as_str())
    }

    /// Takes the cache's answer: `entry` is the record stored under the
    /// key, or `None` where nothing readable is stored. A hit is answered
    /// with that one record and the provider is not asked.
    pub fn on_reply<R>(self, entry: Option<R>) -> (step: LookupStep<R>)
        ensures
            (match entry {
                Some(record) => step matches LookupStep::Respond(batch) && batch@ == seq![record],
                None => step matches LookupStep::Fetch(fetch) && fetch.flight_number()
                    == self.flight_number() && fetch.flight_date() == self.flight_date(),
            }),
    {
        proof {
            use_type_invariant(&self);
        }
        match entry {
            Some(record) => {
                let mut batch: Vec<R> = Vec::new();
                batch.push(record);
                LookupStep::Respond(batch)
            },
            None => LookupStep::Fetch(UpstreamFetch { number: self.number, date: self.date }),
        }
    }
}

impl UpstreamFetch {
    #[verifier::type_invariant]
    spec fn accepted(self) -> bool {
        is_date_shape(self.date@)
    }

    /// The flight number of the request.
    pub closed spec fn flight_number(self) -> Seq<char> {
        self.number@
    }

    /// The date of the request.
    pub closed spec fn flight_date(self) -> Seq<char> {
        self.date@
    }

    /// The flight number to ask the provider for.
    pub fn number(&self) -> (number: &str)
        ensures
            number@ == self.flight_number(),
    {
        self.number.as_str()
    }

    /// The date to ask the provider for, which has the accepted shape.
    pub fn date(&self) -> (date: &str)
        ensures
            date@ == self.flight_date(),
            is_date_shape(date@),
    {
        proof {
            use_type_invariant(self);
        }
        self.date.as_str()
    }

    /// The one request that this miss sends to `provider`: the lookup of
    /// the request's own flight number and date, with the provider's key
    /// and without following redirects. There is none where the address
    /// is too long or the endpoint does not lead to an absolute URL.
    pub fn request(&self, provider: &Provider) -> (request: Option<UpstreamRequest>)
        ensures
            (match request_url_of(provider.endpoint@, self.flight_number(), self.flight_date()) {
                Some(text) => request matches Some(r) && is_request_to(r, text, provider.api_key@),
                None => request is None,
            }),
    {
        provider.request_for(self.number.as_str(), self.date.as_str())
    }

    /// Takes the outcome of sending: `sent` is the status of the response,
    /// or `None` where no response came. A failure ends the request with
    /// its message and nothing is written to the cache.
    pub fn on_sent(self, sent: Option<u16>) -> (step: SentStep)
        ensures
            (match sent_error(sent) {
                Some(error) => step matches SentStep::Respond(failure) && failure.message@
                    == error_message(error),
                None => step matches SentStep::ReadBody(read) && read.flight_number()
                    == self.flight_number() && read.flight_date() == self.flight_date(),
            }),
    {
        proof {
            use_type_invariant(&self);
        }
        match sent_verdict(sent) {
            Some(error) => SentStep::Respond(RequestError { message: error.message() }),
            None => SentStep::ReadBody(BodyRead { number: self.number, date: self.date }),
        }
    }
}

impl BodyRead {
    #[verifier::type_invariant]
    spec fn accepted(self) -> bool {
        is_date_shape(self.date@)
    }

    /// The flight number of the request.
    pub closed spec fn flight_number(self) -> Seq<char> {
        self.number@
    }

    /// The date of the request.
    pub closed spec fn flight_date(self) -> Seq<char> {
        self.date@
    }

    /// Takes the body: `body` is the batch read from it, or `None` where it
    /// holds no batch. A batch is answered whole, and its first record
    /// alone is written to the cache, for a day.
    pub fn on_body<R>(self, body: Option<Vec<R>>) -> (step: BodyStep<R>)
        requires
            body matches Some(batch) ==> batch@.len() > 0,
        ensures
            (match body {
                Some(batch) => step matches BodyStep::Store(write, answer) && answer@ == batch@
                    && write.key@ == cache_key_of(self.flight_number(), self.flight_date())
                    && write.index == 0 && write.ttl_seconds == ENTRY_TTL_SECONDS,
                None => step matches BodyStep::Respond(failure) && failure.message@
                    == error_message(UpstreamError::ParseError),
            }),
    {
        match body {
            Some(batch) => {
                let write = CacheWrite {
                    key: cache_key(self.number.as_str(), self.date.as_str()),
                    index: 0,
                    ttl_seconds: ENTRY_TTL_SECONDS,
                };
                BodyStep::Store(write, batch)
            },
            None => BodyStep::Respond(
                RequestError { message: UpstreamError::ParseError.message() },
            ),
        }
    }
}

/// The answer to a request, given what the cache holds for its key and
/// what the provider would answer: `cached` is the record stored under the
/// key, `sent` the status of the provider's response (`None`: no response
/// came), `body` the batch in that response (`None`: it holds no batch).
/// The result is the batch for the client or the message of the error.
pub open spec fn response_of<R>(
    date: Seq<char>,
    cached: Option<R>,
    sent: Option<u16>,
    body: Option<Seq<R>>,
) -> Result<Seq<R>, Seq<char>> {
    if !is_date_shape(date) {
        Err(invalid_date_message())
    } else {
        match cached {
            Some(record) => Ok(seq![record]),
            None => match fetch_outcome(sent, body) {
                Ok(batch) => Ok(batch),
                Err(error) => Err(error_message(error)),
            },
        }
    }
}

/// What a request writes to the cache, as key and record: the first record
/// of the provider's batch after a miss, and nothing in every other case.
pub open spec fn write_of<R>(
    number: Seq<char>,
    date: Seq<char>,
    cached: Option<R>,
    sent: Option<u16>,
    body: Option<Seq<R>>,
) -> Option<(Seq<char>, R)> {
    if is_date_shape(date) && cached is None {
        match fetch_outcome(sent, body) {
            Ok(batch) => if batch.len() > 0 {
                Some((cache_key_of(number, date), batch[0]))
            } else {
                None
            },
            Err(_) => None,
        }
    } else {
        None
    }
}

/// Whether a request gets as far as reading the body of a response.
pub open spec fn reads_body(date: Seq<char>, hit: bool, sent: Option<u16>) -> bool {
    is_date_shape(date) && !hit && sent_error(sent) is None
}

/// A response as a value of the model: the records of the batch, or the
/// message of the error.
pub open spec fn response_view<R>(response: Result<Vec<R>, RequestError>) -> Result<
    Seq<R>,
    Seq<char>,
> {
    match response {
        Ok(batch) => Ok(batch@),
        Err(error) => Err(error.message@),
    }
}

/// The status that a response goes out with: 200 with a batch, 400 with an
/// error, whatever went wrong. The message tells the failures apart.
pub open spec fn status_of<R>(response: Result<Seq<R>, Seq<char>>) -> u16 {
    match response {
        Ok(_) => OK_STATUS,
        Err(_) => ERROR_STATUS,
    }
}

/// The status with which a response is sent to the client.
pub fn response_status<R>(response: &Result<Vec<R>, RequestError>) -> (status: u16)
    ensures
        status == status_of(response_view(*response)),
{
    match response {
        Ok(_) => OK_STATUS,
        Err(_) => ERROR_STATUS,
    }
}

/// A request that has run to its end: the response for the client, and the
/// write to perform before responding, if there is one. The write stores
/// the record at its index of the batch in the response.
#[derive(Debug, PartialEq, Eq)]
pub struct Handled<R> {
    pub response: Result<Vec<R>, RequestError>,
    pub write: Option<CacheWrite>,
}

/// Handles one request on answers that are at hand: `cached` is the record
/// that the cache holds for the request's key, `sent` and `body` are what the
/// provider answers. Answers that the flow does not reach are not looked
/// at: a hit ignores the provider.
pub fn flight_details<R>(
    number: &str,
    date: &str,
    cached: Option<R>,
    sent: Option<u16>,
    body: Option<Vec<R>>,
) -> (handled: Handled<R>)
    requires
        reads_body(date@, cached is Some, sent) ==> (body matches Some(batch) ==> batch@.len()
            > 0),
    ensures
        response_view(handled.response) == response_of(date@, cached, sent, body_view(body)),
        (match write_of(number@, date@, cached, sent, body_view(body)) {
            Some(entry) => (handled.response matches Ok(batch) && batch@[0] == entry.1) && (
            handled.write matches Some(write) && write.key@ == entry.0 && write.index == 0
                && write.ttl_seconds == ENTRY_TTL_SECONDS),
            None => handled.write is None,
        }),
{
    let lookup = match begin(number, date) {
        Ok(lookup) => lookup,
        Err(error) => {
            return Handled { response: Err(error), write: None };
        },
    };
    let fetch = match lookup.on_reply(cached) {
        LookupStep::Respond(batch) => {
            return Handled { response: Ok(batch), write: None };
        },
        LookupStep::Fetch(fetch) => fetch,
    };
    let read = match fetch.on_sent(sent) {
        SentStep::Respond(error) => {
            return Handled { response: Err(error), write: None };
        },
        SentStep::ReadBody(read) => read,
    };
    match read.on_body(body) {
        BodyStep::Respond(error) => Handled { response: Err(error), write: None },
        BodyStep::Store(write, batch) => Handled { response: Ok(batch), write: Some(write) },
    }
}

/// Whatever goes wrong, the client is given one of four messages, and a
/// response with an error goes with no write to the cache.
pub proof fn lemma_errors_are_uniform<R>(
    number: Seq<char>,
    date: Seq<char>,
    cached: Option<R>,
    sent: Option<u16>,
    body: Option<Seq<R>>,
)
    ensures
        response_of(date, cached, sent, body) is Err ==> write_of(number, date, cached, sent, body)
            is None,
        response_of(date, cached, sent, body) matches Err(message) ==> (message
            == invalid_date_message() || message == error_message(UpstreamError::NotFound)
            || message == error_message(UpstreamError::ParseError) || message == error_message(
            UpstreamError::NetworkError,
        )),
{
}

} // verus!
