//! The two interceptors that stand before the upstream call, as per-request
//! state machines.
//!
//! Each request runs the rate-limit breaker and then the response cache. A
//! machine is told what came of the last store operation or upstream call and
//! answers with what to do next; whoever drives it performs that action (a
//! store command, the call to the next stage, a response) and reports back.
//! Neither machine keeps anything between requests: what must outlive a request
//! lives in the store.

use vstd::prelude::*;

use crate::cache_key::{cache_key, derive_cache_key, query_text, rate_limit_key, rate_limit_key_of};
use crate::rate_limit::{cooldown, EpochTime, GithubRateLimitError};

verus! {

pub const STATUS_BAD_REQUEST: u16 = 400;

pub const STATUS_FORBIDDEN: u16 = 403;

pub const STATUS_TOO_MANY_REQUESTS: u16 = 429;

pub const STATUS_INTERNAL_SERVER_ERROR: u16 = 500;

/// A store command that failed, whether for the connection or the command.
#[derive(Debug, Clone, Copy, PartialEq, Eq)]
pub struct StoreError;

/// Whether a status is a client or a server error.
pub open spec fn is_error_status(status: u16) -> bool {
    400 <= status <= 599
}

/// Whether the upstream may be reporting a rate limit with this status.
pub open spec fn may_signal_rate_limit(status: u16) -> bool {
    status == STATUS_TOO_MANY_REQUESTS || status == STATUS_FORBIDDEN
}

// ---------------------------------------------------------------------------
// Rate-limit breaker
// ---------------------------------------------------------------------------

#[derive(Debug, Clone, Copy, PartialEq, Eq)]
pub enum BreakerPhase {
    CheckingSentinel,
    CallingNext,
    SettingSentinel,
    Done,
}

#[derive(Debug, Clone, Copy, PartialEq, Eq)]
pub enum BreakerEvent {
    /// Whether the sentinel key of the route exists.
    SentinelChecked(Result<bool, StoreError>),
    /// The next stage answered with this status and these rate-limit signals,
    /// read at time `now`.
    NextReplied { status: u16, signal: GithubRateLimitError, now: EpochTime },
    /// What came of storing the sentinel key.
    SentinelSet(Result<(), StoreError>),
}

#[derive(Debug, Clone, Copy, PartialEq, Eq)]
pub enum BreakerAction {
    /// Ask the store whether the sentinel key exists.
    CheckSentinel,
    /// Hand the request to the next stage.
    CallNext,
    /// Store the sentinel key with this time to live, in seconds.
    SetSentinel { ttl: i64 },
    /// Answer "too many requests" without calling the next stage.
    RejectLimited,
    /// Answer "too many requests" with the headers of the next stage's reply.
    ReportLimited,
    /// Return the next stage's reply unchanged.
    PassThrough,
    /// Answer with an internal error.
    InternalError,
}

/// The breaker's transitions: the phase it moves to and what it asks for.
pub open spec fn breaker_step(phase: BreakerPhase, event: BreakerEvent) -> (BreakerPhase, BreakerAction) {
    match phase {
        BreakerPhase::CheckingSentinel => match event {
            BreakerEvent::SentinelChecked(Ok(true)) => (BreakerPhase::Done, BreakerAction::RejectLimited),
            BreakerEvent::SentinelChecked(Ok(false)) => (BreakerPhase::CallingNext, BreakerAction::CallNext),
            _ => (BreakerPhase::Done, BreakerAction::InternalError),
        },
        BreakerPhase::CallingNext => match event {
            BreakerEvent::NextReplied { status, signal, now } => if !may_signal_rate_limit(status) {
                (BreakerPhase::Done, BreakerAction::PassThrough)
            } else if cooldown(signal, now) > 0 {
                (BreakerPhase::SettingSentinel, BreakerAction::SetSentinel { ttl: cooldown(signal, now) as i64 })
            } else {
                (BreakerPhase::Done, BreakerAction::PassThrough)
            },
            _ => (BreakerPhase::Done, BreakerAction::InternalError),
        },
        BreakerPhase::SettingSentinel => match event {
            BreakerEvent::SentinelSet(Ok(())) => (BreakerPhase::Done, BreakerAction::ReportLimited),
            _ => (BreakerPhase::Done, BreakerAction::InternalError),
        },
        BreakerPhase::Done => (BreakerPhase::Done, BreakerAction::InternalError),
    }
}

/// What a reply's event needs to be read: a time within the range of dates.
pub open spec fn breaker_event_wf(event: BreakerEvent) -> bool {
    match event {
        BreakerEvent::NextReplied { now, .. } => now.wf(),
        _ => true,
    }
}

/// The rate-limit breaker of one request.
#[derive(Debug)]
pub struct RateLimitBreaker {
    /// The sentinel key of the request's route.
    pub key: String,
    pub phase: BreakerPhase,
}

impl RateLimitBreaker {
    /// The breaker of a request to `path`, and its first action: look for the
    /// route's sentinel key.
    pub fn begin(path: &str) -> (r: (RateLimitBreaker, BreakerAction))
        ensures
            r.0.key@ == rate_limit_key_of(path@),
            r.0.phase == BreakerPhase::CheckingSentinel,
            r.1 == BreakerAction::CheckSentinel,
    {
        (RateLimitBreaker { key: rate_limit_key(path), phase: BreakerPhase::CheckingSentinel }, BreakerAction::CheckSentinel)
    }

    /// Takes in what came of the last action and answers with the next one.
    pub fn step(&mut self, event: BreakerEvent) -> (r: BreakerAction)
        requires
            breaker_event_wf(event),
        ensures
            final(self).key == old(self).key,
            (final(self).phase, r) == breaker_step(old(self).phase, event),
    {
        let (phase, action) = match self.phase {
            BreakerPhase::CheckingSentinel => match event {
                BreakerEvent::SentinelChecked(Ok(true)) => (BreakerPhase::Done, BreakerAction::RejectLimited),
                BreakerEvent::SentinelChecked(Ok(false)) => (BreakerPhase::CallingNext, BreakerAction::CallNext),
                _ => (BreakerPhase::Done, BreakerAction::InternalError),
            },
            BreakerPhase::CallingNext => match event {
                BreakerEvent::NextReplied { status, signal, now } => {
                    if status != STATUS_TOO_MANY_REQUESTS && status != STATUS_FORBIDDEN {
                        (BreakerPhase::Done, BreakerAction::PassThrough)
                    } else {
                        let ttl = signal.get_expiration_time(now);
                        if ttl > 0 {
                            (BreakerPhase::SettingSentinel, BreakerAction::SetSentinel { ttl })
                        } else {
                            (BreakerPhase::Done, BreakerAction::PassThrough)
                        }
                    }
                },
                _ => (BreakerPhase::Done, BreakerAction::InternalError),
            },
            BreakerPhase::SettingSentinel => match event {
                BreakerEvent::SentinelSet(Ok(())) => (BreakerPhase::Done, BreakerAction::ReportLimited),
                _ => (BreakerPhase::Done, BreakerAction::InternalError),
            },
            BreakerPhase::Done => (BreakerPhase::Done, BreakerAction::InternalError),
        };
        self.phase = phase;
        action
    }
}

// ---------------------------------------------------------------------------
// Response cache
// ---------------------------------------------------------------------------

/// How a route's responses are cached.
#[derive(Debug, Clone, Copy, PartialEq, Eq)]
pub struct RedisCacheOptions {
    /// The time to live of a stored response, in seconds; none keeps it until
    /// the store evicts it.
    pub expiration_time: Option<i64>,
}

/// The `max-age` to announce for a response that lives this long: only a
/// positive time to live is announced.
pub open spec fn max_age(ttl: Option<i64>) -> Option<i64> {
    match ttl {
        Some(seconds) => if seconds > 0 { Some(seconds) } else { None },
        None => None,
    }
}

fn max_age_of(ttl: Option<i64>) -> (r: Option<i64>)
    ensures
        r == max_age(ttl),
{
    match ttl {
        Some(seconds) => if seconds > 0 { Some(seconds) } else { None },
        None => None,
    }
}

#[derive(Debug, Clone, Copy, PartialEq, Eq)]
pub enum CachePhase {
    CheckingEntry,
    FetchingEntry,
    ReadingTtl,
    /// Waiting for the next stage; `store` tells whether its reply may be
    /// stored, which it may not once the store has failed.
    CallingNext { store: bool },
    Decoding,
    Storing,
    Done,
}

#[derive(Debug)]
pub enum CacheEvent {
    /// Whether the key exists in the store.
    EntryChecked(Result<bool, StoreError>),
    /// The bytes stored under the key.
    EntryFetched(Result<Vec<u8>, StoreError>),
    /// The stored value's remaining time to live, in seconds.
    TtlRead(Result<i64, StoreError>),
    /// The next stage answered with this status and these body bytes.
    NextReplied { status: u16, body: Vec<u8> },
    /// Whether the reply's body reads as the route's payload.
    BodyDecoded(bool),
    /// What came of storing the body.
    EntryStored(Result<(), StoreError>),
}

#[derive(Debug, Clone, Copy, PartialEq, Eq)]
pub enum CacheAction {
    /// Answer "bad request": the request identifies nothing to cache.
    RejectBadRequest,
    /// Ask the store whether the key exists.
    CheckEntry,
    /// Read the value stored under the key.
    FetchEntry,
    /// Read the remaining time to live of the key.
    ReadTtl,
    /// Hand the request to the next stage.
    CallNext,
    /// Check that the cache's `body` reads as the route's payload.
    DecodeBody,
    /// Store the cache's `body` under the key, with this time to live.
    StoreEntry { ttl: Option<i64> },
    /// Answer 200 with the cache's `body`, the stored bytes, announcing
    /// `max_age` where given.
    ServeStored { max_age: Option<i64> },
    /// Answer with the next stage's reply, its body being the cache's `body`,
    /// announcing `max_age` where given.
    ServeFresh { max_age: Option<i64> },
    /// Return the next stage's reply unchanged.
    PassThrough,
    /// Answer with an internal error.
    InternalError,
}

/// The cache's transitions under `options`: the phase it moves to and what it
/// asks for. The store failing is never fatal: before the next stage is
/// called the reply is then not stored, and after it the reply is served
/// unannounced.
pub open spec fn cache_step(options: RedisCacheOptions, phase: CachePhase, event: CacheEvent) -> (CachePhase, CacheAction) {
    match phase {
        CachePhase::CheckingEntry => match event {
            CacheEvent::EntryChecked(Ok(true)) => (CachePhase::FetchingEntry, CacheAction::FetchEntry),
            CacheEvent::EntryChecked(Ok(false)) => (CachePhase::CallingNext { store: true }, CacheAction::CallNext),
            CacheEvent::EntryChecked(Err(_)) => (CachePhase::CallingNext { store: false }, CacheAction::CallNext),
            _ => (CachePhase::Done, CacheAction::InternalError),
        },
        CachePhase::FetchingEntry => match event {
            CacheEvent::EntryFetched(Ok(_)) => (CachePhase::ReadingTtl, CacheAction::ReadTtl),
            _ => (CachePhase::Done, CacheAction::InternalError),
        },
        CachePhase::ReadingTtl => match event {
            CacheEvent::TtlRead(Ok(ttl)) => (CachePhase::Done, CacheAction::ServeStored { max_age: max_age(Some(ttl)) }),
            CacheEvent::TtlRead(Err(_)) => (CachePhase::Done, CacheAction::ServeStored { max_age: None }),
            _ => (CachePhase::Done, CacheAction::InternalError),
        },
        CachePhase::CallingNext { store } => match event {
            CacheEvent::NextReplied { status, .. } => if !store || is_error_status(status) {
                (CachePhase::Done, CacheAction::PassThrough)
            } else {
                (CachePhase::Decoding, CacheAction::DecodeBody)
            },
            _ => (CachePhase::Done, CacheAction::InternalError),
        },
        CachePhase::Decoding => match event {
            CacheEvent::BodyDecoded(true) => (CachePhase::Storing, CacheAction::StoreEntry { ttl: options.expiration_time }),
            _ => (CachePhase::Done, CacheAction::InternalError),
        },
        CachePhase::Storing => match event {
            CacheEvent::EntryStored(Ok(())) => (CachePhase::Done, CacheAction::ServeFresh { max_age: max_age(options.expiration_time) }),
            CacheEvent::EntryStored(Err(_)) => (CachePhase::Done, CacheAction::ServeFresh { max_age: None }),
            _ => (CachePhase::Done, CacheAction::InternalError),
        },
        CachePhase::Done => (CachePhase::Done, CacheAction::InternalError),
    }
}

/// The bytes the cache holds after `event`: those the store gave on a hit,
/// those the next stage sent when it answers, and otherwise those it held.
pub open spec fn cache_body(phase: CachePhase, body: Seq<u8>, event: CacheEvent) -> Seq<u8> {
    match phase {
        CachePhase::FetchingEntry => match event {
            CacheEvent::EntryFetched(Ok(bytes)) => bytes@,
            _ => body,
        },
        CachePhase::CallingNext { .. } => match event {
            CacheEvent::NextReplied { body: bytes, .. } => bytes@,
            _ => body,
        },
        _ => body,
    }
}

/// A successful reply's bytes are the ones stored and the ones served fresh,
/// whether or not the store takes them; a hit serves the very bytes that the
/// store gave back. So where the store returns what it was given, a hit
/// answers byte for byte as the first reply did.
pub proof fn lemma_served_bytes_are_stored_bytes(
    options: RedisCacheOptions,
    held: Seq<u8>,
    status: u16,
    bytes: Vec<u8>,
    stored: Result<(), StoreError>,
    ttl: Result<i64, StoreError>,
)
    requires
        !is_error_status(status),
    ensures
        ({
            let reply = CacheEvent::NextReplied { status, body: bytes };
            let (p1, a1) = cache_step(options, CachePhase::CallingNext { store: true }, reply);
            let b1 = cache_body(CachePhase::CallingNext { store: true }, held, reply);
            let (p2, a2) = cache_step(options, p1, CacheEvent::BodyDecoded(true));
            let b2 = cache_body(p1, b1, CacheEvent::BodyDecoded(true));
            let (p3, a3) = cache_step(options, p2, CacheEvent::EntryStored(stored));
            let b3 = cache_body(p2, b2, CacheEvent::EntryStored(stored));
            &&& a1 == CacheAction::DecodeBody
            &&& a2 == CacheAction::StoreEntry { ttl: options.expiration_time }
            &&& b2 == bytes@
            &&& a3 is ServeFresh
            &&& b3 == bytes@
        }),
        ({
            let fetched = CacheEvent::EntryFetched(Ok(bytes));
            let (p1, a1) = cache_step(options, CachePhase::FetchingEntry, fetched);
            let b1 = cache_body(CachePhase::FetchingEntry, held, fetched);
            let (p2, a2) = cache_step(options, p1, CacheEvent::TtlRead(ttl));
            let b2 = cache_body(p1, b1, CacheEvent::TtlRead(ttl));
            &&& a2 is ServeStored
            &&& b2 == bytes@
        }),
{
}

/// The response cache of one request.
#[derive(Debug)]
pub struct ResponseCache {
    /// The request's cache key; empty where the request has none.
    pub key: String,
    pub options: RedisCacheOptions,
    pub phase: CachePhase,
    /// The body to store or to answer with.
    pub body: Vec<u8>,
}

impl ResponseCache {
    /// The cache of a request with this path and query string, and its first
    /// action: a request without a key is rejected before the store is asked
    /// anything; any other starts by looking for its key.
    pub fn begin(path: &str, query: Option<&str>, options: RedisCacheOptions) -> (r: (ResponseCache, CacheAction))
        ensures
            r.0.options == options,
            r.0.body@.len() == 0,
            cache_key(path@, query_text(query)).len() == 0 ==> r.0.phase == CachePhase::Done
                && r.1 == CacheAction::RejectBadRequest,
            cache_key(path@, query_text(query)).len() > 0 ==> r.0.key@ == cache_key(path@, query_text(query))
                && r.0.phase == CachePhase::CheckingEntry && r.1 == CacheAction::CheckEntry,
    {
        match derive_cache_key(path, query) {
            Ok(key) => (ResponseCache { key, options, phase: CachePhase::CheckingEntry, body: Vec::new() }, CacheAction::CheckEntry),
            Err(_) => (ResponseCache { key: String::new(), options, phase: CachePhase::Done, body: Vec::new() }, CacheAction::RejectBadRequest),
        }
    }

    /// Takes in what came of the last action and answers with the next one.
    pub fn step(&mut self, event: CacheEvent) -> (r: CacheAction)
        ensures
            final(self).key == old(self).key,
            final(self).options == old(self).options,
            (final(self).phase, r) == cache_step(old(self).options, old(self).phase, event),
            final(self).body@ == cache_body(old(self).phase, old(self).body@, event),
    {
        let (phase, action) = match self.phase {
            CachePhase::CheckingEntry => match event {
                CacheEvent::EntryChecked(Ok(true)) => (CachePhase::FetchingEntry, CacheAction::FetchEntry),
                CacheEvent::EntryChecked(Ok(false)) => (CachePhase::CallingNext { store: true }, CacheAction::CallNext),
                CacheEvent::EntryChecked(Err(_)) => (CachePhase::CallingNext { store: false }, CacheAction::CallNext),
                _ => (CachePhase::Done, CacheAction::InternalError),
            },
            CachePhase::FetchingEntry => match event {
                CacheEvent::EntryFetched(Ok(bytes)) => {
                    self.body = bytes;
                    (CachePhase::ReadingTtl, CacheAction::ReadTtl)
                },
                _ => (CachePhase::Done, CacheAction::InternalError),
            },
            CachePhase::ReadingTtl => match event {
                CacheEvent::TtlRead(Ok(ttl)) => (CachePhase::Done, CacheAction::ServeStored { max_age: max_age_of(Some(ttl)) }),
                CacheEvent::TtlRead(Err(_)) => (CachePhase::Done, CacheAction::ServeStored { max_age: None }),
                _ => (CachePhase::Done, CacheAction::InternalError),
            },
            CachePhase::CallingNext { store } => match event {
                CacheEvent::NextReplied { status, body } => {
                    self.body = body;
                    if !store || (400 <= status && status <= 599) {
                        (CachePhase::Done, CacheAction::PassThrough)
                    } else {
                        (CachePhase::Decoding, CacheAction::DecodeBody)
                    }
                },
                _ => (CachePhase::Done, CacheAction::InternalError),
            },
            CachePhase::Decoding => match event {
                CacheEvent::BodyDecoded(true) => (CachePhase::Storing, CacheAction::StoreEntry { ttl: self.options.expiration_time }),
                _ => (CachePhase::Done, CacheAction::InternalError),
            },
            CachePhase::Storing => match event {
                CacheEvent::EntryStored(Ok(())) => (CachePhase::Done, CacheAction::ServeFresh { max_age: max_age_of(self.options.expiration_time) }),
                CacheEvent::EntryStored(Err(_)) => (CachePhase::Done, CacheAction::ServeFresh { max_age: None }),
                _ => (CachePhase::Done, CacheAction::InternalError),
            },
            CachePhase::Done => (CachePhase::Done, CacheAction::InternalError),
        };
        self.phase = phase;
        action
    }
}

} // verus!
