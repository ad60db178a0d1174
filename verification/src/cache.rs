//! The cache as the handler sees it over many requests: a map from keys to
//! records, read before a request and written after it. An entry stands
//! for the record it was written from. Expiry is the store's own business;
//! here an entry is simply there or not.

use vstd::prelude::*;
use crate::date::is_date_shape;
use crate::handler::{response_of, write_of};
use crate::key::cache_key_of;
use crate::upstream::{error_message, fetch_outcome};

verus! {

/// What a read of `key` gives.
pub open spec fn entry_at<R>(cache: Map<Seq<char>, R>, key: Seq<char>) -> Option<R> {
    if cache.contains_key(key) {
        Some(cache[key])
    } else {
        None
    }
}

/// The response to a request for `(number, date)` made against `cache`.
pub open spec fn served<R>(
    cache: Map<Seq<char>, R>,
    number: Seq<char>,
    date: Seq<char>,
    sent: Option<u16>,
    body: Option<Seq<R>>,
) -> Result<Seq<R>, Seq<char>> {
    response_of(date, entry_at(cache, cache_key_of(number, date)), sent, body)
}

/// The cache after a request for `(number, date)` made against `cache`.
pub open spec fn cache_after<R>(
    cache: Map<Seq<char>, R>,
    number: Seq<char>,
    date: Seq<char>,
    sent: Option<u16>,
    body: Option<Seq<R>>,
) -> Map<Seq<char>, R> {
    match write_of(number, date, entry_at(cache, cache_key_of(number, date)), sent, body) {
        Some(entry) => cache.insert(entry.0, entry.1),
        None => cache,
    }
}

/// The cache after the same request was made once for each of `answers`,
/// in order; an answer is the provider's status and body for that round.
pub open spec fn cache_after_all<R>(
    cache: Map<Seq<char>, R>,
    number: Seq<char>,
    date: Seq<char>,
    answers: Seq<(Option<u16>, Option<Seq<R>>)>,
) -> Map<Seq<char>, R>
    decreases answers.len(),
{
    if answers.len() == 0 {
        cache
    } else {
        cache_after(
            cache_after_all(cache, number, date, answers.drop_last()),
            number,
            date,
            answers.last().0,
            answers.last().1,
        )
    }
}

/// A hit is answered with the cached record alone, whatever the provider
/// would say, and leaves the cache as it was.
pub proof fn lemma_hit_serves_entry<R>(
    cache: Map<Seq<char>, R>,
    number: Seq<char>,
    date: Seq<char>,
    sent: Option<u16>,
    body: Option<Seq<R>>,
)
    requires
        is_date_shape(date),
        cache.contains_key(cache_key_of(number, date)),
    ensures
        served(cache, number, date, sent, body) == Ok::<Seq<R>, Seq<char>>(
            seq![cache[cache_key_of(number, date)]],
        ),
        cache_after(cache, number, date, sent, body) == cache,
{
}

/// However often a request that hits is repeated, and whatever the provider
/// would answer each time, the cache stays as it was and the next response
/// is the same one record.
pub proof fn lemma_hit_repeats<R>(
    cache: Map<Seq<char>, R>,
    number: Seq<char>,
    date: Seq<char>,
    answers: Seq<(Option<u16>, Option<Seq<R>>)>,
    sent: Option<u16>,
    body: Option<Seq<R>>,
)
    requires
        is_date_shape(date),
        cache.contains_key(cache_key_of(number, date)),
    ensures
        cache_after_all(cache, number, date, answers) == cache,
        served(cache_after_all(cache, number, date, answers), number, date, sent, body) == served(
            cache,
            number,
            date,
            sent,
            body,
        ),
    decreases answers.len(),
{
    if answers.len() > 0 {
        lemma_hit_repeats(cache, number, date, answers.drop_last(), sent, body);
        lemma_hit_serves_entry(cache, number, date, answers.last().0, answers.last().1);
    }
}

/// A miss that the provider answers with a batch is answered with the whole
/// batch and leaves its first record in the cache; the same request made
/// again is a hit on that record alone.
pub proof fn lemma_miss_fills_cache<R>(
    cache: Map<Seq<char>, R>,
    number: Seq<char>,
    date: Seq<char>,
    sent: Option<u16>,
    body: Option<Seq<R>>,
    next_sent: Option<u16>,
    next_body: Option<Seq<R>>,
)
    requires
        is_date_shape(date),
        !cache.contains_key(cache_key_of(number, date)),
        fetch_outcome(sent, body) is Ok,
        fetch_outcome(sent, body)->Ok_0.len() > 0,
    ensures
        served(cache, number, date, sent, body) == Ok::<Seq<R>, Seq<char>>(
            fetch_outcome(sent, body)->Ok_0,
        ),
        cache_after(cache, number, date, sent, body) == cache.insert(
            cache_key_of(number, date),
            fetch_outcome(sent, body)->Ok_0[0],
        ),
        served(
            cache_after(cache, number, date, sent, body),
            number,
            date,
            next_sent,
            next_body,
        ) == Ok::<Seq<R>, Seq<char>>(seq![fetch_outcome(sent, body)->Ok_0[0]]),
{
}

/// A miss on which the provider fails is answered with the message of that
/// failure and writes nothing.
pub proof fn lemma_failure_writes_nothing<R>(
    cache: Map<Seq<char>, R>,
    number: Seq<char>,
    date: Seq<char>,
    sent: Option<u16>,
    body: Option<Seq<R>>,
)
    requires
        is_date_shape(date),
        !cache.contains_key(cache_key_of(number, date)),
        fetch_outcome(sent, body) is Err,
    ensures
        served(cache, number, date, sent, body) == Err::<Seq<R>, Seq<char>>(
            error_message(fetch_outcome(sent, body)->Err_0),
        ),
        cache_after(cache, number, date, sent, body) == cache,
{
}

/// The key that a request reads from the cache: the key of its pair where
/// the date is accepted, and none where it is not, since the cache is not
/// asked then.
pub open spec fn read_key_of(number: Seq<char>, date: Seq<char>) -> Option<Seq<char>> {
    if is_date_shape(date) {
        Some(cache_key_of(number, date))
    } else {
        None
    }
}

/// Whatever the cache holds and the provider answers, the one key that a
/// request reads and the one key that it writes, where it does either, is
/// the key of its own pair.
pub proof fn lemma_request_uses_its_own_key<R>(
    number: Seq<char>,
    date: Seq<char>,
    cached: Option<R>,
    sent: Option<u16>,
    body: Option<Seq<R>>,
)
    ensures
        read_key_of(number, date) matches Some(key) ==> key == cache_key_of(number, date),
        write_of(number, date, cached, sent, body) matches Some(entry) ==> (entry.0
            == cache_key_of(number, date) && read_key_of(number, date) == Some(entry.0)),
{
}

/// A request never touches the entry of another key.
pub proof fn lemma_other_keys_untouched<R>(
    cache: Map<Seq<char>, R>,
    number: Seq<char>,
    date: Seq<char>,
    sent: Option<u16>,
    body: Option<Seq<R>>,
    other: Seq<char>,
)
    requires
        other != cache_key_of(number, date),
    ensures
        entry_at(cache_after(cache, number, date, sent, body), other) == entry_at(cache, other),
{
}

} // verus!
