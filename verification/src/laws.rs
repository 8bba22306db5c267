//! What holds of every decision: laws of the engine, proved from the model
//! [`decide`] and the spec functions that the steps' contracts use.

use crate::engine::decide;
use crate::engine::freshness;
use crate::engine::is_purged;
use crate::engine::keeps;
use crate::engine::refresh_entry;
use crate::engine::stale_until;
use crate::engine::verdict;
use crate::engine::Answers;
use crate::engine::Decision;
use crate::engine::Freshness;
use crate::error::CachifiedError;
use crate::error::ErrorView;
use crate::metadata::CacheEntry;
use crate::metadata::CacheMetadata;
use crate::options::CachifiedOptions;
use crate::time::duration_nanos;
use crate::time::option_nanos;
use crate::validation::CheckValue;
use std::time::Duration;
use vstd::prelude::*;

verus! {

/// An entry without a time to live is expired at no instant.
pub proof fn entry_without_ttl_never_expires(metadata: CacheMetadata, now: Duration)
    requires
        metadata.ttl is None,
    ensures
        !metadata@.expired_at(duration_nanos(now)),
{
}

/// An entry is expired at the instant of its writing plus its time to live:
/// the boundary belongs to the expired side. One nanosecond earlier it is not
/// expired.
pub proof fn entry_expires_at_the_boundary(metadata: CacheMetadata, ttl: Duration, now: Duration)
    requires
        metadata.ttl == Some(ttl),
        duration_nanos(now) == duration_nanos(metadata.created_time) + duration_nanos(ttl),
    ensures
        metadata@.expired_at(duration_nanos(now)),
        duration_nanos(now) > 0 ==> !metadata@.expired_at((duration_nanos(now) - 1) as nat),
{
}

/// Expiry is final: an entry that is expired at one instant is expired at
/// every later one.
pub proof fn expiry_is_monotone(metadata: CacheMetadata, now: Duration, later: Duration)
    requires
        metadata@.expired_at(duration_nanos(now)),
        duration_nanos(now) <= duration_nanos(later),
    ensures
        metadata@.expired_at(duration_nanos(later)),
{
}

/// A decision writes only what it produced itself: the value that the
/// producer returned and the validator accepted, as an entry created at the
/// instant of the decision, with the time to live of the options, which is
/// longer than zero. The caller gets that value.
pub proof fn decision_writes_what_it_produced<T, F, C, V: CheckValue<T>>(
    options: CachifiedOptions<T, F, C, V>,
    now: Duration,
    answers: Answers<T>,
    entry: CacheEntry<T>,
)
    requires
        decide(options, now, answers).stored == Some(entry),
    ensures
        decide(options, now, answers).produced,
        answers.produced == Ok::<T, CachifiedError>(entry.value),
        verdict(options.check_value, entry.value) is None,
        entry.metadata.created_time == now,
        entry.metadata.ttl == options.ttl,
        keeps(options.ttl),
        decide(options, now, answers).result == Ok::<T, ErrorView>(entry.value),
{
}

/// Deciding twice in immediate succession calls the producer once. A second
/// decision at the same instant, which finds the entry that the first one
/// wrote, returns the same value, and neither calls the producer nor writes.
pub proof fn repeated_decision_is_served<T, F, C, V: CheckValue<T>>(
    options: CachifiedOptions<T, F, C, V>,
    now: Duration,
    first: Answers<T>,
    second: Answers<T>,
)
    requires
        !options.force_fresh,
        decide(options, now, first).stored is Some,
        second.found == decide(options, now, first).stored,
    ensures
        decide(options, now, first).produced,
        decide(options, now, second).result == decide(options, now, first).result,
        !decide(options, now, second).produced,
        !decide(options, now, second).refreshed,
        decide(options, now, second).stored is None,
{
}

/// An entry that a decision wrote is served by every later decision up to the
/// entry's expiry, without a call of the producer.
pub proof fn stored_entry_is_served_until_expiry<T, F, C, V: CheckValue<T>>(
    options: CachifiedOptions<T, F, C, V>,
    now: Duration,
    first: Answers<T>,
    later: Duration,
    second: Answers<T>,
    entry: CacheEntry<T>,
)
    requires
        !options.force_fresh,
        decide(options, now, first).stored == Some(entry),
        second.found == Some(entry),
        !entry.metadata@.expired_at(duration_nanos(later)),
    ensures
        decide(options, later, second) == (Decision {
            result: Ok(entry.value),
            looked_up: true,
            refreshed: false,
            produced: false,
            stored: None,
            fell_back: false,
        }),
{
}

/// An expired entry inside the stale window is served as it is, with a
/// background refresh dispatched and no call of the producer by the decision
/// itself, provided the validator accepts it.
pub proof fn stale_entry_is_served_and_refreshed<T, F, C, V: CheckValue<T>>(
    options: CachifiedOptions<T, F, C, V>,
    now: Duration,
    answers: Answers<T>,
    entry: CacheEntry<T>,
    window: Duration,
)
    requires
        !options.force_fresh,
        options.stale_while_revalidate == Some(window),
        answers.found == Some(entry),
        entry.metadata@.expired_at(duration_nanos(now)),
        duration_nanos(now) < stale_until(entry.metadata@, duration_nanos(window)),
        verdict(options.check_value, entry.value) is None,
    ensures
        decide(options, now, answers) == (Decision {
            result: Ok(entry.value),
            looked_up: true,
            refreshed: true,
            produced: false,
            stored: None,
            fell_back: false,
        }),
{
}

/// What a background refresh wrote is served by a later decision: the entry
/// is created at the instant at which the refresh completed, and up to its
/// expiry a decision that finds it returns the refreshed value without a call
/// of the producer, provided the validator accepts it.
pub proof fn refreshed_entry_is_served<T, F, C, V: CheckValue<T>>(
    options: CachifiedOptions<T, F, C, V>,
    value: T,
    completed_at: Duration,
    ttl: Option<Duration>,
    later: Duration,
    answers: Answers<T>,
)
    requires
        !options.force_fresh,
        answers.found == refresh_entry(Ok::<T, CachifiedError>(value), completed_at, ttl),
        match ttl {
            Some(ttl) => duration_nanos(later) < duration_nanos(completed_at) + duration_nanos(
                ttl,
            ),
            None => true,
        },
        verdict(options.check_value, value) is None,
    ensures
        decide(options, later, answers) == (Decision {
            result: Ok(value),
            looked_up: true,
            refreshed: false,
            produced: false,
            stored: None,
            fell_back: false,
        }),
{
}

/// A softly purged entry is expired at every instant from its instant of
/// writing on. That instant is the one of the purge where the entry was
/// already expired, so such an entry is expired from the purge on.
pub proof fn purged_entry_is_expired<T>(
    entry: CacheEntry<T>,
    now: Duration,
    after: CacheEntry<T>,
    later: Duration,
)
    requires
        is_purged(entry, now, after),
        duration_nanos(later) >= after.metadata@.created,
    ensures
        after.metadata@.expired_at(duration_nanos(later)),
        after.metadata@.created <= duration_nanos(now) || after.metadata@.created
            == entry.metadata@.created,
{
}

/// Whether a decision at `now` serves an entry stale that a soft purge at the
/// same instant has just written over the entry with `metadata`.
///
/// The decision has to read the store and to allow a stale window, and the
/// validator has to accept the value. The instant must not lie before the
/// writing of the entry, or the purged entry would count as fresh. An entry
/// that was already expired starts its window at `now`, so any window longer
/// than zero will do. One that was not is as old as before, and the window
/// has to reach from its writing to beyond `now`.
pub open spec fn serves_stale_after_purge(
    metadata: CacheMetadata,
    now: Duration,
    force_fresh: bool,
    stale_while_revalidate: Option<Duration>,
    accepted: bool,
) -> bool {
    &&& !force_fresh
    &&& accepted
    &&& duration_nanos(now) >= metadata@.created
    &&& stale_while_revalidate matches Some(window) && if metadata@.expired_at(
        duration_nanos(now),
    ) {
        duration_nanos(window) > 0
    } else {
        duration_nanos(now) < metadata@.created + duration_nanos(window)
    }
}

/// A soft purge and then, at the same instant, a decision: the purged entry
/// has a time to live of zero and the value it had, and where
/// [`serves_stale_after_purge`] holds the decision serves that value stale,
/// with one background refresh dispatched, no call of the producer by the
/// decision itself, and nothing written.
pub proof fn purged_entry_is_served_stale<T, F, C, V: CheckValue<T>>(
    options: CachifiedOptions<T, F, C, V>,
    entry: CacheEntry<T>,
    after: CacheEntry<T>,
    now: Duration,
    answers: Answers<T>,
)
    requires
        is_purged(entry, now, after),
        answers.found == Some(after),
        serves_stale_after_purge(
            entry.metadata,
            now,
            options.force_fresh,
            options.stale_while_revalidate,
            verdict(options.check_value, entry.value) is None,
        ),
    ensures
        after.metadata@.ttl == Some(0nat),
        after.metadata@.expired_at(duration_nanos(now)),
        decide(options, now, answers) == (Decision {
            result: Ok(entry.value),
            looked_up: true,
            refreshed: true,
            produced: false,
            stored: None,
            fell_back: false,
        }),
{
}

/// The converse: a decision that follows a soft purge at the same instant
/// serves the purged value stale only where [`serves_stale_after_purge`]
/// holds.
pub proof fn purged_entry_is_served_stale_only_then<T, F, C, V: CheckValue<T>>(
    options: CachifiedOptions<T, F, C, V>,
    entry: CacheEntry<T>,
    after: CacheEntry<T>,
    now: Duration,
    answers: Answers<T>,
)
    requires
        is_purged(entry, now, after),
        answers.found == Some(after),
        decide(options, now, answers).refreshed,
        !decide(options, now, answers).produced,
    ensures
        serves_stale_after_purge(
            entry.metadata,
            now,
            options.force_fresh,
            options.stale_while_revalidate,
            verdict(options.check_value, entry.value) is None,
        ),
{
}

/// A forced decision always calls the producer, whatever the store holds, and
/// does not read the store first.
pub proof fn forced_decision_always_produces<T, F, C, V: CheckValue<T>>(
    options: CachifiedOptions<T, F, C, V>,
    now: Duration,
    answers: Answers<T>,
)
    requires
        options.force_fresh,
    ensures
        decide(options, now, answers).produced,
        !decide(options, now, answers).looked_up,
        !decide(options, now, answers).refreshed,
        decide(options, now, answers) == decide(
            options,
            now,
            Answers { found: None, ..answers },
        ),
{
}

/// Where the producer fails and the fallback is allowed, the decision reads
/// the store again. A stored entry, however old, that the validator accepts
/// gives its value and masks the error. With no such entry the error of the
/// producer is the result.
pub proof fn fallback_masks_producer_error<T, F, C, V: CheckValue<T>>(
    options: CachifiedOptions<T, F, C, V>,
    now: Duration,
    answers: Answers<T>,
    error: CachifiedError,
)
    requires
        options.fallback_to_cache,
        answers.produced == Err::<T, CachifiedError>(error),
        decide(options, now, answers).produced,
    ensures
        decide(options, now, answers).fell_back,
        decide(options, now, answers).stored is None,
        decide(options, now, answers).result == match answers.found_again {
            Some(entry) => if verdict(options.check_value, entry.value) is None {
                Ok(entry.value)
            } else {
                Err(error@)
            },
            None => Err(error@),
        },
{
}

/// The fallback on an expired entry: a decision that finds an expired entry
/// outside any stale window calls the producer; where the producer fails and
/// the fallback is allowed, the entry's value is the result if the validator
/// accepts it.
pub proof fn fallback_serves_expired_entry<T, F, C, V: CheckValue<T>>(
    options: CachifiedOptions<T, F, C, V>,
    now: Duration,
    answers: Answers<T>,
    entry: CacheEntry<T>,
    error: CachifiedError,
)
    requires
        options.fallback_to_cache,
        answers.found == Some(entry),
        answers.found_again == Some(entry),
        freshness(
            entry.metadata@,
            duration_nanos(now),
            option_nanos(options.stale_while_revalidate),
        ) == Freshness::Expired,
        answers.produced == Err::<T, CachifiedError>(error),
        verdict(options.check_value, entry.value) is None,
    ensures
        decide(options, now, answers).produced,
        decide(options, now, answers).result == Ok::<T, ErrorView>(entry.value),
{
}

/// Without a stored entry the producer's error is the result, fallback or
/// not.
pub proof fn producer_error_surfaces_without_entry<T, F, C, V: CheckValue<T>>(
    options: CachifiedOptions<T, F, C, V>,
    now: Duration,
    answers: Answers<T>,
    error: CachifiedError,
)
    requires
        answers.found is None,
        answers.found_again is None,
        answers.produced == Err::<T, CachifiedError>(error),
    ensures
        decide(options, now, answers).produced,
        decide(options, now, answers).result == Err::<T, ErrorView>(error@),
        decide(options, now, answers).stored is None,
{
}

/// A stored entry that is not expired and that the validator rejects counts
/// as no entry: the decision calls the producer and ends as it would have
/// with an empty store. The rejection itself is never the result.
pub proof fn rejected_stored_value_is_recomputed<T, F, C, V: CheckValue<T>>(
    options: CachifiedOptions<T, F, C, V>,
    now: Duration,
    answers: Answers<T>,
    entry: CacheEntry<T>,
)
    requires
        !options.force_fresh,
        answers.found == Some(entry),
        !entry.metadata@.expired_at(duration_nanos(now)),
        verdict(options.check_value, entry.value) is Some,
    ensures
        decide(options, now, answers).produced,
        decide(options, now, answers) == decide(
            options,
            now,
            Answers { found: None, ..answers },
        ),
{
}

/// A produced value that the validator rejects fails the decision with a
/// validation error that carries the validator's text. Nothing is written,
/// and the store is not asked for a fallback.
pub proof fn rejected_fresh_value_fails<T, F, C, V: CheckValue<T>>(
    options: CachifiedOptions<T, F, C, V>,
    now: Duration,
    answers: Answers<T>,
    value: T,
    text: Seq<char>,
)
    requires
        decide(options, now, answers).produced,
        answers.produced == Ok::<T, CachifiedError>(value),
        verdict(options.check_value, value) == Some(text),
    ensures
        decide(options, now, answers).result == Err::<T, ErrorView>(ErrorView::Validation(text)),
        decide(options, now, answers).stored is None,
        !decide(options, now, answers).fell_back,
{
}

/// A decision that serves from the store calls no producer and writes
/// nothing; one that calls the producer dispatches a refresh only for a
/// stale entry that the validator rejected.
pub proof fn served_decision_has_no_effect<T, F, C, V: CheckValue<T>>(
    options: CachifiedOptions<T, F, C, V>,
    now: Duration,
    answers: Answers<T>,
)
    ensures
        !decide(options, now, answers).produced ==> {
            &&& decide(options, now, answers).looked_up
            &&& decide(options, now, answers).stored is None
            &&& !decide(options, now, answers).fell_back
            &&& answers.found matches Some(entry)
            &&& decide(options, now, answers).result == Ok::<T, ErrorView>(entry.value)
            &&& verdict(options.check_value, entry.value) is None
        },
        decide(options, now, answers).refreshed ==> {
            &&& answers.found matches Some(entry)
            &&& freshness(
                entry.metadata@,
                duration_nanos(now),
                option_nanos(options.stale_while_revalidate),
            ) == Freshness::Stale
        },
{
}

} // verus!
