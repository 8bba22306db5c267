//! The freshness decision engine.
//!
//! One decision serves a key from a store, or produces a fresh value for it.
//! The engine never touches the store or the producer. It is a set of steps:
//! each takes what the outside answered and returns what to do next. The
//! caller that runs a decision performs the steps' instructions in order:
//!
//! 1. [`begin`] says whether to read the store or to produce at once.
//! 2. [`after_lookup`] takes what the store holds and says whether to serve it
//!    or to produce, and whether to dispatch a background refresh first.
//! 3. [`after_produce`] takes what the producer returned and says whether to
//!    store and return the value, to return it unstored, to fail, or to read
//!    the store once more as a fallback.
//! 4. [`after_store`] takes what the store answered to the write, and
//!    [`after_fallback`] what it holds at the second reading; both give the
//!    result of the decision.
//!
//! A background refresh runs the producer on its own and hands the outcome to
//! [`after_refresh`]. A soft purge reads the store and hands the reading to
//! [`after_purge_lookup`].
//!
//! [`decide`] is the model of a whole decision: what it returns and does,
//! given what the outside answers.

use crate::error::CachifiedError;
use crate::error::ErrorView;
use crate::metadata::CacheEntry;
use crate::metadata::CacheMetadata;
use crate::metadata::MetadataView;
use crate::options::CachifiedOptions;
use crate::time::duration_nanos;
use crate::time::has_reached_after;
use crate::time::is_positive;
use crate::time::option_nanos;
use crate::time::zero;
use crate::validation::objection_of;
use crate::validation::CheckValue;
use std::time::Duration;
use vstd::prelude::*;

verus! {

/// How a stored entry stands at one instant.
#[derive(Debug, Clone, Copy, PartialEq, Eq, Structural)]
pub enum Freshness {
    /// Not expired.
    Fresh,
    /// Expired, and inside the window in which it may still be served while
    /// it is refreshed.
    Stale,
    /// Expired, with no such window or past its end.
    Expired,
}

/// The end of the window in which an entry may be served stale: the instant
/// of writing, plus the time to live, plus the window.
pub open spec fn stale_until(metadata: MetadataView, window: nat) -> nat {
    let ttl: nat = match metadata.ttl {
        Some(ttl) => ttl,
        None => 0,
    };
    metadata.created + ttl + window
}

/// How an entry with `metadata` stands at `now`, for a caller that allows
/// stale serving for `window`.
pub open spec fn freshness(metadata: MetadataView, now: nat, window: Option<nat>) -> Freshness {
    if !metadata.expired_at(now) {
        Freshness::Fresh
    } else {
        match window {
            Some(window) => if now < stale_until(metadata, window) {
                Freshness::Stale
            } else {
                Freshness::Expired
            },
            None => Freshness::Expired,
        }
    }
}

/// Classifies an entry by its metadata.
pub fn classify(
    metadata: &CacheMetadata,
    now: Duration,
    stale_while_revalidate: Option<Duration>,
) -> (f: Freshness)
    ensures
        f == freshness(metadata@, duration_nanos(now), option_nanos(stale_while_revalidate)),
{
    if !metadata.is_expired(now) {
        Freshness::Fresh
    } else {
        match stale_while_revalidate {
            Some(window) => {
                let ttl = match metadata.ttl {
                    Some(ttl) => ttl,
                    None => zero(),
                };
                if has_reached_after(now, metadata.created_time, ttl, window) {
                    Freshness::Expired
                } else {
                    Freshness::Stale
                }
            },
            None => Freshness::Expired,
        }
    }
}

/// What the validator, if there is one, holds against `value`: `None` where
/// there is no validator or it accepts the value, else the text of its error.
pub open spec fn verdict<T, V: CheckValue<T>>(check_value: Option<V>, value: T) -> Option<
    Seq<char>,
> {
    match check_value {
        Some(validator) => validator.objection(&value),
        None => None,
    }
}

/// Asks the validator, if there is one, about `value`.
pub fn consult<T, V: CheckValue<T>>(check_value: &Option<V>, value: &T) -> (answer: Result<
    (),
    CachifiedError,
>)
    ensures
        objection_of(answer) == verdict(*check_value, *value),
{
    match check_value {
        Some(validator) => validator.check(value),
        None => Ok(()),
    }
}

/// The first instruction of a decision.
#[derive(Debug, Clone, Copy, PartialEq, Eq, Structural)]
pub enum FirstStep {
    /// Read the entry of the key from the store and go on with
    /// [`after_lookup`].
    Lookup,
    /// Call the producer and go on with [`after_produce`].
    Produce,
}

/// The first instruction: a forced decision does not look at the store.
pub open spec fn first_step(force_fresh: bool) -> FirstStep {
    if force_fresh {
        FirstStep::Produce
    } else {
        FirstStep::Lookup
    }
}

/// Starts a decision.
pub fn begin(force_fresh: bool) -> (step: FirstStep)
    ensures
        step == first_step(force_fresh),
{
    if force_fresh {
        FirstStep::Produce
    } else {
        FirstStep::Lookup
    }
}

/// The instruction that follows the reading of the store.
#[derive(Debug)]
pub enum LookupStep<T> {
    /// The decision ends with `value`. Where `refresh` is set, dispatch a
    /// background refresh before returning.
    Serve { value: T, refresh: bool },
    /// Call the producer and go on with [`after_produce`]. Where `refresh`
    /// is set, dispatch a background refresh first.
    Produce { refresh: bool },
}

/// The instruction for a decision at `now` that found `found` in the store.
///
/// A fresh entry that the validator accepts is served. A stale entry has a
/// background refresh dispatched and is served if the validator accepts it.
/// In every other case the producer is called: for a missing or an expired
/// entry, and for one that the validator rejects.
pub open spec fn lookup_step<T, V: CheckValue<T>>(
    found: Option<CacheEntry<T>>,
    now: Duration,
    stale_while_revalidate: Option<Duration>,
    check_value: Option<V>,
) -> LookupStep<T> {
    match found {
        Some(entry) => {
            let accepted = verdict(check_value, entry.value) is None;
            match freshness(
                entry.metadata@,
                duration_nanos(now),
                option_nanos(stale_while_revalidate),
            ) {
                Freshness::Fresh => if accepted {
                    LookupStep::Serve { value: entry.value, refresh: false }
                } else {
                    LookupStep::Produce { refresh: false }
                },
                Freshness::Stale => if accepted {
                    LookupStep::Serve { value: entry.value, refresh: true }
                } else {
                    LookupStep::Produce { refresh: true }
                },
                Freshness::Expired => LookupStep::Produce { refresh: false },
            }
        },
        None => LookupStep::Produce { refresh: false },
    }
}

/// Decides what follows the reading of the store. `found` is what the store
/// holds for the key: `None` where it holds nothing or could not be read.
pub fn after_lookup<T, V: CheckValue<T>>(
    found: Option<CacheEntry<T>>,
    now: Duration,
    stale_while_revalidate: Option<Duration>,
    check_value: &Option<V>,
) -> (step: LookupStep<T>)
    ensures
        step == lookup_step(found, now, stale_while_revalidate, *check_value),
{
    match found {
        Some(entry) => {
            match classify(&entry.metadata, now, stale_while_revalidate) {
                Freshness::Fresh => match consult(check_value, &entry.value) {
                    Ok(_) => LookupStep::Serve { value: entry.value, refresh: false },
                    Err(_) => LookupStep::Produce { refresh: false },
                },
                Freshness::Stale => match consult(check_value, &entry.value) {
                    Ok(_) => LookupStep::Serve { value: entry.value, refresh: true },
                    Err(_) => LookupStep::Produce { refresh: true },
                },
                Freshness::Expired => LookupStep::Produce { refresh: false },
            }
        },
        None => LookupStep::Produce { refresh: false },
    }
}

/// The instruction that follows the call of the producer.
#[derive(Debug)]
pub enum ProduceStep<T> {
    /// Write the entry to the store and go on with [`after_store`].
    Store(CacheEntry<T>),
    /// The decision ends with the value. Nothing is written.
    Return(T),
    /// Read the entry of the key from the store once more and go on with
    /// [`after_fallback`], handing it the error.
    Fallback(CachifiedError),
    /// The decision ends with the error. Nothing is written.
    Fail(CachifiedError),
}

/// The mathematical view of a [`ProduceStep`]: the same, with the errors by
/// their views.
pub enum ProduceStepView<T> {
    Store(CacheEntry<T>),
    Return(T),
    Fallback(ErrorView),
    Fail(ErrorView),
}

impl<T> View for ProduceStep<T> {
    type V = ProduceStepView<T>;

    open spec fn view(&self) -> ProduceStepView<T> {
        match self {
            ProduceStep::Store(entry) => ProduceStepView::Store(*entry),
            ProduceStep::Return(value) => ProduceStepView::Return(*value),
            ProduceStep::Fallback(error) => ProduceStepView::Fallback(error@),
            ProduceStep::Fail(error) => ProduceStepView::Fail(error@),
        }
    }
}

impl<T> ProduceStep<T> {
    /// The error that the step carries, if it carries one.
    pub open spec fn error(self) -> Option<CachifiedError> {
        match self {
            ProduceStep::Fallback(error) => Some(error),
            ProduceStep::Fail(error) => Some(error),
            _ => None,
        }
    }
}

/// Whether a decision with this time to live writes what it produced: the
/// time to live is there and longer than zero.
pub open spec fn keeps(ttl: Option<Duration>) -> bool {
    ttl matches Some(ttl) && duration_nanos(ttl) > 0
}

/// The instruction for a decision at `now` whose producer returned `produced`.
///
/// A value that the validator rejects fails the decision with a validation
/// error that carries the validator's text. A value that it accepts is
/// written as an entry created at `now`, if the time to live is longer than
/// zero, and else returned as it is. An error of the producer fails the
/// decision, unless the caller allows the fallback to the store.
pub open spec fn produce_step<T, V: CheckValue<T>>(
    produced: Result<T, CachifiedError>,
    now: Duration,
    ttl: Option<Duration>,
    fallback_to_cache: bool,
    check_value: Option<V>,
) -> ProduceStepView<T> {
    match produced {
        Ok(value) => match verdict(check_value, value) {
            Some(text) => ProduceStepView::Fail(ErrorView::Validation(text)),
            None => if keeps(ttl) {
                ProduceStepView::Store(
                    CacheEntry { value, metadata: CacheMetadata { created_time: now, ttl } },
                )
            } else {
                ProduceStepView::Return(value)
            },
        },
        Err(error) => if fallback_to_cache {
            ProduceStepView::Fallback(error@)
        } else {
            ProduceStepView::Fail(error@)
        },
    }
}

/// Decides what follows the call of the producer. `now` is the instant of the
/// decision, taken before the store was read.
pub fn after_produce<T, V: CheckValue<T>>(
    produced: Result<T, CachifiedError>,
    now: Duration,
    ttl: Option<Duration>,
    fallback_to_cache: bool,
    check_value: &Option<V>,
) -> (step: ProduceStep<T>)
    ensures
        step@ == produce_step(produced, now, ttl, fallback_to_cache, *check_value),
        produced matches Err(error) ==> step.error() == Some(error),
{
    match produced {
        Ok(value) => match consult(check_value, &value) {
            Ok(_) => {
                let keep = match ttl {
                    Some(ttl) => is_positive(ttl),
                    None => false,
                };
                if keep {
                    ProduceStep::Store(
                        CacheEntry { value, metadata: CacheMetadata { created_time: now, ttl } },
                    )
                } else {
                    ProduceStep::Return(value)
                }
            },
            Err(error) => ProduceStep::Fail(error.into_validation()),
        },
        Err(error) => if fallback_to_cache {
            ProduceStep::Fallback(error)
        } else {
            ProduceStep::Fail(error)
        },
    }
}

/// Ends a decision that wrote `entry`: the value is returned whatever the
/// store answered to the write.
pub fn after_store<T>(entry: CacheEntry<T>, written: Result<(), CachifiedError>) -> (result:
    Result<T, CachifiedError>)
    ensures
        result == Ok::<T, CachifiedError>(entry.value),
{
    Ok(entry.value)
}

/// The result of a decision whose producer failed with `error` and that then
/// found `found` in the store: the stored value, however old, if there is one
/// and the validator accepts it, and else the producer's error.
pub open spec fn fallback_result<T, E, V: CheckValue<T>>(
    found: Option<CacheEntry<T>>,
    error: E,
    check_value: Option<V>,
) -> Result<T, E> {
    match found {
        Some(entry) => if verdict(check_value, entry.value) is None {
            Ok(entry.value)
        } else {
            Err(error)
        },
        None => Err(error),
    }
}

/// Ends a decision whose producer failed with `error`, by what the store
/// holds at the second reading.
pub fn after_fallback<T, V: CheckValue<T>>(
    found: Option<CacheEntry<T>>,
    error: CachifiedError,
    check_value: &Option<V>,
) -> (result: Result<T, CachifiedError>)
    ensures
        result == fallback_result(found, error, *check_value),
{
    match found {
        Some(entry) => match consult(check_value, &entry.value) {
            Ok(_) => Ok(entry.value),
            Err(_) => Err(error),
        },
        None => Err(error),
    }
}

/// What a background refresh writes once its producer has returned
/// `produced` at `completed_at`: the value as an entry created at that
/// instant, and nothing where the producer failed.
pub open spec fn refresh_entry<T>(
    produced: Result<T, CachifiedError>,
    completed_at: Duration,
    ttl: Option<Duration>,
) -> Option<CacheEntry<T>> {
    match produced {
        Ok(value) => Some(
            CacheEntry { value, metadata: CacheMetadata { created_time: completed_at, ttl } },
        ),
        Err(_) => None,
    }
}

/// Ends a background refresh: the entry to write over whatever the store
/// holds for the key, or `None` where the producer failed and nothing is to
/// be done. The value is not validated, and the time to live is not looked
/// at.
pub fn after_refresh<T>(
    produced: Result<T, CachifiedError>,
    completed_at: Duration,
    ttl: Option<Duration>,
) -> (entry: Option<CacheEntry<T>>)
    ensures
        entry == refresh_entry(produced, completed_at, ttl),
{
    match produced {
        Ok(value) => Some(
            CacheEntry { value, metadata: CacheMetadata { created_time: completed_at, ttl } },
        ),
        Err(_) => None,
    }
}

/// The metadata of an entry after a soft purge at `now`: a time to live of
/// zero, and the instant of writing moved to `now` where the entry was
/// already expired.
pub open spec fn purged(metadata: MetadataView, now: nat) -> MetadataView {
    MetadataView {
        created: if metadata.expired_at(now) {
            now
        } else {
            metadata.created
        },
        ttl: Some(0),
    }
}

/// Whether `after` is `before` softly purged at `now`: the same value, a time
/// to live of zero, and the instant of writing moved to `now` where `before`
/// was already expired under its own time to live, and else left as it was.
pub open spec fn is_purged<T>(before: CacheEntry<T>, now: Duration, after: CacheEntry<T>) -> bool {
    &&& after.value == before.value
    &&& after.metadata.created_time == if before.metadata@.expired_at(duration_nanos(now)) {
        now
    } else {
        before.metadata.created_time
    }
    &&& after.metadata@ == purged(before.metadata@, duration_nanos(now))
}

/// Purges an entry softly at `now`: the value stays, and the entry counts as
/// expired from now on.
pub fn soft_purge_entry<T>(entry: CacheEntry<T>, now: Duration) -> (after: CacheEntry<T>)
    ensures
        is_purged(entry, now, after),
{
    let created_time = if entry.metadata.is_expired(now) {
        now
    } else {
        entry.metadata.created_time
    };
    CacheEntry { value: entry.value, metadata: CacheMetadata { created_time, ttl: Some(zero()) } }
}

/// Decides what a soft purge at `now` does after it read `found` from the
/// store: the entry to write back, or `None` where the store holds nothing
/// and the purge is done. The purge ends with what the store answers to the
/// write.
pub fn after_purge_lookup<T>(found: Option<CacheEntry<T>>, now: Duration) -> (write: Option<
    CacheEntry<T>,
>)
    ensures
        match found {
            Some(entry) => write matches Some(after) && is_purged(entry, now, after),
            None => write is None,
        },
{
    match found {
        Some(entry) => Some(soft_purge_entry(entry, now)),
        None => None,
    }
}

/// What the outside answers during one decision, as far as it is asked.
pub struct Answers<T> {
    /// What the store holds for the key at the first reading.
    pub found: Option<CacheEntry<T>>,
    /// What the producer returns.
    pub produced: Result<T, CachifiedError>,
    /// What the store holds for the key at the second reading, the fallback.
    pub found_again: Option<CacheEntry<T>>,
}

/// What one decision returns and does.
pub struct Decision<T> {
    /// What the caller gets: a value, or the view of an error.
    pub result: Result<T, ErrorView>,
    /// Whether the store was read at the start.
    pub looked_up: bool,
    /// Whether a background refresh was dispatched.
    pub refreshed: bool,
    /// Whether the producer was called by the decision itself.
    pub produced: bool,
    /// The entry that the decision wrote, if it wrote one.
    pub stored: Option<CacheEntry<T>>,
    /// Whether the store was read a second time, as a fallback.
    pub fell_back: bool,
}

/// The model of one decision at `now`: the steps of the engine, performed in
/// order by a caller to whom the outside answers `answers`.
pub open spec fn decide<T, F, C, V: CheckValue<T>>(
    options: CachifiedOptions<T, F, C, V>,
    now: Duration,
    answers: Answers<T>,
) -> Decision<T> {
    let looked_up = first_step(options.force_fresh) == FirstStep::Lookup;
    let after_first = if looked_up {
        lookup_step(answers.found, now, options.stale_while_revalidate, options.check_value)
    } else {
        LookupStep::Produce { refresh: false }
    };
    match after_first {
        LookupStep::Serve { value, refresh } => Decision {
            result: Ok(value),
            looked_up,
            refreshed: refresh,
            produced: false,
            stored: None,
            fell_back: false,
        },
        LookupStep::Produce { refresh } => {
            let step = produce_step(
                answers.produced,
                now,
                options.ttl,
                options.fallback_to_cache,
                options.check_value,
            );
            Decision {
                result: match step {
                    ProduceStepView::Store(entry) => Ok(entry.value),
                    ProduceStepView::Return(value) => Ok(value),
                    ProduceStepView::Fail(error) => Err(error),
                    ProduceStepView::Fallback(error) => fallback_result(
                        answers.found_again,
                        error,
                        options.check_value,
                    ),
                },
                looked_up,
                refreshed: refresh,
                produced: true,
                stored: match step {
                    ProduceStepView::Store(entry) => Some(entry),
                    _ => None,
                },
                fell_back: step is Fallback,
            }
        },
    }
}

} // verus!
