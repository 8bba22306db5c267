//! What a store holds for one key: a value, the instant it was written, and
//! how long it stays fresh.

use crate::time::current_time;
use crate::time::duration_nanos;
use crate::time::has_reached;
use crate::time::option_nanos;
use crate::time::representable;
use crate::time::same_length;
use std::time::Duration;
use vstd::prelude::*;
use vstd::std_specs::cmp::PartialEqSpecImpl;

verus! {

/// The mathematical view of [`CacheMetadata`]: nanoseconds since the epoch at
/// which the entry was written, and its time to live in nanoseconds.
pub struct MetadataView {
    pub created: nat,
    pub ttl: Option<nat>,
}

impl MetadataView {
    /// An entry is expired at `now` where it has a time to live and `now` lies
    /// at or after the instant of writing plus that time.
    pub open spec fn expired_at(self, now: nat) -> bool {
        match self.ttl {
            Some(ttl) => now >= self.created + ttl,
            None => false,
        }
    }

    /// The instant at which the entry expires, where it has a time to live.
    pub open spec fn expires_at(self) -> Option<nat> {
        match self.ttl {
            Some(ttl) => Some(self.created + ttl),
            None => None,
        }
    }

    /// The time from the writing of the entry to `now`; zero where `now` lies
    /// before the writing.
    pub open spec fn age_at(self, now: nat) -> nat {
        if now >= self.created {
            (now - self.created) as nat
        } else {
            0
        }
    }
}

/// When an entry was written and how long it stays fresh.
#[derive(Debug, Clone, Copy)]
pub struct CacheMetadata {
    /// The instant of writing, as the duration since the Unix epoch.
    pub created_time: Duration,
    /// The time to live. An entry without one never expires.
    pub ttl: Option<Duration>,
}

impl View for CacheMetadata {
    type V = MetadataView;

    open spec fn view(&self) -> MetadataView {
        MetadataView { created: duration_nanos(self.created_time), ttl: option_nanos(self.ttl) }
    }
}

impl CacheMetadata {
    /// Metadata for an entry that is written now, by the system clock.
    pub fn new(ttl: Option<Duration>) -> (m: Self)
        ensures
            m.ttl == ttl,
    {
        CacheMetadata { created_time: current_time(), ttl }
    }

    /// Metadata for an entry that was written at `created_time`.
    pub fn with_time(created_time: Duration, ttl: Option<Duration>) -> (m: Self)
        ensures
            m.created_time == created_time,
            m.ttl == ttl,
    {
        CacheMetadata { created_time, ttl }
    }

    /// Whether the entry is expired at `now`.
    pub fn is_expired(&self, now: Duration) -> (r: bool)
        ensures
            r == self@.expired_at(duration_nanos(now)),
    {
        match self.ttl {
            Some(ttl) => has_reached(now, self.created_time, ttl),
            None => false,
        }
    }

    /// The instant at which the entry expires; `None` where it never does.
    pub fn expires_at(&self) -> (r: Option<Duration>)
        requires
            self@.expires_at() matches Some(end) ==> representable(end),
        ensures
            option_nanos(r) == self@.expires_at(),
    {
        match self.ttl {
            Some(ttl) => self.created_time.checked_add(ttl),
            None => None,
        }
    }

    /// The age of the entry at `now`.
    pub fn age(&self, now: Duration) -> (r: Duration)
        ensures
            duration_nanos(r) == self@.age_at(duration_nanos(now)),
    {
        now.saturating_sub(self.created_time)
    }
}

impl PartialEq for CacheMetadata {
    fn eq(&self, other: &Self) -> (r: bool) {
        let same_ttl = match (self.ttl, other.ttl) {
            (Some(a), Some(b)) => same_length(a, b),
            (None, None) => true,
            _ => false,
        };
        same_length(self.created_time, other.created_time) && same_ttl
    }
}

impl PartialEqSpecImpl for CacheMetadata {
    open spec fn obeys_eq_spec() -> bool {
        true
    }

    open spec fn eq_spec(&self, other: &Self) -> bool {
        self@ == other@
    }
}

/// A stored value with its metadata.
#[derive(Debug, Clone)]
pub struct CacheEntry<T> {
    /// The stored value.
    pub value: T,
    /// When it was written and how long it stays fresh.
    pub metadata: CacheMetadata,
}

impl<T> CacheEntry<T> {
    /// An entry that is written now, by the system clock.
    pub fn new(value: T, ttl: Option<Duration>) -> (e: Self)
        ensures
            e.value == value,
            e.metadata.ttl == ttl,
    {
        CacheEntry { value, metadata: CacheMetadata::new(ttl) }
    }

    /// An entry with the given metadata.
    pub fn with_metadata(value: T, metadata: CacheMetadata) -> (e: Self)
        ensures
            e.value == value,
            e.metadata == metadata,
    {
        CacheEntry { value, metadata }
    }

    /// Whether the entry is expired at `now`.
    pub fn is_expired(&self, now: Duration) -> (r: bool)
        ensures
            r == self.metadata@.expired_at(duration_nanos(now)),
    {
        self.metadata.is_expired(now)
    }

    /// The instant at which the entry expires; `None` where it never does.
    pub fn expires_at(&self) -> (r: Option<Duration>)
        requires
            self.metadata@.expires_at() matches Some(end) ==> representable(end),
        ensures
            option_nanos(r) == self.metadata@.expires_at(),
    {
        self.metadata.expires_at()
    }

    /// The age of the entry at `now`.
    pub fn age(&self, now: Duration) -> (r: Duration)
        ensures
            duration_nanos(r) == self.metadata@.age_at(duration_nanos(now)),
    {
        self.metadata.age(now)
    }
}

} // verus!
