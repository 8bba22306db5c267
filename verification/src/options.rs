//! What a caller asks for: the options of one decision, and of one soft purge.

use crate::validation::CheckValue;
use crate::validation::NoValidator;
use std::marker::PhantomData;
use std::time::Duration;
use vstd::prelude::*;

verus! {

/// The options of one decision.
///
/// `cache` and `get_fresh_value` belong to the caller that runs the decision:
/// the handle of the store, and the function that produces a fresh value. The
/// library carries them and never calls them. `V` is the type of the
/// validator, [`NoValidator`] where none was set.
pub struct CachifiedOptions<T, F, C, V: CheckValue<T>> {
    /// The handle of the store.
    pub cache: C,
    /// The key of the entry.
    pub key: String,
    /// The time to live of an entry that the decision writes.
    pub ttl: Option<Duration>,
    /// How long past its expiry an entry may still be served while it is
    /// refreshed in the background.
    pub stale_while_revalidate: Option<Duration>,
    /// Whether to produce a fresh value without looking at the store.
    pub force_fresh: bool,
    /// Whether to serve what the store holds where producing fails.
    pub fallback_to_cache: bool,
    /// The validator of stored and of produced values.
    pub check_value: Option<V>,
    /// The function that produces a fresh value.
    pub get_fresh_value: F,
    /// The type of the values.
    pub marker: PhantomData<T>,
}

/// Collects the options of one decision, the producer last.
pub struct CachifiedOptionsBuilder<T, C, V: CheckValue<T>> {
    cache: C,
    key: String,
    ttl: Option<Duration>,
    stale_while_revalidate: Option<Duration>,
    force_fresh: bool,
    fallback_to_cache: bool,
    check_value: Option<V>,
    marker: PhantomData<T>,
}

impl<T, C> CachifiedOptionsBuilder<T, C, NoValidator> {
    /// A builder for `key` in `cache`, with every option off.
    pub fn new<K: Into<String>>(cache: C, key: K) -> (b: Self)
        ensures
            b.collected().cache == cache,
            call_ensures(<K as Into<String>>::into, (key,), b.collected().key),
            b.collected().ttl is None,
            b.collected().stale_while_revalidate is None,
            !b.collected().force_fresh,
            !b.collected().fallback_to_cache,
            b.collected().check_value is None,
    {
        CachifiedOptionsBuilder {
            cache,
            key: key.into(),
            ttl: None,
            stale_while_revalidate: None,
            force_fresh: false,
            fallback_to_cache: false,
            check_value: None,
            marker: PhantomData,
        }
    }
}

impl<T, C, V: CheckValue<T>> CachifiedOptionsBuilder<T, C, V> {
    /// The options collected so far, with nothing in the producer's place.
    pub closed spec fn collected(self) -> CachifiedOptions<T, (), C, V> {
        CachifiedOptions {
            cache: self.cache,
            key: self.key,
            ttl: self.ttl,
            stale_while_revalidate: self.stale_while_revalidate,
            force_fresh: self.force_fresh,
            fallback_to_cache: self.fallback_to_cache,
            check_value: self.check_value,
            get_fresh_value: (),
            marker: PhantomData,
        }
    }

    /// Sets the time to live of an entry that the decision writes.
    pub fn ttl(self, ttl: Duration) -> (b: Self)
        ensures
            b.collected() == (CachifiedOptions { ttl: Some(ttl), ..self.collected() }),
    {
        let mut b = self;
        b.ttl = Some(ttl);
        b
    }

    /// Sets how long past its expiry an entry may still be served.
    pub fn stale_while_revalidate(self, duration: Duration) -> (b: Self)
        ensures
            b.collected() == (CachifiedOptions {
                stale_while_revalidate: Some(duration),
                ..self.collected()
            }),
    {
        let mut b = self;
        b.stale_while_revalidate = Some(duration);
        b
    }

    /// Sets whether to produce a fresh value without looking at the store.
    pub fn force_fresh(self, force: bool) -> (b: Self)
        ensures
            b.collected() == (CachifiedOptions { force_fresh: force, ..self.collected() }),
    {
        let mut b = self;
        b.force_fresh = force;
        b
    }

    /// Sets whether to serve what the store holds where producing fails.
    pub fn fallback_to_cache(self, fallback: bool) -> (b: Self)
        ensures
            b.collected() == (CachifiedOptions { fallback_to_cache: fallback, ..self.collected() }),
    {
        let mut b = self;
        b.fallback_to_cache = fallback;
        b
    }

    /// Sets the validator of stored and of produced values, in place of the
    /// one that was set before.
    pub fn check_value<W>(self, validator: W) -> (b: CachifiedOptionsBuilder<T, C, W>) where
        W: CheckValue<T> + Send + Sync + 'static,

        ensures
            b.collected().cache == self.collected().cache,
            b.collected().key == self.collected().key,
            b.collected().ttl == self.collected().ttl,
            b.collected().stale_while_revalidate == self.collected().stale_while_revalidate,
            b.collected().force_fresh == self.collected().force_fresh,
            b.collected().fallback_to_cache == self.collected().fallback_to_cache,
            b.collected().check_value == Some(validator),
    {
        CachifiedOptionsBuilder {
            cache: self.cache,
            key: self.key,
            ttl: self.ttl,
            stale_while_revalidate: self.stale_while_revalidate,
            force_fresh: self.force_fresh,
            fallback_to_cache: self.fallback_to_cache,
            check_value: Some(validator),
            marker: PhantomData,
        }
    }

    /// The options, with `get_fresh_value` as the producer.
    pub fn get_fresh_value<F>(self, get_fresh_value: F) -> (o: CachifiedOptions<T, F, C, V>)
        ensures
            o.cache == self.collected().cache,
            o.key == self.collected().key,
            o.ttl == self.collected().ttl,
            o.stale_while_revalidate == self.collected().stale_while_revalidate,
            o.force_fresh == self.collected().force_fresh,
            o.fallback_to_cache == self.collected().fallback_to_cache,
            o.check_value == self.collected().check_value,
            o.get_fresh_value == get_fresh_value,
    {
        CachifiedOptions {
            cache: self.cache,
            key: self.key,
            ttl: self.ttl,
            stale_while_revalidate: self.stale_while_revalidate,
            force_fresh: self.force_fresh,
            fallback_to_cache: self.fallback_to_cache,
            check_value: self.check_value,
            get_fresh_value,
            marker: PhantomData,
        }
    }
}

/// The options of one soft purge.
pub struct SoftPurgeOptions {
    /// The key of the entry to purge.
    pub key: String,
    /// How long the purged entry should stay available. The purge itself does
    /// not use it: the window that counts is the one of the decision that
    /// next reads the entry.
    pub stale_while_revalidate: Option<Duration>,
}

impl SoftPurgeOptions {
    /// Options to purge the entry of `key`.
    pub fn new<K: Into<String>>(key: K) -> (o: Self)
        ensures
            call_ensures(<K as Into<String>>::into, (key,), o.key),
            o.stale_while_revalidate is None,
    {
        SoftPurgeOptions { key: key.into(), stale_while_revalidate: None }
    }

    /// Sets how long the purged entry should stay available.
    pub fn stale_while_revalidate(self, duration: Duration) -> (o: Self)
        ensures
            o.key == self.key,
            o.stale_while_revalidate == Some(duration),
    {
        let mut o = self;
        o.stale_while_revalidate = Some(duration);
        o
    }
}

} // verus!
