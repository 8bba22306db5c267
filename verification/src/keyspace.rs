//! How a store that is shared with others lays out what this library writes:
//! the keys it uses, the pattern that finds them, and how long the store
//! itself should keep an entry.

use crate::time::duration_nanos;
use crate::time::option_nanos;
use crate::time::NANOS_PER_SEC;
use std::time::Duration;
use vstd::prelude::*;
use vstd::string::*;

verus! {

/// The prefix of the library's keys where the caller names none:
/// `cachified:`.
pub fn default_prefix() -> (prefix: String)
    ensures
        prefix@ == "cachified:"@,
{
    "cachified:".to_owned()
}

/// The key under which the entry of `key` stands in the store: the prefix,
/// then the key.
pub fn full_key(prefix: &str, key: &str) -> (full: String)
    ensures
        full@ == prefix@ + key@,
{
    prefix.to_owned().concat(key)
}

/// The pattern that matches every key of the library in the store: the
/// prefix, then `*`.
pub fn key_pattern(prefix: &str) -> (pattern: String)
    ensures
        pattern@ == prefix@ + "*"@,
{
    prefix.to_owned().concat("*")
}

/// The whole seconds after which the store itself may drop an entry with
/// this time to live; `None` where it is to keep the entry: where there is no
/// time to live, or one below a second.
pub open spec fn expiry_of(ttl: Option<nat>) -> Option<nat> {
    match ttl {
        Some(ttl) => if ttl / (NANOS_PER_SEC as nat) > 0 {
            Some(ttl / (NANOS_PER_SEC as nat))
        } else {
            None
        },
        None => None,
    }
}

/// The whole seconds of the time to live, for a store that expires entries
/// by the second; `None` where the entry is to be written without an expiry.
pub fn expiry_seconds(ttl: Option<Duration>) -> (seconds: Option<u64>)
    ensures
        match seconds {
            Some(seconds) => expiry_of(option_nanos(ttl)) == Some(seconds as nat),
            None => expiry_of(option_nanos(ttl)) is None,
        },
{
    match ttl {
        Some(ttl) => {
            let seconds: u64 = ttl.as_secs();
            if seconds > 0 {
                Some(seconds)
            } else {
                None
            }
        },
        None => None,
    }
}

} // verus!
