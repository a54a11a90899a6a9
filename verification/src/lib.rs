//! A passphrase generator with crack-time estimation.
//!
//! The library draws words uniformly from a fixed dictionary, joins them into
//! a passphrase, and estimates how long a brute-force search over the keyspace
//! would take for two adversary hash-rate profiles.  The estimated time is
//! rendered as a human-readable duration string through a cascading tier
//! chain (seconds, minutes, ..., trillions of years).  All arithmetic is
//! exact: a duration is a rational number of seconds.

pub mod decimal;
pub mod duration;
pub mod estimate;
pub mod wordlist;
pub mod dictionary;
mod os_random;
pub mod passphrase;
