//! Fixed-point Unix timestamps: an integer mantissa paired with a base-10
//! exponent, standing for `value * 10^power` seconds since the Unix epoch.
//!
//! The crate is built from three parts. The decimal scaling engine
//! ([`scale`]) computes powers of ten and moves a mantissa between exponents,
//! with overflow checked and truncation made explicit. The textual formatter
//! ([`format`]) renders a mantissa under its exponent as an exact decimal
//! string, using integer arithmetic only. The [`timestamp`] value type ties
//! the two together and is bridged to a canonical seconds-plus-nanoseconds
//! duration ([`duration`]) and to the calendar types of the `time` and
//! `chrono` crates ([`interop_time`], [`interop_chrono`]).

pub mod duration;
pub mod format;
pub mod interop_chrono;
pub mod interop_time;
pub mod scale;
pub mod timestamp;

pub use duration::EpochDuration;
pub use timestamp::Timestamp;
pub use timestamp::TimestampTryScaleError;
