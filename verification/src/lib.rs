//! Verified core of a small dynamic-library invoker.
//!
//! The crate decides; its caller acts. Loading a library image, looking up a
//! symbol and jumping into foreign code are beyond proof, so they stay with
//! the caller. What is proved here is everything around them:
//! how a path is anchored at a working directory and when its resolution is
//! accepted ([`path`]), in which order the driver loads, resolves and calls,
//! and how every failure halts it ([`invoker`]), the texts the sample library
//! prints ([`sample`]), and a small timing harness ([`perf`]).
#![allow(non_snake_case)]

pub mod invoker;
pub mod path;
pub mod perf;
pub mod sample;
