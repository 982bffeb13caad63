//! Paced "wish, assist, adopt" workflow against a rewards service.
//!
//! The library holds the decisions: how each reply of the service is read,
//! which remote call or pause comes next for one account, and how the
//! accounts of a fleet follow one another. The caller performs each
//! requested action and feeds its result back as an event.
use vstd::prelude::*;

pub mod gateway;
pub mod engine;
pub mod fleet;
