//! Recognizes announcement posts, turns them into events to remember or
//! notices to send at once, and decides what a daily tick announces.
//!
//! - `rules`: the four announcement patterns, matched character by character.
//! - `pipeline`: what one message yields under every rule.
//! - `date`: civil dates, their integer encodings and year resolution.
//! - `store`: pending events, the recurring-date catalog and date lookups.
//! - `scheduler`: the notices of a daily tick and the delay to the first one.
//! - `feed`: decisions about the post stream's filter rule.

use vstd::prelude::*;

pub mod date;
pub mod feed;
pub mod pipeline;
pub mod rules;
pub mod scheduler;
pub mod store;
pub mod text;
pub mod weekday;

verus! {

} // verus!
