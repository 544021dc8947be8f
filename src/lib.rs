//! A feature-flag client core: credential parsing, weak entity tags, the
//! classification of server responses, the decisions of the refresh loop, and
//! the holder that hands new flag data to readers as a whole.
use vstd::prelude::*;

pub mod dataset;
pub mod entity_tag;
pub mod error;
pub mod holder;
pub mod lifecycle;
pub mod token;
pub mod unleash;
pub mod unleash_client;

verus! {

} // verus!
