//! Client-side model of a Mastodon instance's API: typed records, their JSON
//! decoding and encoding, the normalisation of notifications, and the
//! decoding of responses that may carry either a result or a server error.
use vstd::prelude::*;

pub mod json;
pub mod nullbool;
pub mod entities;
pub mod errors;
pub mod notification;
pub mod response;
pub mod mastodon;

verus! {

} // verus!
