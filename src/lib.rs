//! Pairing and session bootstrap for a local-network messaging client:
//! where the session file lives and when it may be written, the workflow
//! that takes a discovered peer to a trusted session, and the requests that
//! commands make over that session.
use vstd::prelude::*;

pub mod config;
pub mod dispatch;
pub mod error;
pub mod pairing;
pub mod types;

verus! {

} // verus!
