//! A proof-of-work worker: requests arrive on a publish/subscribe topic, a
//! nonce search runs for each, and the answers go back on another topic.
//! This crate holds the verified core: the digest search, the in-flight
//! counter, the admission and drain state machine, and the wire format.

pub mod codec;
pub mod coordinator;
pub mod counter;
pub mod digest;

use vstd::prelude::*;

verus! {

/// Where the publish/subscribe broker lives and under which client id this
/// worker connects to it.
#[derive(Clone)]
pub struct Broker {
    pub id: String,
    pub host: String,
    pub port: u16,
}

} // verus!
