use vstd::prelude::*;

pub mod json;
pub mod message;
pub mod handshake;
pub mod registry;
pub mod dispatch;
pub mod relay;

verus! {

} // verus!
