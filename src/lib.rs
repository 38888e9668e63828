//! The network core of a small embedded node, with the decision logic of its
//! peripheral drivers.
//!
//! Each received frame, as the frame codec parsed it, is summarised for
//! diagnostics ([`summary`]) and offered to a chain of protocol responders
//! ([`chain`], [`responder`]): address configuration, then address
//! resolution, then echo. The first responder that claims the frame may
//! update the node's [`state`] and produce one reply frame.
use vstd::prelude::*;

pub mod button;
pub mod chain;
pub mod frame;
pub mod lemmas;
pub mod responder;
pub mod rng;
pub mod sound;
pub mod state;
pub mod summary;

verus! {

} // verus!
