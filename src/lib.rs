use vstd::prelude::*;

pub mod abs_axis;
pub mod action;
pub mod btn;
pub mod caps;
pub mod config;
pub mod device;
pub mod dispatcher;
pub mod events;
pub mod input;
pub mod key;
pub mod multiplexer;
pub mod rel_axis;
pub mod text;

verus! {

} // verus!
