//! Decision logic of the `dv` dotfile and device manager: task plans,
//! copy and sync decisions, command construction and terminal input mapping.
use vstd::prelude::*;

pub mod check;
pub mod cli;
pub mod copy;
pub mod interact;
pub mod package;
pub mod plan;
pub mod registry;
pub mod schedule;
pub mod script;
pub mod sync;
pub mod task;
pub mod text;
pub mod users;
pub mod vars;

verus! {

} // verus!
