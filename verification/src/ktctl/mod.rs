//! ktctl: the command-line tool that talks to the init

pub mod console;
pub mod ktctl_console;
pub mod socket;
pub mod service;
pub mod ktctl;

use vstd::prelude::*;

verus! {

} // verus!
