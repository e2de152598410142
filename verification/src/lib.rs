//! Decision logic of the Signal compositor: command-line values, configuration
//! fallbacks, server construction and the server's event-loop decisions.

mod external;
pub mod cli;
pub mod decimal;
pub mod config;
pub mod server;
pub mod builder;

use vstd::prelude::*;

verus! {

} // verus!
