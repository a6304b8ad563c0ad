//! A verified driver core for one non-interactive agent run: the realtime
//! session log, the supervisor follow-up handshake and the turn loop.
use vstd::prelude::*;

pub mod cli;
pub mod driver;
pub mod event;
pub mod followup;
pub mod logger;
pub mod prompts;
pub mod stamp;
pub mod text;
pub mod transcript;

verus! {

} // verus!
