//! Decision logic of a companion process that attaches to a locally running
//! game client: the lifecycle state machine, the roster tracker, the dodge
//! arbiter, the event dispatcher and the reconnect policy, each as a function
//! from state and event to next state and actions.

pub mod analytics;
pub mod api;
pub mod champ_select;
pub mod config;
pub mod dodge;
pub mod lobby;
pub mod phase;
pub mod region;
pub mod state;
pub mod summoner;
pub mod supervisor;
pub mod text;
pub mod tracker;
pub mod utils;
pub mod ws;
