//! The execution core for the lifecycle commands of stacks: deploy, pull,
//! start, restart, pause, unpause, stop and destroy.
//!
//! A command is a state machine ([`execution`]): it is told the answer to the
//! work that it asked for last and says what is to be done next, so that the
//! decisions are made here and the waiting is done elsewhere. While it acts
//! on its stack it holds the claim on it ([`action_state`]); what holds of
//! the claims when many commands run side by side is stated in
//! [`exclusion`]. On its way to the remote agent ([`pipeline`]) a command
//! fetches its credentials and renders the references to variables and
//! secrets in its configuration ([`interpolate`]). A deploy folds the
//! agent's answer into what is known of the stack ([`compose`]). A
//! conditional deploy ([`conditional`]) goes ahead only where the files
//! have changed ([`change`]). A batch ([`batch`]) applies a command to many
//! stacks, each for itself. Every command leaves an execution record
//! ([`update`]).

pub mod text;
pub mod entities;
pub mod update;
pub mod action_state;
pub mod interpolate;
pub mod compose;
pub mod command;
pub mod protocol;
pub mod pipeline;
pub mod pull;
pub mod execution;
pub mod exclusion;
pub mod conditional;
pub mod batch;
pub mod resolve;
pub mod change;
