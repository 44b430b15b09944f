//! Sans-I/O core of a peer-to-peer node runtime.
//!
//! The crate decides; a driver performs. The driver owns the network session
//! and the channels, hands every poll result to the runtime as a plain value
//! and carries out the commands, events and notices that come back.

pub mod action;
pub mod address;
pub mod cli;
pub mod event;
pub mod identity;
pub mod listening;
pub mod runtime;
pub mod session;
pub mod text;
pub mod trace;
pub mod words;

pub use action::{Action, ActionDispatchError, Command};
pub use cli::{CliOutcome, CommandLineInterface, ReadOutcome, ReplStep};
pub use event::{Event, Notice, Output, Probe, ProtocolEvent};
pub use runtime::{ActionPoll, Civ5p2p, Phase, Request, SessionPoll};
pub use session::{SessionPlan, SetupError};
