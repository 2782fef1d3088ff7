//! Client-side control of the model-serving daemon: command routing, the
//! start protocol that supervises the daemon process, and the rendering of
//! every outcome for humans or machines.

pub mod command;
pub mod laws;
pub mod render;
pub mod start;
pub mod text;

pub use command::{dispatch_outcome, route, CliArgs, Commands, Route};
pub use render::{render, Line, Outcome, Stream};
pub use start::{
    daemon_binary_name, fallback_binary_path, StartAction, StartEvent, StartPhase, StartProtocol,
    StartStep,
};
pub use text::{push_decimal, push_signed_decimal};
