//! The administrative commands and the router that decides where each one
//! is handled.

use vstd::prelude::*;
use crate::render::Outcome;

verus! {

/// The commands of the control surface; exactly one is selected per
/// invocation.
#[derive(Debug, PartialEq, Eq)]
pub enum Commands {
    /// Start the management service (daemon).
    StartService { daemonize: bool },
    /// Stop the management service.
    StopService,
    /// Get the status of the management service.
    Status,
    /// Load a model.
    LoadModel { model_name: String, config_path: Option<String> },
    /// Unload a model.
    UnloadModel { model_name: String },
    /// List loaded models.
    ListModels,
    /// Install a model, optionally under a local name, forcing a reinstall.
    InstallModel { model_name: String, local_name: Option<String>, force: bool },
    /// Uninstall a model, forcing it even when it is loaded.
    UninstallModel { model_name: String, force: bool },
}

/// A parsed invocation: its command and whether output is structured (JSON).
#[derive(Debug, PartialEq, Eq)]
pub struct CliArgs {
    pub command: Commands,
    pub json: bool,
}

/// Where a command is handled: by the local start protocol, or by the
/// running daemon through the remote dispatch client.
#[derive(Debug, PartialEq, Eq)]
pub enum Route {
    Start { daemonize: bool, json: bool },
    Dispatch { command: Commands, json: bool },
}

/// The route of an invocation: `StartService` goes to the start protocol,
/// every other command to the remote dispatch client, unchanged.
pub open spec fn route_of(args: CliArgs) -> Route {
    match args.command {
        Commands::StartService { daemonize } => Route::Start { daemonize, json: args.json },
        command => Route::Dispatch { command, json: args.json },
    }
}

/// Routes a parsed invocation.
pub fn route(args: CliArgs) -> (r: Route)
    ensures
        r == route_of(args),
{
    let json = args.json;
    match args.command {
        Commands::StartService { daemonize } => Route::Start { daemonize, json },
        command => Route::Dispatch { command, json },
    }
}

/// The outcome of a remote dispatch: the daemon's payload on success, its
/// failure description otherwise.
pub fn dispatch_outcome(reply: Result<String, String>) -> (r: Outcome)
    ensures
        r@ == (match reply {
            Ok(payload) => crate::render::OutcomeModel::Dispatched { payload: payload@ },
            Err(error) => crate::render::OutcomeModel::DispatchFailed { error: error@ },
        }),
{
    match reply {
        Ok(payload) => Outcome::Dispatched { payload },
        Err(error) => Outcome::DispatchFailed { error },
    }
}

} // verus!
