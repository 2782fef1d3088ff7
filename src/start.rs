//! The start protocol: probe for a running daemon, locate its binary, spawn
//! it, and either detach or wait for it in the foreground.
//!
//! The protocol is a state machine driven by its caller: each step takes the
//! event that the last action produced and returns the next state, the next
//! action to perform, and the lines to print.

use vstd::prelude::*;
use vstd::string::*;
use crate::render::{lines_view, rendering, render, Line, Outcome, OutcomeModel, Stream};

verus! {

/// The phases of the start protocol.
#[derive(Clone, Copy, Debug, PartialEq, Eq, Structural)]
pub enum StartPhase {
    Probing,
    ResolvingBinary,
    Spawning,
    ForegroundWaiting,
    Finished,
}

/// The state of one run of the start protocol.
#[derive(Clone, Copy, Debug, PartialEq, Eq, Structural)]
pub struct StartProtocol {
    pub phase: StartPhase,
    pub daemonize: bool,
    pub json: bool,
}

/// What the caller observed after performing the last action.
#[derive(Debug)]
pub enum StartEvent {
    /// The status probe was answered (`true`) or failed (`false`).
    Probed { answered: bool },
    /// The binary next to the running executable, if its path is known, and
    /// whether it and the fallback path exist on disk.
    BinaryLocated { sibling: Option<String>, sibling_exists: bool, fallback_exists: bool },
    /// The daemon was spawned with this process id.
    Spawned { pid: u32 },
    /// Spawning failed with this operating-system error.
    SpawnFailed { error: String },
    /// The foreground daemon exited, with its exit code if it had one.
    ChildExited { code: Option<i32> },
    /// Waiting for the foreground daemon failed with this error.
    WaitFailed { error: String },
}

/// The mathematical model of a `StartEvent`.
pub enum StartEventModel {
    Probed { answered: bool },
    BinaryLocated { sibling: Option<Seq<char>>, sibling_exists: bool, fallback_exists: bool },
    Spawned { pid: u32 },
    SpawnFailed { error: Seq<char> },
    ChildExited { code: Option<i32> },
    WaitFailed { error: Seq<char> },
}

impl View for StartEvent {
    type V = StartEventModel;

    open spec fn view(&self) -> StartEventModel {
        match self {
            StartEvent::Probed { answered } => StartEventModel::Probed { answered: *answered },
            StartEvent::BinaryLocated { sibling, sibling_exists, fallback_exists } =>
                StartEventModel::BinaryLocated {
                    sibling: match sibling {
                        Some(s) => Some(s@),
                        None => None,
                    },
                    sibling_exists: *sibling_exists,
                    fallback_exists: *fallback_exists,
                },
            StartEvent::Spawned { pid } => StartEventModel::Spawned { pid: *pid },
            StartEvent::SpawnFailed { error } => StartEventModel::SpawnFailed { error: error@ },
            StartEvent::ChildExited { code } => StartEventModel::ChildExited { code: *code },
            StartEvent::WaitFailed { error } => StartEventModel::WaitFailed { error: error@ },
        }
    }
}

/// What the caller must do next.
#[derive(Debug, PartialEq, Eq)]
pub enum StartAction {
    /// Send a `Status` command through the remote dispatch client.
    SendProbe,
    /// Look for the daemon binary next to the running executable and at the
    /// fallback path.
    LocateBinary,
    /// Spawn the binary at `path`, with its standard streams sent to a null
    /// sink when `detach` holds.
    Spawn { path: String, detach: bool },
    /// Block until the spawned daemon terminates.
    WaitForChild,
    /// The protocol is over.
    Stop,
}

/// The mathematical model of a `StartAction`.
pub enum StartActionModel {
    SendProbe,
    LocateBinary,
    Spawn { path: Seq<char>, detach: bool },
    WaitForChild,
    Stop,
}

impl View for StartAction {
    type V = StartActionModel;

    open spec fn view(&self) -> StartActionModel {
        match self {
            StartAction::SendProbe => StartActionModel::SendProbe,
            StartAction::LocateBinary => StartActionModel::LocateBinary,
            StartAction::Spawn { path, detach } => StartActionModel::Spawn { path: path@, detach: *detach },
            StartAction::WaitForChild => StartActionModel::WaitForChild,
            StartAction::Stop => StartActionModel::Stop,
        }
    }
}

/// The result of one step: the next state, the next action, and the lines
/// that report what happened.
#[derive(Debug)]
pub struct StartStep {
    pub protocol: StartProtocol,
    pub action: StartAction,
    pub lines: Vec<Line>,
}

/// The model of one step: next state, next action, and the outcome reported.
pub struct Transition {
    pub next: StartProtocol,
    pub action: StartActionModel,
    pub report: Option<OutcomeModel>,
}

/// The name of the daemon's executable.
pub open spec fn daemon_binary_name_spec() -> Seq<char> {
    "symphony-management-service"@
}

/// The path used when no binary stands next to the running executable.
pub open spec fn fallback_binary_path_spec() -> Seq<char> {
    "./target/release/symphony-management-service"@
}

/// The name of the daemon's executable, which is looked for next to the
/// running executable.
pub fn daemon_binary_name() -> (r: &'static str)
    ensures
        r@ == daemon_binary_name_spec(),
{
    "symphony-management-service"
}

/// The path of the daemon binary used when none stands next to the running
/// executable.
pub fn fallback_binary_path() -> (r: String)
    ensures
        r@ == fallback_binary_path_spec(),
{
    String::from_str("./target/release/symphony-management-service")
}

/// The lines of an optional report.
pub open spec fn report_lines(report: Option<OutcomeModel>, json: bool) -> Seq<(Stream, Seq<char>)> {
    match report {
        Some(o) => rendering(o, json),
        None => Seq::empty(),
    }
}

/// The protocol in a given phase, with its options kept.
pub open spec fn in_phase(p: StartProtocol, phase: StartPhase) -> StartProtocol {
    StartProtocol { phase, daemonize: p.daemonize, json: p.json }
}

/// Ends the protocol, reporting `report`.
pub open spec fn finish(p: StartProtocol, report: Option<OutcomeModel>) -> Transition {
    Transition { next: in_phase(p, StartPhase::Finished), action: StartActionModel::Stop, report }
}

/// One step of the start protocol. An event that does not belong to the
/// current phase ends the protocol without a report.
pub open spec fn transition(p: StartProtocol, e: StartEventModel) -> Transition {
    match p.phase {
        StartPhase::Probing => match e {
            StartEventModel::Probed { answered } => if answered {
                finish(p, Some(OutcomeModel::AlreadyRunning))
            } else {
                Transition {
                    next: in_phase(p, StartPhase::ResolvingBinary),
                    action: StartActionModel::LocateBinary,
                    report: None,
                }
            },
            _ => finish(p, None),
        },
        StartPhase::ResolvingBinary => match e {
            StartEventModel::BinaryLocated { sibling, sibling_exists, fallback_exists } =>
                if sibling is Some && sibling_exists {
                    Transition {
                        next: in_phase(p, StartPhase::Spawning),
                        action: StartActionModel::Spawn { path: sibling->0, detach: p.daemonize },
                        report: None,
                    }
                } else if fallback_exists {
                    Transition {
                        next: in_phase(p, StartPhase::Spawning),
                        action: StartActionModel::Spawn {
                            path: fallback_binary_path_spec(),
                            detach: p.daemonize,
                        },
                        report: None,
                    }
                } else {
                    finish(p, Some(OutcomeModel::BinaryNotFound { path: fallback_binary_path_spec() }))
                },
            _ => finish(p, None),
        },
        StartPhase::Spawning => match e {
            StartEventModel::Spawned { pid } => if p.daemonize {
                finish(p, Some(OutcomeModel::Detached { pid }))
            } else {
                Transition {
                    next: in_phase(p, StartPhase::ForegroundWaiting),
                    action: StartActionModel::WaitForChild,
                    report: Some(OutcomeModel::Starting { pid }),
                }
            },
            StartEventModel::SpawnFailed { error } => finish(p, Some(OutcomeModel::SpawnFailed { error })),
            _ => finish(p, None),
        },
        StartPhase::ForegroundWaiting => match e {
            StartEventModel::ChildExited { code } => finish(p, Some(OutcomeModel::Exited { code })),
            StartEventModel::WaitFailed { error } => finish(p, Some(OutcomeModel::WaitFailed { error })),
            _ => finish(p, None),
        },
        StartPhase::Finished => finish(p, None),
    }
}

/// Whether a step of the library matches the model transition from `p` on `e`.
pub open spec fn step_matches(p: StartProtocol, e: StartEventModel, s: StartStep) -> bool {
    let t = transition(p, e);
    &&& s.protocol == t.next
    &&& s.action@ == t.action
    &&& lines_view(s.lines@) == report_lines(t.report, p.json)
}

impl StartProtocol {
    /// Begins the start protocol: its first action is the status probe.
    pub fn begin(daemonize: bool, json: bool) -> (r: StartStep)
        ensures
            r.protocol == (StartProtocol { phase: StartPhase::Probing, daemonize, json }),
            r.action@ == StartActionModel::SendProbe,
            r.lines@.len() == 0,
    {
        StartStep {
            protocol: StartProtocol { phase: StartPhase::Probing, daemonize, json },
            action: StartAction::SendProbe,
            lines: Vec::new(),
        }
    }

    fn finished(self) -> (r: StartProtocol)
        ensures
            r == in_phase(self, StartPhase::Finished),
    {
        StartProtocol { phase: StartPhase::Finished, daemonize: self.daemonize, json: self.json }
    }

    fn report_and_stop(self, outcome: Outcome) -> (r: StartStep)
        ensures
            r.protocol == in_phase(self, StartPhase::Finished),
            r.action@ == StartActionModel::Stop,
            lines_view(r.lines@) == rendering(outcome@, self.json),
    {
        let lines = render(&outcome, self.json);
        StartStep { protocol: self.finished(), action: StartAction::Stop, lines }
    }

    fn abandon(self) -> (r: StartStep)
        ensures
            r.protocol == in_phase(self, StartPhase::Finished),
            r.action@ == StartActionModel::Stop,
            r.lines@.len() == 0,
    {
        StartStep { protocol: self.finished(), action: StartAction::Stop, lines: Vec::new() }
    }

    /// Performs one step of the protocol on the event that the last action
    /// produced.
    pub fn step(self, event: StartEvent) -> (r: StartStep)
        ensures
            step_matches(self, event@, r),
    {
        let ghost e = event@;
        let r = match self.phase {
            StartPhase::Probing => match event {
                StartEvent::Probed { answered } => if answered {
                    self.report_and_stop(Outcome::AlreadyRunning)
                } else {
                    StartStep {
                        protocol: StartProtocol { phase: StartPhase::ResolvingBinary, daemonize: self.daemonize, json: self.json },
                        action: StartAction::LocateBinary,
                        lines: Vec::new(),
                    }
                },
                _ => self.abandon(),
            },
            StartPhase::ResolvingBinary => match event {
                StartEvent::BinaryLocated { sibling, sibling_exists, fallback_exists } => match sibling {
                    Some(path) if sibling_exists => StartStep {
                        protocol: StartProtocol { phase: StartPhase::Spawning, daemonize: self.daemonize, json: self.json },
                        action: StartAction::Spawn { path, detach: self.daemonize },
                        lines: Vec::new(),
                    },
                    _ => if fallback_exists {
                        StartStep {
                            protocol: StartProtocol { phase: StartPhase::Spawning, daemonize: self.daemonize, json: self.json },
                            action: StartAction::Spawn { path: fallback_binary_path(), detach: self.daemonize },
                            lines: Vec::new(),
                        }
                    } else {
                        self.report_and_stop(Outcome::BinaryNotFound { path: fallback_binary_path() })
                    },
                },
                _ => self.abandon(),
            },
            StartPhase::Spawning => match event {
                StartEvent::Spawned { pid } => if self.daemonize {
                    self.report_and_stop(Outcome::Detached { pid })
                } else {
                    let starting = Outcome::Starting { pid };
                    let lines = render(&starting, self.json);
                    StartStep {
                        protocol: StartProtocol { phase: StartPhase::ForegroundWaiting, daemonize: self.daemonize, json: self.json },
                        action: StartAction::WaitForChild,
                        lines,
                    }
                },
                StartEvent::SpawnFailed { error } => self.report_and_stop(Outcome::SpawnFailed { error }),
                _ => self.abandon(),
            },
            StartPhase::ForegroundWaiting => match event {
                StartEvent::ChildExited { code } => self.report_and_stop(Outcome::Exited { code }),
                StartEvent::WaitFailed { error } => self.report_and_stop(Outcome::WaitFailed { error }),
                _ => self.abandon(),
            },
            StartPhase::Finished => self.abandon(),
        };
        proof {
            if r.lines@.len() == 0 {
                assert(lines_view(r.lines@) =~= Seq::empty());
            }
        }
        r
    }
}

} // verus!
