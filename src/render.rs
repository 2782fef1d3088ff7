//! The outcomes that an invocation reports, and their rendering as lines on
//! standard output or standard error, in structured (JSON) or human mode.

use vstd::prelude::*;
use vstd::string::*;
use crate::text::{decimal, json_string_literal, push_decimal, push_signed_decimal, quote, signed_decimal};

verus! {

/// The stream a line is written to.
#[derive(Clone, Copy, Debug, PartialEq, Eq, Structural)]
pub enum Stream {
    Stdout,
    Stderr,
}

/// One line of terminal output.
#[derive(Debug)]
pub struct Line {
    pub stream: Stream,
    pub text: String,
}

impl View for Line {
    type V = (Stream, Seq<char>);

    open spec fn view(&self) -> (Stream, Seq<char>) {
        (self.stream, self.text@)
    }
}

/// The views of a sequence of lines.
pub open spec fn lines_view(lines: Seq<Line>) -> Seq<(Stream, Seq<char>)> {
    lines.map_values(|l: Line| l@)
}

/// Everything an invocation can report: the terminal states of the start
/// protocol, the notice of a foreground start, and the reply of a remote
/// dispatch.
#[derive(Debug)]
pub enum Outcome {
    AlreadyRunning,
    BinaryNotFound { path: String },
    SpawnFailed { error: String },
    Detached { pid: u32 },
    Starting { pid: u32 },
    Exited { code: Option<i32> },
    WaitFailed { error: String },
    DispatchFailed { error: String },
    Dispatched { payload: String },
}

/// The mathematical model of an `Outcome`.
pub enum OutcomeModel {
    AlreadyRunning,
    BinaryNotFound { path: Seq<char> },
    SpawnFailed { error: Seq<char> },
    Detached { pid: u32 },
    Starting { pid: u32 },
    Exited { code: Option<i32> },
    WaitFailed { error: Seq<char> },
    DispatchFailed { error: Seq<char> },
    Dispatched { payload: Seq<char> },
}

impl View for Outcome {
    type V = OutcomeModel;

    open spec fn view(&self) -> OutcomeModel {
        match self {
            Outcome::AlreadyRunning => OutcomeModel::AlreadyRunning,
            Outcome::BinaryNotFound { path } => OutcomeModel::BinaryNotFound { path: path@ },
            Outcome::SpawnFailed { error } => OutcomeModel::SpawnFailed { error: error@ },
            Outcome::Detached { pid } => OutcomeModel::Detached { pid: *pid },
            Outcome::Starting { pid } => OutcomeModel::Starting { pid: *pid },
            Outcome::Exited { code } => OutcomeModel::Exited { code: *code },
            Outcome::WaitFailed { error } => OutcomeModel::WaitFailed { error: error@ },
            Outcome::DispatchFailed { error } => OutcomeModel::DispatchFailed { error: error@ },
            Outcome::Dispatched { payload } => OutcomeModel::Dispatched { payload: payload@ },
        }
    }
}

impl OutcomeModel {
    /// The failure kinds: a missing binary, a failed spawn, a failed wait and
    /// a failed dispatch.
    pub open spec fn is_failure(self) -> bool {
        match self {
            OutcomeModel::BinaryNotFound { .. } => true,
            OutcomeModel::SpawnFailed { .. } => true,
            OutcomeModel::WaitFailed { .. } => true,
            OutcomeModel::DispatchFailed { .. } => true,
            _ => false,
        }
    }
}

/// `{"message":<message>,"status":<status>}`
pub open spec fn status_json(status: Seq<char>, message: Seq<char>) -> Seq<char> {
    "{\"message\":"@ + json_string_literal(message) + ",\"status\":"@ + json_string_literal(status)
        + "}"@
}

/// `{"message":<message>,"pid":<pid>,"status":<status>}`
pub open spec fn pid_json(status: Seq<char>, message: Seq<char>, pid: u32) -> Seq<char> {
    "{\"message\":"@ + json_string_literal(message) + ",\"pid\":"@ + decimal(pid as nat)
        + ",\"status\":"@ + json_string_literal(status) + "}"@
}

/// An exit code as a JSON value: a number, or null when there is none.
pub open spec fn code_json(code: Option<i32>) -> Seq<char> {
    match code {
        Some(c) => signed_decimal(c as int),
        None => "null"@,
    }
}

/// An exit code in Rust's debug notation: `Some(<n>)` or `None`.
pub open spec fn code_debug(code: Option<i32>) -> Seq<char> {
    match code {
        Some(c) => "Some("@ + signed_decimal(c as int) + ")"@,
        None => "None"@,
    }
}

/// A supervisor failure: a status object on standard output in structured
/// mode, `Error: <message>` on standard error in human mode.
pub open spec fn failure_lines(json: bool, message: Seq<char>) -> Seq<(Stream, Seq<char>)> {
    if json {
        seq![(Stream::Stdout, status_json("error"@, message))]
    } else {
        seq![(Stream::Stderr, "Error: "@ + message)]
    }
}

/// The message reported when the daemon binary is missing.
pub open spec fn missing_binary_message(path: Seq<char>) -> Seq<char> {
    "Could not find symphony-management-service binary at: "@ + path
}

/// The message reported when the daemon could not be spawned.
pub open spec fn spawn_failed_message(error: Seq<char>) -> Seq<char> {
    "Failed to start service: "@ + error
}

/// The message reported when waiting for the daemon failed.
pub open spec fn wait_failed_message(error: Seq<char>) -> Seq<char> {
    "Failed to wait for service: "@ + error
}

/// The lines that report an outcome in the given output mode.
pub open spec fn rendering(o: OutcomeModel, json: bool) -> Seq<(Stream, Seq<char>)> {
    match o {
        OutcomeModel::AlreadyRunning => if json {
            seq![(Stream::Stdout, status_json("already_running"@, "Service is already running"@))]
        } else {
            seq![(Stream::Stdout, "Service is already running."@)]
        },
        OutcomeModel::BinaryNotFound { path } => failure_lines(json, missing_binary_message(path)),
        OutcomeModel::SpawnFailed { error } => failure_lines(json, spawn_failed_message(error)),
        OutcomeModel::Detached { pid } => if json {
            seq![(Stream::Stdout, pid_json("started"@, "Service started in background"@, pid))]
        } else {
            seq![(Stream::Stdout, "✓ Service started in background (PID: "@ + decimal(pid as nat) + ")"@)]
        },
        OutcomeModel::Starting { pid } => if json {
            seq![(Stream::Stdout, pid_json("starting"@, "Service starting..."@, pid))]
        } else {
            seq![
                (Stream::Stdout, "✓ Service starting... (PID: "@ + decimal(pid as nat) + ")"@),
                (Stream::Stdout, "Press Ctrl+C to stop the service"@),
            ]
        },
        OutcomeModel::Exited { code } => if json {
            seq![(Stream::Stdout, "{\"exit_code\":"@ + code_json(code) + ",\"status\":"@
                + json_string_literal("exited"@) + "}"@)]
        } else {
            seq![(Stream::Stdout, "Service exited with code: "@ + code_debug(code))]
        },
        OutcomeModel::WaitFailed { error } => failure_lines(json, wait_failed_message(error)),
        OutcomeModel::DispatchFailed { error } => if json {
            seq![(Stream::Stdout, "{\"error\":"@ + json_string_literal(error) + "}"@)]
        } else {
            seq![(Stream::Stderr, "Error: "@ + error)]
        },
        OutcomeModel::Dispatched { payload } => seq![(Stream::Stdout, payload)],
    }
}

fn one_line(stream: Stream, text: String) -> (r: Vec<Line>)
    ensures
        lines_view(r@) == seq![(stream, text@)],
{
    let r = vec![Line { stream, text }];
    assert(lines_view(r@) =~= seq![(stream, r@[0].text@)]);
    r
}

fn status_object(status: &str, message: &str) -> (r: String)
    ensures
        r@ == status_json(status@, message@),
{
    let mut s = String::from_str("{\"message\":");
    s.append(quote(message).as_str());
    s.append(",\"status\":");
    s.append(quote(status).as_str());
    s.append("}");
    s
}

fn pid_object(status: &str, message: &str, pid: u32) -> (r: String)
    ensures
        r@ == pid_json(status@, message@, pid),
{
    let mut s = String::from_str("{\"message\":");
    s.append(quote(message).as_str());
    s.append(",\"pid\":");
    push_decimal(&mut s, pid as u64);
    s.append(",\"status\":");
    s.append(quote(status).as_str());
    s.append("}");
    s
}

fn failure(json: bool, message: String) -> (r: Vec<Line>)
    ensures
        lines_view(r@) == failure_lines(json, message@),
{
    if json {
        one_line(Stream::Stdout, status_object("error", message.as_str()))
    } else {
        let mut s = String::from_str("Error: ");
        s.append(message.as_str());
        one_line(Stream::Stderr, s)
    }
}

fn prefixed(prefix: &str, rest: &String) -> (r: String)
    ensures
        r@ == prefix@ + rest@,
{
    let mut s = String::from_str(prefix);
    s.append(rest.as_str());
    s
}

/// Renders an outcome as the lines to print, in structured mode when `json`
/// holds and in human mode otherwise.
pub fn render(outcome: &Outcome, json: bool) -> (r: Vec<Line>)
    ensures
        lines_view(r@) == rendering(outcome@, json),
{
    match outcome {
        Outcome::AlreadyRunning => if json {
            one_line(Stream::Stdout, status_object("already_running", "Service is already running"))
        } else {
            one_line(Stream::Stdout, String::from_str("Service is already running."))
        },
        Outcome::BinaryNotFound { path } => failure(
            json,
            prefixed("Could not find symphony-management-service binary at: ", path),
        ),
        Outcome::SpawnFailed { error } => failure(json, prefixed("Failed to start service: ", error)),
        Outcome::Detached { pid } => if json {
            one_line(Stream::Stdout, pid_object("started", "Service started in background", *pid))
        } else {
            let mut s = String::from_str("✓ Service started in background (PID: ");
            push_decimal(&mut s, *pid as u64);
            s.append(")");
            one_line(Stream::Stdout, s)
        },
        Outcome::Starting { pid } => if json {
            one_line(Stream::Stdout, pid_object("starting", "Service starting...", *pid))
        } else {
            let mut s = String::from_str("✓ Service starting... (PID: ");
            push_decimal(&mut s, *pid as u64);
            s.append(")");
            let hint = String::from_str("Press Ctrl+C to stop the service");
            let r = vec![Line { stream: Stream::Stdout, text: s }, Line { stream: Stream::Stdout, text: hint }];
            assert(lines_view(r@) =~= rendering(outcome@, json));
            r
        },
        Outcome::Exited { code } => if json {
            let mut s = String::from_str("{\"exit_code\":");
            match code {
                Some(c) => push_signed_decimal(&mut s, *c),
                None => s.append("null"),
            }
            s.append(",\"status\":");
            s.append(quote("exited").as_str());
            s.append("}");
            assert(s@ =~= rendering(outcome@, json)[0].1);
            one_line(Stream::Stdout, s)
        } else {
            let mut s = String::from_str("Service exited with code: ");
            match code {
                Some(c) => {
                    s.append("Some(");
                    push_signed_decimal(&mut s, *c);
                    s.append(")");
                },
                None => s.append("None"),
            }
            assert(s@ =~= rendering(outcome@, json)[0].1);
            one_line(Stream::Stdout, s)
        },
        Outcome::WaitFailed { error } => failure(json, prefixed("Failed to wait for service: ", error)),
        Outcome::DispatchFailed { error } => if json {
            let mut s = String::from_str("{\"error\":");
            s.append(quote(error.as_str()).as_str());
            s.append("}");
            one_line(Stream::Stdout, s)
        } else {
            one_line(Stream::Stderr, prefixed("Error: ", error))
        },
        Outcome::Dispatched { payload } => one_line(Stream::Stdout, payload.clone()),
    }
}

} // verus!
