//! Laws of the library, stated over its models and proved.

use vstd::prelude::*;
use crate::command::{route_of, CliArgs, Route};
use crate::render::{rendering, OutcomeModel, Stream};
use crate::start::{
    fallback_binary_path_spec, transition, StartActionModel, StartEventModel, StartPhase,
    StartProtocol,
};

verus! {

/// Starting a daemon that already answers the probe spawns nothing: the
/// protocol reports "already running" and stops, and from then on every
/// event only stops it again.
pub proof fn start_is_idempotent(p: StartProtocol)
    requires
        p.phase == StartPhase::Probing,
    ensures
        ({
            let t = transition(p, StartEventModel::Probed { answered: true });
            &&& t.action == StartActionModel::Stop
            &&& t.report == Some(OutcomeModel::AlreadyRunning)
            &&& t.next.phase == StartPhase::Finished
            &&& forall|e: StartEventModel| #[trigger] transition(t.next, e).action == StartActionModel::Stop
        }),
{
}

/// A binary next to the running executable is spawned in preference to the
/// fallback path, whether or not the fallback exists.
pub proof fn sibling_binary_is_preferred(p: StartProtocol, sibling: Seq<char>, fallback_exists: bool)
    requires
        p.phase == StartPhase::ResolvingBinary,
    ensures
        transition(
            p,
            StartEventModel::BinaryLocated { sibling: Some(sibling), sibling_exists: true, fallback_exists },
        ).action == (StartActionModel::Spawn { path: sibling, detach: p.daemonize }),
{
}

/// When neither candidate binary exists, the protocol reports the missing
/// binary at the fallback path and stops without spawning.
pub proof fn missing_binary_is_reported(
    p: StartProtocol,
    sibling: Option<Seq<char>>,
    sibling_exists: bool,
)
    requires
        p.phase == StartPhase::ResolvingBinary,
        !(sibling is Some && sibling_exists),
    ensures
        ({
            let t = transition(
                p,
                StartEventModel::BinaryLocated { sibling, sibling_exists, fallback_exists: false },
            );
            &&& t.action == StartActionModel::Stop
            &&& t.report == Some(OutcomeModel::BinaryNotFound { path: fallback_binary_path_spec() })
            &&& t.next.phase == StartPhase::Finished
        }),
{
}

/// A daemonized start reports the process id and stops without waiting.
pub proof fn daemonized_start_returns_at_once(p: StartProtocol, pid: u32)
    requires
        p.phase == StartPhase::Spawning,
        p.daemonize,
    ensures
        ({
            let t = transition(p, StartEventModel::Spawned { pid });
            &&& t.action == StartActionModel::Stop
            &&& t.report == Some(OutcomeModel::Detached { pid })
        }),
{
}

/// A foreground start reports the process id, waits for the daemon, and
/// then reports its exit code, absent or not.
pub proof fn foreground_start_waits_for_exit(p: StartProtocol, pid: u32, code: Option<i32>)
    requires
        p.phase == StartPhase::Spawning,
        !p.daemonize,
    ensures
        ({
            let t1 = transition(p, StartEventModel::Spawned { pid });
            let t2 = transition(t1.next, StartEventModel::ChildExited { code });
            &&& t1.action == StartActionModel::WaitForChild
            &&& t1.report == Some(OutcomeModel::Starting { pid })
            &&& t2.action == StartActionModel::Stop
            &&& t2.report == Some(OutcomeModel::Exited { code })
        }),
{
}

/// In structured mode every outcome is one line on standard output, and
/// every outcome but a dispatched payload (which the daemon formats) is a
/// JSON object. In human mode failures go to standard error, each line
/// starting with `Error: `, and everything else goes to standard output.
pub proof fn output_modes_are_symmetric(o: OutcomeModel, json: bool)
    ensures
        ({
            let r = rendering(o, json);
            &&& r.len() >= 1
            &&& json ==> {
                &&& r.len() == 1
                &&& r[0].0 == Stream::Stdout
                &&& !(o is Dispatched) ==> {
                    &&& r[0].1.len() >= 2
                    &&& r[0].1[0] == '{'
                    &&& r[0].1.last() == '}'
                }
            }
            &&& !json && o.is_failure() ==> forall|i: int|
                0 <= i < r.len() ==> #[trigger] r[i].0 == Stream::Stderr && "Error: "@.is_prefix_of(r[i].1)
            &&& !json && !o.is_failure() ==> forall|i: int|
                0 <= i < r.len() ==> #[trigger] r[i].0 == Stream::Stdout
        }),
{
    reveal_strlit("{\"message\":");
    reveal_strlit("{\"exit_code\":");
    reveal_strlit("{\"error\":");
    reveal_strlit("}");
    let r = rendering(o, json);
    if !json && o.is_failure() {
        assert(r.len() == 1);
        assert("Error: "@.len() == 7) by {
            reveal_strlit("Error: ");
        }
        assert(r[0].1.subrange(0, 7) =~= "Error: "@);
    }
}

/// Every command but `StartService` goes to the remote dispatch client
/// exactly once, with the command and the output mode unchanged; a
/// `StartService` goes to the start protocol with its option.
pub proof fn routing_is_complete(args: CliArgs)
    ensures
        args.command is StartService ==> route_of(args) == (Route::Start {
            daemonize: args.command->StartService_daemonize,
            json: args.json,
        }),
        !(args.command is StartService) ==> route_of(args) == (Route::Dispatch {
            command: args.command,
            json: args.json,
        }),
{
}

} // verus!
