//! The command line: a flat vocabulary of subcommands, each routed to its plan.

use vstd::prelude::*;

use crate::command::words;
use crate::config::Config;
use crate::failure::Failure;
use crate::stages::{
    bundle_run, is_bundle_plan, is_launch_run_plan, is_smoke_plan, sim_launch, sim_smoke,
};
use crate::steps::{Action, Notice, Policy, Step};

verus! {

/// What the command line asks for.
#[derive(Debug, Clone, PartialEq, Eq)]
pub enum Subcommand {
    /// Print the usage text.
    Help,
    /// Build the runner and the host app.
    SimSmoke,
    /// Build, then install and launch in the simulator.
    SimLaunch,
    /// Delegate to the bundler, passing these arguments through.
    RunBundle(Vec<String>),
}

/// The words that ask for help.
pub open spec fn is_help_word(w: Seq<char>) -> bool {
    w == "help"@ || w == "-h"@ || w == "--help"@
}

/// The argument vectors that name a subcommand.
pub open spec fn recognized(ws: Seq<Seq<char>>) -> bool {
    ||| ws.len() == 0
    ||| ws.len() == 1 && is_help_word(ws[0])
    ||| ws.len() == 1 && ws[0] == "ios-sim-smoke"@
    ||| ws.len() == 1 && ws[0] == "ios-sim-launch"@
    ||| ws.len() >= 1 && ws[0] == "ios-run-bundle"@
}

fn is_word(s: &String, w: &str) -> (r: bool)
    ensures
        r == (s@ == w@),
{
    let t = String::from_str(w);
    *s == t
}

/// Reads the subcommand from the arguments after the program name.
pub fn parse_args(args: Vec<String>) -> (r: Result<Subcommand, Failure>)
    ensures
        ({
            let ws = words(args@);
            &&& (ws.len() == 0 || ws.len() == 1 && is_help_word(ws[0])) ==> (r is Ok && r->Ok_0 is Help)
            &&& ws.len() == 1 && ws[0] == "ios-sim-smoke"@ ==> (r is Ok && r->Ok_0 is SimSmoke)
            &&& ws.len() == 1 && ws[0] == "ios-sim-launch"@ ==> (r is Ok && r->Ok_0 is SimLaunch)
            &&& ws.len() >= 1 && ws[0] == "ios-run-bundle"@ ==> r is Ok && r->Ok_0 is RunBundle
                && words(r->Ok_0->RunBundle_0@) == ws.drop_first()
            &&& !recognized(ws) ==> r == Err::<Subcommand, Failure>(
                Failure::InvalidArguments(args),
            )
        }),
{
    let ghost ws = words(args@);
    proof {
        reveal_strlit("help");
        reveal_strlit("-h");
        reveal_strlit("--help");
        reveal_strlit("ios-sim-smoke");
        reveal_strlit("ios-sim-launch");
        reveal_strlit("ios-run-bundle");
        assert("ios-run-bundle"@[4] != "ios-sim-launch"@[4]);
        assert("ios-run-bundle"@.len() != "ios-sim-smoke"@.len());
        assert("ios-run-bundle"@.len() != "help"@.len());
        assert("ios-run-bundle"@.len() != "-h"@.len());
        assert("ios-run-bundle"@.len() != "--help"@.len());
        assert(!is_help_word("ios-sim-smoke"@));
        assert(!is_help_word("ios-sim-launch"@));
        assert("ios-sim-smoke"@.len() != "ios-sim-launch"@.len());
    }
    let n = args.len();
    if n == 0 {
        return Ok(Subcommand::Help);
    }
    if is_word(&args[0], "ios-run-bundle") {
        let mut rest: Vec<String> = Vec::new();
        let mut i: usize = 1;
        while i < n
            invariant
                1 <= i <= n,
                n == args@.len(),
                rest@.len() == i - 1,
                forall|j: int| 1 <= j < i ==> rest@[j - 1]@ == #[trigger] args@[j]@,
            decreases n - i,
        {
            rest.push(args[i].clone());
            i = i + 1;
        }
        assert(words(rest@) =~= ws.drop_first());
        return Ok(Subcommand::RunBundle(rest));
    }
    if n == 1 {
        if is_word(&args[0], "help") || is_word(&args[0], "-h") || is_word(&args[0], "--help") {
            return Ok(Subcommand::Help);
        }
        if is_word(&args[0], "ios-sim-smoke") {
            return Ok(Subcommand::SimSmoke);
        }
        if is_word(&args[0], "ios-sim-launch") {
            return Ok(Subcommand::SimLaunch);
        }
    }
    Err(Failure::InvalidArguments(args))
}

/// Plans the subcommand. Every subcommand but help needs Xcode or the
/// simulator, so off macOS it plans nothing and fails at once.
pub fn plan_command(cmd: &Subcommand, host_is_macos: bool, root: &String, config: &Config) -> (r:
    Result<Vec<Step>, Failure>)
    ensures
        !(cmd is Help) && !host_is_macos ==> r == Err::<Vec<Step>, Failure>(
            Failure::PlatformUnsupported,
        ),
        cmd is Help ==> r is Ok && r->Ok_0@.len() == 1 && r->Ok_0@[0] == (Step {
            action: Action::Say(Notice::Help),
            policy: Policy::Ignorable,
        }),
        cmd is SimSmoke && host_is_macos ==> r is Ok && is_smoke_plan(r->Ok_0@, root@, *config),
        cmd is SimLaunch && host_is_macos ==> r is Ok && is_launch_run_plan(
            r->Ok_0@,
            root@,
            *config,
        ),
        cmd is RunBundle && host_is_macos ==> r is Ok && is_bundle_plan(
            r->Ok_0@,
            root@,
            *config,
            cmd->RunBundle_0@,
        ),
{
    match cmd {
        Subcommand::Help => Ok(
            vec![Step { action: Action::Say(Notice::Help), policy: Policy::Ignorable }],
        ),
        Subcommand::SimSmoke => sim_smoke(host_is_macos, root, config),
        Subcommand::SimLaunch => sim_launch(host_is_macos, root, config),
        Subcommand::RunBundle(extra) => bundle_run(host_is_macos, root, config, extra),
    }
}

} // verus!
