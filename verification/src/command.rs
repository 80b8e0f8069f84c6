//! What each command line asks the program to do.
use vstd::prelude::*;

use crate::text::text_eq;

verus! {

broadcast use vstd::string::group_string_axioms;

/// The action of the program's first argument.
#[derive(Debug, Clone, Copy, PartialEq, Eq, Structural)]
pub enum RunAction {
    /// `run`: serve HTTP.
    RunServer,
    /// `cron-job`: run a scheduled job.
    CronJob,
    /// `--help`: print usage.
    Help,
    /// Anything else: report it and exit with failure.
    Invalid,
}

/// The action that a first argument names.
pub open spec fn run_action_spec(first_arg: Seq<char>) -> RunAction {
    if first_arg == "run"@ {
        RunAction::RunServer
    } else if first_arg == "cron-job"@ {
        RunAction::CronJob
    } else if first_arg == "--help"@ {
        RunAction::Help
    } else {
        RunAction::Invalid
    }
}

/// Decides the action of the program's first argument.
pub fn run_command_action(first_arg: &str) -> (r: RunAction)
    ensures
        r == run_action_spec(first_arg@),
{
    if text_eq(first_arg, "run") {
        RunAction::RunServer
    } else if text_eq(first_arg, "cron-job") {
        RunAction::CronJob
    } else if text_eq(first_arg, "--help") {
        RunAction::Help
    } else {
        RunAction::Invalid
    }
}

/// `run` serves, `cron-job` runs a job, `--help` prints usage, and any
/// other first argument is invalid.
pub proof fn law_run_actions(first_arg: Seq<char>)
    ensures
        run_action_spec("run"@) == RunAction::RunServer,
        run_action_spec("cron-job"@) == RunAction::CronJob,
        run_action_spec("--help"@) == RunAction::Help,
        first_arg != "run"@ && first_arg != "cron-job"@ && first_arg != "--help"@
            ==> run_action_spec(first_arg) == RunAction::Invalid,
{
    reveal_strlit("run");
    reveal_strlit("cron-job");
    reveal_strlit("--help");
    assert("cron-job"@ != "run"@) by {
        assert("cron-job"@.len() != "run"@.len());
    }
    assert("--help"@ != "run"@) by {
        assert("--help"@.len() != "run"@.len());
    }
    assert("--help"@ != "cron-job"@) by {
        assert("--help"@.len() != "cron-job"@.len());
    }
}

/// The action of a `cron` command.
#[derive(Debug, Clone, Copy, PartialEq, Eq, Structural)]
pub enum CronAction {
    /// `meal`: scrape the meal board.
    Meal,
    /// `ios-activity <key>`: push live activity updates.
    IosActivity,
    /// `ios-activity` without a key: report it and exit with failure.
    MissingKey,
    /// `--help`: print usage.
    Help,
    /// Anything else: report it and exit with failure.
    Invalid,
}

/// The action that a `cron` target and its key name.
pub open spec fn cron_action_spec(target: Seq<char>, key: Seq<char>) -> CronAction {
    if target == "meal"@ {
        CronAction::Meal
    } else if target == "ios-activity"@ {
        if key.len() == 0 {
            CronAction::MissingKey
        } else {
            CronAction::IosActivity
        }
    } else if target == "--help"@ {
        CronAction::Help
    } else {
        CronAction::Invalid
    }
}

/// `cron meal` scrapes, `cron --help` prints usage, `cron ios-activity`
/// pushes when a key follows and reports the missing key when it is empty,
/// and any other target is invalid; only `ios-activity` looks at the key.
pub proof fn law_cron_actions(target: Seq<char>, key: Seq<char>)
    ensures
        cron_action_spec("meal"@, key) == CronAction::Meal,
        cron_action_spec("--help"@, key) == CronAction::Help,
        cron_action_spec("ios-activity"@, key) == (if key.len() == 0 {
            CronAction::MissingKey
        } else {
            CronAction::IosActivity
        }),
        target != "meal"@ && target != "--help"@ && target != "ios-activity"@
            ==> cron_action_spec(target, key) == CronAction::Invalid,
{
    reveal_strlit("meal");
    reveal_strlit("--help");
    reveal_strlit("ios-activity");
    assert("--help"@ != "meal"@) by {
        assert("--help"@.len() != "meal"@.len());
    }
    assert("ios-activity"@ != "meal"@) by {
        assert("ios-activity"@.len() != "meal"@.len());
    }
    assert("--help"@ != "ios-activity"@) by {
        assert("--help"@.len() != "ios-activity"@.len());
    }
}

/// Decides the action of a `cron` command.
pub fn cron_command_action(target: &str, key: &str) -> (r: CronAction)
    ensures
        r == cron_action_spec(target@, key@),
{
    if text_eq(target, "meal") {
        CronAction::Meal
    } else if text_eq(target, "ios-activity") {
        if key.is_empty() {
            CronAction::MissingKey
        } else {
            CronAction::IosActivity
        }
    } else if text_eq(target, "--help") {
        CronAction::Help
    } else {
        CronAction::Invalid
    }
}

/// The action of a `cron-job` command.
#[derive(Debug, Clone, Copy, PartialEq, Eq, Structural)]
pub enum CronJobAction {
    /// `ios-activity <token>`: push live activity updates.
    IosActivity,
    /// `ios-activity` without a token: report it and exit with failure.
    MissingToken,
    /// `--help`: print usage.
    Help,
    /// Anything else: report it and exit with failure.
    Invalid,
}

/// The action that a `cron-job` target and its token name.
pub open spec fn cron_job_action_spec(target: Seq<char>, token: Seq<char>) -> CronJobAction {
    if target == "ios-activity"@ {
        if token.len() == 0 {
            CronJobAction::MissingToken
        } else {
            CronJobAction::IosActivity
        }
    } else if target == "--help"@ {
        CronJobAction::Help
    } else {
        CronJobAction::Invalid
    }
}

/// Decides the action of a `cron-job` command.
pub fn cron_job_command_action(target: &str, token: &str) -> (r: CronJobAction)
    ensures
        r == cron_job_action_spec(target@, token@),
{
    if text_eq(target, "ios-activity") {
        if token.is_empty() {
            CronJobAction::MissingToken
        } else {
            CronJobAction::IosActivity
        }
    } else if text_eq(target, "--help") {
        CronJobAction::Help
    } else {
        CronJobAction::Invalid
    }
}

/// `cron-job --help` prints usage whatever follows; `cron-job ios-activity`
/// pushes when a token follows and reports the missing token when it is
/// empty; any other target is invalid.
pub proof fn law_cron_job_actions(target: Seq<char>, token: Seq<char>)
    ensures
        cron_job_action_spec("--help"@, token) == CronJobAction::Help,
        cron_job_action_spec("ios-activity"@, token) == (if token.len() == 0 {
            CronJobAction::MissingToken
        } else {
            CronJobAction::IosActivity
        }),
        target != "--help"@ && target != "ios-activity"@ ==> cron_job_action_spec(target, token)
            == CronJobAction::Invalid,
{
    reveal_strlit("--help");
    reveal_strlit("ios-activity");
    assert("--help"@ != "ios-activity"@) by {
        assert("--help"@.len() != "ios-activity"@.len());
    }
}

/// The action of a `debug` command.
#[derive(Debug, Clone, Copy, PartialEq, Eq, Structural)]
pub enum DebugAction {
    /// `ios-activity <key> <device> <type> <menu> <date>`: push one update.
    SendActivity,
    /// `ios-activity` with an empty or missing argument: report it and exit
    /// with failure.
    MissingArguments,
    /// `--help`: print usage.
    Help,
    /// Anything else: report it and exit with failure.
    Invalid,
}

/// The action that a `debug` target and its five arguments name.
pub open spec fn debug_action_spec(target: Seq<char>, args: Seq<Seq<char>>) -> DebugAction {
    if target == "ios-activity"@ {
        if exists|i: int| 0 <= i < args.len() && #[trigger] args[i].len() == 0 {
            DebugAction::MissingArguments
        } else {
            DebugAction::SendActivity
        }
    } else if target == "--help"@ {
        DebugAction::Help
    } else {
        DebugAction::Invalid
    }
}

/// `debug ios-activity` sends exactly when all five arguments are
/// non-empty and otherwise reports missing arguments; `debug --help` prints
/// usage whatever follows; any other target is invalid.
pub proof fn law_debug_actions(
    target: Seq<char>,
    key: Seq<char>,
    device: Seq<char>,
    meal_type: Seq<char>,
    menu: Seq<char>,
    date: Seq<char>,
)
    ensures
        debug_action_spec("ios-activity"@, seq![key, device, meal_type, menu, date]) == (if key.len()
            > 0 && device.len() > 0 && meal_type.len() > 0 && menu.len() > 0 && date.len() > 0 {
            DebugAction::SendActivity
        } else {
            DebugAction::MissingArguments
        }),
        debug_action_spec("--help"@, seq![key, device, meal_type, menu, date]) == DebugAction::Help,
        target != "--help"@ && target != "ios-activity"@ ==> debug_action_spec(
            target,
            seq![key, device, meal_type, menu, date],
        ) == DebugAction::Invalid,
{
    reveal_strlit("--help");
    reveal_strlit("ios-activity");
    assert("--help"@ != "ios-activity"@) by {
        assert("--help"@.len() != "ios-activity"@.len());
    }
    let args = seq![key, device, meal_type, menu, date];
    if key.len() == 0 {
        assert(args[0].len() == 0);
    } else if device.len() == 0 {
        assert(args[1].len() == 0);
    } else if meal_type.len() == 0 {
        assert(args[2].len() == 0);
    } else if menu.len() == 0 {
        assert(args[3].len() == 0);
    } else if date.len() == 0 {
        assert(args[4].len() == 0);
    } else {
        assert forall|i: int| 0 <= i < args.len() implies #[trigger] args[i].len() != 0 by {
            if i == 0 {
            } else if i == 1 {
            } else if i == 2 {
            } else if i == 3 {
            } else {
            }
        }
    }
}

/// Decides the action of a `debug` command from its target and the private
/// key, device token, meal type, menu and date arguments.
pub fn debug_command_action(
    target: &str,
    private_key: &str,
    device_token: &str,
    meal_type: &str,
    menu: &str,
    date: &str,
) -> (r: DebugAction)
    ensures
        r == debug_action_spec(
            target@,
            seq![private_key@, device_token@, meal_type@, menu@, date@],
        ),
{
    let ghost args = seq![private_key@, device_token@, meal_type@, menu@, date@];
    if text_eq(target, "ios-activity") {
        if private_key.is_empty() || device_token.is_empty() || meal_type.is_empty()
            || menu.is_empty() || date.is_empty() {
            proof {
                if private_key@.len() == 0 {
                    assert(args[0].len() == 0);
                } else if device_token@.len() == 0 {
                    assert(args[1].len() == 0);
                } else if meal_type@.len() == 0 {
                    assert(args[2].len() == 0);
                } else if menu@.len() == 0 {
                    assert(args[3].len() == 0);
                } else {
                    assert(args[4].len() == 0);
                }
            }
            DebugAction::MissingArguments
        } else {
            proof {
                assert forall|i: int| 0 <= i < args.len() implies #[trigger] args[i].len() != 0 by {
                    if i == 0 {
                    } else if i == 1 {
                    } else if i == 2 {
                    } else if i == 3 {
                    } else {
                    }
                }
            }
            DebugAction::SendActivity
        }
    } else if text_eq(target, "--help") {
        DebugAction::Help
    } else {
        DebugAction::Invalid
    }
}

} // verus!
