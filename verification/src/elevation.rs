//! Running as administrator: what saving the option, starting up and the
//! tray menu do about it.
//!
//! With the option on, the program starts at login through an elevated
//! scheduled task instead of the `Run` registry value, so that its keyboard
//! hook also reaches elevated windows. A process without administrator rights
//! cannot create such a task: it saves the option and relaunches itself
//! elevated, and the elevated instance sets the task up when it starts.

use vstd::prelude::*;
use crate::panel::{autostart_change, AutostartChange};
use crate::text::{chars_of, same_chars, string_from_chars};

verus! {

/// Name of the scheduled task that starts the program elevated at login.
pub const ELEVATED_TASK: &'static str = "CapIMESwitchElevated";
/// Name of the one-off task through which an elevated instance relaunches
/// the program without administrator rights.
pub const DROP_TASK: &'static str = "CapIMESwitchDeElevateTemp";
/// Command-line flag of an instance started by a relaunch.
pub const RESTART_FLAG: &'static str = "--restart";
/// How long a relaunched instance waits for the previous one to exit.
pub const RESTART_WAIT_MS: u32 = 15000;

/// What has to happen to the elevated start-at-login task.
#[derive(Debug, Clone, Copy, PartialEq, Eq, Structural)]
pub enum TaskChange {
    /// Leave it as it is.
    Keep,
    /// Create it, or make sure it exists.
    Ensure,
    /// Delete it.
    Remove,
}

/// Whether the program relaunches itself after saving.
#[derive(Debug, Clone, Copy, PartialEq, Eq, Structural)]
pub enum Relaunch {
    /// Keep running as it is.
    Stay,
    /// Relaunch with administrator rights (the system asks the user).
    Elevated,
    /// Relaunch without administrator rights.
    Normal,
}

/// What saving the options does about start-at-login and rights.
#[derive(Debug, Clone, Copy, PartialEq, Eq, Structural)]
pub struct SavePlan {
    /// The `Run` registry value.
    pub run_key: AutostartChange,
    /// The elevated scheduled task.
    pub task: TaskChange,
    /// The relaunch that makes the choice take effect.
    pub relaunch: Relaunch,
}

/// The change that brings a setting from `enabled` to `want`.
pub open spec fn change_spec(want: bool, enabled: bool) -> AutostartChange {
    if want == enabled {
        AutostartChange::Keep
    } else if want {
        AutostartChange::Enable
    } else {
        AutostartChange::Disable
    }
}

/// Whether the `Run` value exists after applying `change` to a value that
/// exists when `present`.
pub open spec fn run_value_after(present: bool, change: AutostartChange) -> bool {
    match change {
        AutostartChange::Keep => present,
        AutostartChange::Enable => true,
        AutostartChange::Disable => false,
    }
}

/// What saving does, given the option as saved (`run_as_admin`) and as it was
/// before (`was_admin`), whether this process is `elevated`, the start-at-login
/// box (`want_autostart`) and whether the `Run` value is `present`.
///
/// - Option on, elevated: the task replaces the `Run` value; no relaunch.
/// - Option on, not elevated: nothing changes yet; the program relaunches
///   elevated, and that instance sets the task up when it starts.
/// - Option turned off: the task is deleted, the `Run` value follows the
///   box, and an elevated process relaunches without rights.
/// - Option off and already off: only the `Run` value follows the box.
pub open spec fn save_plan_spec(
    run_as_admin: bool,
    was_admin: bool,
    elevated: bool,
    want_autostart: bool,
    present: bool,
) -> SavePlan {
    if run_as_admin {
        if elevated {
            SavePlan {
                run_key: change_spec(false, present),
                task: TaskChange::Ensure,
                relaunch: Relaunch::Stay,
            }
        } else {
            SavePlan {
                run_key: AutostartChange::Keep,
                task: TaskChange::Keep,
                relaunch: Relaunch::Elevated,
            }
        }
    } else if was_admin {
        SavePlan {
            run_key: change_spec(want_autostart, present),
            task: TaskChange::Remove,
            relaunch: if elevated { Relaunch::Normal } else { Relaunch::Stay },
        }
    } else {
        SavePlan {
            run_key: change_spec(want_autostart, present),
            task: TaskChange::Keep,
            relaunch: Relaunch::Stay,
        }
    }
}

/// What saving the options does about start-at-login and rights (see
/// `save_plan_spec`).
pub fn save_plan(
    run_as_admin: bool,
    was_admin: bool,
    elevated: bool,
    want_autostart: bool,
    present: bool,
) -> (r: SavePlan)
    ensures
        r == save_plan_spec(run_as_admin, was_admin, elevated, want_autostart, present),
        !run_as_admin ==> run_value_after(present, r.run_key) == want_autostart,
        !run_as_admin && want_autostart == present ==> r.run_key == AutostartChange::Keep,
        run_as_admin && elevated ==> !run_value_after(present, r.run_key),
        run_as_admin && !elevated ==> r.run_key == AutostartChange::Keep,
{
    if run_as_admin {
        if elevated {
            SavePlan {
                run_key: autostart_change(false, present),
                task: TaskChange::Ensure,
                relaunch: Relaunch::Stay,
            }
        } else {
            SavePlan {
                run_key: AutostartChange::Keep,
                task: TaskChange::Keep,
                relaunch: Relaunch::Elevated,
            }
        }
    } else if was_admin {
        SavePlan {
            run_key: autostart_change(want_autostart, present),
            task: TaskChange::Remove,
            relaunch: if elevated {
                Relaunch::Normal
            } else {
                Relaunch::Stay
            },
        }
    } else {
        SavePlan {
            run_key: autostart_change(want_autostart, present),
            task: TaskChange::Keep,
            relaunch: Relaunch::Stay,
        }
    }
}

/// What an instance does at start: an elevated one with the option on makes
/// sure the task exists and that the `Run` value is gone; any other leaves
/// both alone.
pub fn startup_plan(run_as_admin: bool, elevated: bool, present: bool) -> (r: (
    TaskChange,
    AutostartChange,
))
    ensures
        r == (if run_as_admin && elevated {
            (TaskChange::Ensure, change_spec(false, present))
        } else {
            (TaskChange::Keep, AutostartChange::Keep)
        }),
        run_as_admin && elevated ==> !run_value_after(present, r.1),
        !present ==> r.1 == AutostartChange::Keep,
{
    if run_as_admin && elevated {
        (TaskChange::Ensure, autostart_change(false, present))
    } else {
        (TaskChange::Keep, AutostartChange::Keep)
    }
}

/// Whether start-at-login shows as on: the option implies it.
pub fn autostart_shown(run_as_admin: bool, present: bool) -> (r: bool)
    ensures
        r == (run_as_admin || present),
{
    run_as_admin || present
}

/// Whether the tray's start-at-login item can be used: with the option on it
/// is greyed out, and start-at-login is managed in the options panel.
pub fn autostart_item_enabled(run_as_admin: bool) -> (r: bool)
    ensures
        r == !run_as_admin,
{
    !run_as_admin
}

/// Whether a starting instance keeps waiting for the single-instance lock:
/// only a relaunched one, and only for `RESTART_WAIT_MS`.
pub fn keep_waiting_for_lock(restarted: bool, waited_ms: u32) -> (r: bool)
    ensures
        r == (restarted && waited_ms < RESTART_WAIT_MS),
{
    restarted && waited_ms < RESTART_WAIT_MS
}

/// Whether the command line holds the relaunch flag.
pub fn has_restart_flag(args: &[String]) -> (r: bool)
    ensures
        r == exists|i: int| 0 <= i < args@.len() && #[trigger] args@[i]@ == RESTART_FLAG@,
{
    let flag = chars_of(RESTART_FLAG);
    for i in 0..args.len()
        invariant
            flag@ == RESTART_FLAG@,
            forall|j: int| 0 <= j < i ==> #[trigger] args@[j]@ != RESTART_FLAG@,
    {
        let a = chars_of(args[i].as_str());
        if same_chars(&a, flag.as_slice()) {
            return true;
        }
    }
    false
}

/// `a`, `b` and `c` one after the other.
fn concat3(a: &str, b: &str, c: &str) -> (r: String)
    ensures
        r@ == a@ + b@ + c@,
{
    let mut v = chars_of(a);
    let mut w = chars_of(b);
    let mut x = chars_of(c);
    v.append(&mut w);
    v.append(&mut x);
    string_from_chars(&v, 0, v.len())
}

/// `schtasks` arguments that create (or replace) the task starting `exe`
/// elevated at every login. Executable paths hold no `"`.
pub fn create_elevated_task_args(exe: &str) -> (r: String)
    ensures
        r@ == "/Create /TN CapIMESwitchElevated /TR \"\\\""@ + exe@
            + "\\\"\" /SC ONLOGON /RL HIGHEST /F"@,
{
    concat3("/Create /TN CapIMESwitchElevated /TR \"\\\"", exe, "\\\"\" /SC ONLOGON /RL HIGHEST /F")
}

/// `schtasks` arguments that create the one-off task relaunching `exe`
/// without administrator rights, with the relaunch flag.
pub fn create_drop_task_args(exe: &str) -> (r: String)
    ensures
        r@ == "/Create /TN CapIMESwitchDeElevateTemp /TR \"\\\""@ + exe@
            + "\\\" --restart\" /SC ONCE /ST 00:00 /RL LIMITED /F"@,
{
    concat3(
        "/Create /TN CapIMESwitchDeElevateTemp /TR \"\\\"",
        exe,
        "\\\" --restart\" /SC ONCE /ST 00:00 /RL LIMITED /F",
    )
}

/// `schtasks` arguments that run the task `name` now.
pub fn run_task_args(name: &str) -> (r: String)
    ensures
        r@ == "/Run /TN "@ + name@,
{
    let r = concat3("/Run /TN ", name, "");
    proof {
        reveal_strlit("");
    }
    assert("/Run /TN "@ + name@ + ""@ =~= "/Run /TN "@ + name@);
    r
}

/// `schtasks` arguments that delete the task `name`.
pub fn delete_task_args(name: &str) -> (r: String)
    ensures
        r@ == "/Delete /TN "@ + name@ + " /F"@,
{
    concat3("/Delete /TN ", name, " /F")
}

/// The options saved with the option on, when the user declined the
/// elevation: the option is turned back off, everything else stays.
pub fn elevation_declined(cfg: crate::config::Config) -> (r: crate::config::Config)
    ensures
        !r.run_as_admin,
        r.long_press_ms == cfg.long_press_ms,
        r.exclude_processes@ == cfg.exclude_processes@,
        r.language@ == cfg.language@,
{
    let mut c = cfg;
    c.run_as_admin = false;
    c
}

/// Saving with the option on never leaves both start mechanisms in place, and
/// saving with it off never keeps the task; a relaunch happens exactly when
/// the process's rights do not match the option. With the option off, the
/// `Run` value ends up present exactly when the start-at-login box is
/// checked, and is not touched when it already agrees.
pub proof fn lemma_save_plan_consistent(
    run_as_admin: bool,
    was_admin: bool,
    elevated: bool,
    want_autostart: bool,
    present: bool,
)
    ensures
        ({
            let p = save_plan_spec(run_as_admin, was_admin, elevated, want_autostart, present);
            &&& (run_as_admin && elevated) ==> p.task == TaskChange::Ensure && !(present
                && p.run_key == AutostartChange::Keep) && p.run_key != AutostartChange::Enable
            &&& !run_as_admin ==> p.task != TaskChange::Ensure
            &&& (p.relaunch == Relaunch::Elevated) <==> (run_as_admin && !elevated)
            &&& (p.relaunch == Relaunch::Normal) <==> (!run_as_admin && was_admin && elevated)
            &&& !run_as_admin ==> run_value_after(present, p.run_key) == want_autostart
            &&& (!run_as_admin && want_autostart == present) ==> p.run_key == AutostartChange::Keep
            &&& (run_as_admin && elevated) ==> !run_value_after(present, p.run_key)
        }),
{
}

} // verus!
