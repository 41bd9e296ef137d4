//! The controller: which calls each trigger leads to, and what a failed call
//! means.
//!
//! The controller never touches a window itself. For each trigger it hands
//! out a plan, the calls to make in order. Whoever talks to the host makes
//! one call after the other and passes each answer to [`settle`], which says
//! whether to go on.

use vstd::prelude::*;
use crate::platform::{Call, Outcome};
use crate::window::WindowRole;

verus! {

/// What the controller makes of a call that did not go through.
#[derive(Clone, Copy, Debug, PartialEq, Eq)]
pub enum Policy {
    /// The shell cannot run without this call: a failure ends startup.
    Fatal,
    /// A convenience for the user: a failure is dropped and the plan goes on.
    BestEffort,
}

/// One call of a plan: the window to look up, the call to make on it, and
/// what a failure means.
#[derive(Clone, Copy, Debug, PartialEq, Eq)]
pub struct Step {
    pub target: WindowRole,
    pub call: Call,
    pub policy: Policy,
}

/// Why startup was given up.
#[derive(Clone, Copy, Debug, PartialEq, Eq)]
pub enum StartupError {
    /// The host has built no window of this role.
    WindowMissing(WindowRole),
    /// The host refused this call on the window of this role.
    Refused(WindowRole, Call),
}

/// What reaches the controller from outside.
#[derive(Clone, Copy, Debug, PartialEq, Eq)]
pub enum Trigger {
    /// The host has finished building its windows.
    Startup,
    /// The UI has finished its intro and asks for the splash screen to go.
    SplashReady,
    /// The UI asks for the main window to be minimized.
    Minimize,
    /// A watched window has emitted an event, of whatever kind.
    WindowEvent,
    /// The UI asks for the shell to end.
    Quit,
}

/// The verdict on one answered call: an error exactly when the step is fatal
/// and the call did not go through.
pub open spec fn settled(step: Step, outcome: Outcome) -> Result<(), StartupError> {
    match (step.policy, outcome) {
        (Policy::Fatal, Outcome::NotFound) => Err(StartupError::WindowMissing(step.target)),
        (Policy::Fatal, Outcome::Refused) => Err(StartupError::Refused(step.target, step.call)),
        _ => Ok(()),
    }
}

/// The calls a trigger leads to, in the order in which they are made.
///
/// Startup puts the main window in fullscreen mode and subscribes the
/// enforcement to it; both must go through. When the UI is ready the splash
/// screen is closed and the main window shown. A window event leads to the
/// same fullscreen call as startup, whatever the event was. Quitting makes no
/// call on any window.
pub open spec fn plan_of(trigger: Trigger) -> Seq<Step> {
    match trigger {
        Trigger::Startup => seq![
            Step { target: WindowRole::Main, call: Call::SetFullscreen, policy: Policy::Fatal },
            Step { target: WindowRole::Main, call: Call::Subscribe, policy: Policy::Fatal },
        ],
        Trigger::SplashReady => seq![
            Step { target: WindowRole::Splashscreen, call: Call::Close, policy: Policy::BestEffort },
            Step { target: WindowRole::Main, call: Call::Show, policy: Policy::BestEffort },
        ],
        Trigger::Minimize => seq![
            Step { target: WindowRole::Main, call: Call::Minimize, policy: Policy::BestEffort },
        ],
        Trigger::WindowEvent => seq![
            Step { target: WindowRole::Main, call: Call::SetFullscreen, policy: Policy::BestEffort },
        ],
        Trigger::Quit => Seq::empty(),
    }
}

/// The exit code with which the process ends once the trigger is handled, if
/// it ends at all.
pub open spec fn exit_code_of(trigger: Trigger) -> Option<i32> {
    match trigger {
        Trigger::Quit => Some(0i32),
        _ => None,
    }
}

/// Decides what follows an answered call: `Ok` to go on with the plan, an
/// error to give up startup.
pub fn settle(step: &Step, outcome: Outcome) -> (verdict: Result<(), StartupError>)
    ensures
        verdict == settled(*step, outcome),
{
    match step.policy {
        Policy::BestEffort => Ok(()),
        Policy::Fatal => match outcome {
            Outcome::Done => Ok(()),
            Outcome::NotFound => Err(StartupError::WindowMissing(step.target)),
            Outcome::Refused => Err(StartupError::Refused(step.target, step.call)),
        },
    }
}

/// The plan for the startup hook.
pub fn startup() -> (plan: Vec<Step>)
    ensures
        plan@ == plan_of(Trigger::Startup),
{
    let mut plan: Vec<Step> = Vec::new();
    plan.push(Step { target: WindowRole::Main, call: Call::SetFullscreen, policy: Policy::Fatal });
    plan.push(Step { target: WindowRole::Main, call: Call::Subscribe, policy: Policy::Fatal });
    assert(plan@ =~= plan_of(Trigger::Startup));
    plan
}

/// The plan for the command with which the UI reports that it is ready.
pub fn close_splashscreen() -> (plan: Vec<Step>)
    ensures
        plan@ == plan_of(Trigger::SplashReady),
{
    let mut plan: Vec<Step> = Vec::new();
    plan.push(
        Step { target: WindowRole::Splashscreen, call: Call::Close, policy: Policy::BestEffort },
    );
    plan.push(Step { target: WindowRole::Main, call: Call::Show, policy: Policy::BestEffort });
    assert(plan@ =~= plan_of(Trigger::SplashReady));
    plan
}

/// The plan for the command that minimizes the main window.
pub fn minimize_app() -> (plan: Vec<Step>)
    ensures
        plan@ == plan_of(Trigger::Minimize),
{
    let mut plan: Vec<Step> = Vec::new();
    plan.push(Step { target: WindowRole::Main, call: Call::Minimize, policy: Policy::BestEffort });
    assert(plan@ =~= plan_of(Trigger::Minimize));
    plan
}

/// The plan that the fullscreen enforcement runs on every event of a watched
/// window. It takes no event: the kind of event makes no difference.
pub fn on_window_event() -> (plan: Vec<Step>)
    ensures
        plan@ == plan_of(Trigger::WindowEvent),
{
    let mut plan: Vec<Step> = Vec::new();
    plan.push(
        Step { target: WindowRole::Main, call: Call::SetFullscreen, policy: Policy::BestEffort },
    );
    assert(plan@ =~= plan_of(Trigger::WindowEvent));
    plan
}

/// The exit code with which the quit command ends the process. Quitting asks
/// nothing else of the host.
pub fn quit_app() -> (code: i32)
    ensures
        exit_code_of(Trigger::Quit) == Some(code),
        code == 0,
{
    0
}

/// The plan for any trigger.
pub fn plan(trigger: Trigger) -> (steps: Vec<Step>)
    ensures
        steps@ == plan_of(trigger),
{
    match trigger {
        Trigger::Startup => startup(),
        Trigger::SplashReady => close_splashscreen(),
        Trigger::Minimize => minimize_app(),
        Trigger::WindowEvent => on_window_event(),
        Trigger::Quit => Vec::new(),
    }
}

/// The exit code with which the process ends after `trigger`, if it ends.
pub fn exit_code(trigger: Trigger) -> (code: Option<i32>)
    ensures
        code == exit_code_of(trigger),
{
    match trigger {
        Trigger::Quit => Some(quit_app()),
        _ => None,
    }
}

} // verus!
