//! A model of the host's windows.
//!
//! The model holds what can be observed of the two windows and gives every
//! call of the controller a defined effect on it, so that what the controller
//! achieves can be stated and proved. It decides nothing: which calls are
//! made is the controller's business, and whether the host refuses one is
//! handed in from outside.

use vstd::prelude::*;
use crate::controller::{plan, plan_of, settle, settled, StartupError, Step, Trigger};
use crate::platform::{Call, Outcome};
use crate::window::{Window, WindowRole};

verus! {

/// The windows that exist, by role.
#[derive(Clone, Copy, Debug, PartialEq, Eq)]
pub struct Desktop {
    /// The splash screen, until it is closed.
    pub splash: Option<Window>,
    /// The main window, if the host has built one.
    pub main: Option<Window>,
}

/// An event of the main window, as far as the model goes: the state in which
/// the user or the host left the window when the event was emitted. `None`
/// stands for a window that is gone. Nothing but the window's own
/// subscription survives an event unchanged.
#[derive(Clone, Copy, Debug, PartialEq, Eq)]
pub struct WindowEvent {
    pub left: Option<Window>,
}

/// Whether the host refuses the call at position `at` of a plan. Calls for
/// which `refusals` has no entry are not refused.
pub open spec fn refused_at(refusals: Seq<bool>, at: int) -> bool {
    0 <= at < refusals.len() && refusals[at]
}

impl Desktop {
    /// The desktop as the host builds it at launch: the splash screen, if one
    /// is configured, on screen, and the main window, if one is configured,
    /// not shown yet.
    pub open spec fn launched(with_splash: bool, with_main: bool) -> Desktop {
        Desktop {
            splash: if with_splash {
                Some(Window { visible: true, ..Window::created() })
            } else {
                None
            },
            main: if with_main {
                Some(Window::created())
            } else {
                None
            },
        }
    }

    /// The window of a role, if it exists.
    pub open spec fn window(self, role: WindowRole) -> Option<Window> {
        match role {
            WindowRole::Splashscreen => self.splash,
            WindowRole::Main => self.main,
        }
    }

    /// The desktop with the window of `role` replaced.
    pub open spec fn with_window(self, role: WindowRole, window: Option<Window>) -> Desktop {
        match role {
            WindowRole::Splashscreen => Desktop { splash: window, ..self },
            WindowRole::Main => Desktop { main: window, ..self },
        }
    }

    /// The host's answer to `call` on the window of role `target`.
    pub open spec fn answered(self, target: WindowRole, call: Call, refused: bool) -> Outcome {
        if self.window(target) is None {
            Outcome::NotFound
        } else if refused && call.refusable() {
            Outcome::Refused
        } else {
            Outcome::Done
        }
    }

    /// The desktop after `call` on the window of role `target`: changed as
    /// the call says if the host made it, and as before if not.
    pub open spec fn performed(self, target: WindowRole, call: Call, refused: bool) -> Desktop {
        match self.window(target) {
            Some(window) if self.answered(target, call, refused) == Outcome::Done => {
                self.with_window(target, window.after(call))
            },
            _ => self,
        }
    }

    /// The desktop after the calls of `plan` from position `from` on, and
    /// the verdict on them. The calls are made in order. The first one that
    /// fails a fatal step ends the plan with its error; any other failure is
    /// passed over.
    pub open spec fn carried_out(self, plan: Seq<Step>, refusals: Seq<bool>, from: int) -> (
        Desktop,
        Result<(), StartupError>,
    )
        decreases plan.len() - from,
    {
        if 0 <= from < plan.len() {
            let step = plan[from];
            let refused = refused_at(refusals, from);
            let outcome = self.answered(step.target, step.call, refused);
            let next = self.performed(step.target, step.call, refused);
            match settled(step, outcome) {
                Err(error) => (next, Err(error)),
                Ok(_) => next.carried_out(plan, refusals, from + 1),
            }
        } else {
            (self, Ok(()))
        }
    }

    /// The desktop after the controller has handled `trigger`, and the
    /// verdict. `refusals` says which calls of the trigger's plan the host
    /// refuses.
    pub open spec fn handled(self, trigger: Trigger, refusals: Seq<bool>) -> (
        Desktop,
        Result<(), StartupError>,
    ) {
        self.carried_out(plan_of(trigger), refusals, 0)
    }

    /// The desktop after the main window has emitted `event`. A window that
    /// does not exist emits nothing. Otherwise the window is as the event
    /// left it, and if it was watched the controller handles the event, even
    /// where the event was the end of the window.
    pub open spec fn delivered(self, event: WindowEvent, refused: bool) -> Desktop {
        match self.main {
            None => self,
            Some(before) => {
                let left = match event.left {
                    None => None,
                    Some(window) => Some(Window { watched: before.watched, ..window }),
                };
                let disturbed = Desktop { main: left, ..self };
                if before.watched {
                    disturbed.handled(Trigger::WindowEvent, seq![refused]).0
                } else {
                    disturbed
                }
            },
        }
    }

    /// Builds the desktop as it is at launch.
    pub fn launch(with_splash: bool, with_main: bool) -> (desktop: Desktop)
        ensures
            desktop == Desktop::launched(with_splash, with_main),
    {
        let created = Window::new();
        Desktop {
            splash: if with_splash {
                Some(Window { visible: true, ..created })
            } else {
                None
            },
            main: if with_main {
                Some(created)
            } else {
                None
            },
        }
    }

    /// Looks up the window of a role.
    pub fn lookup(&self, role: WindowRole) -> (found: Option<Window>)
        ensures
            found == self.window(role),
    {
        match role {
            WindowRole::Splashscreen => self.splash,
            WindowRole::Main => self.main,
        }
    }

    /// Makes one call on the window of role `target` and returns the host's
    /// answer. `refused` says whether the host refuses the call.
    pub fn perform(&mut self, target: WindowRole, call: Call, refused: bool) -> (outcome: Outcome)
        ensures
            outcome == old(self).answered(target, call, refused),
            *final(self) == old(self).performed(target, call, refused),
    {
        match self.lookup(target) {
            None => Outcome::NotFound,
            Some(window) => {
                if refused && call.can_be_refused() {
                    Outcome::Refused
                } else {
                    let left = window.apply(call);
                    match target {
                        WindowRole::Splashscreen => {
                            self.splash = left;
                        },
                        WindowRole::Main => {
                            self.main = left;
                        },
                    }
                    Outcome::Done
                }
            },
        }
    }

    /// Handles `trigger` as the controller does: makes the calls of its plan
    /// in order and stops at the first one that fails a fatal step.
    /// `refusals` says, by position in the plan, which calls the host
    /// refuses; a call without an entry is not refused.
    pub fn handle(&mut self, trigger: Trigger, refusals: &Vec<bool>) -> (verdict: Result<
        (),
        StartupError,
    >)
        ensures
            (*final(self), verdict) == old(self).handled(trigger, refusals@),
    {
        let steps = plan(trigger);
        let mut at: usize = 0;
        while at < steps.len()
            invariant
                at <= steps.len(),
                steps@ == plan_of(trigger),
                self.carried_out(steps@, refusals@, at as int) == old(self).carried_out(
                    steps@,
                    refusals@,
                    0,
                ),
            decreases steps.len() - at,
        {
            let ghost before = *self;
            let step = steps[at];
            let refused = at < refusals.len() && refusals[at];
            let outcome = self.perform(step.target, step.call, refused);
            assert(before.carried_out(steps@, refusals@, at as int) == match settled(
                step,
                outcome,
            ) {
                Err(error) => (*self, Err(error)),
                Ok(_) => self.carried_out(steps@, refusals@, at + 1),
            });
            match settle(&step, outcome) {
                Err(error) => {
                    return Err(error);
                },
                Ok(_) => {},
            }
            at += 1;
        }
        Ok(())
    }

    /// Lets the main window emit `event`. `refused` says whether the host
    /// refuses the call with which the controller answers the event.
    pub fn deliver(&mut self, event: WindowEvent, refused: bool)
        ensures
            *final(self) == old(self).delivered(event, refused),
    {
        match self.main {
            None => {},
            Some(before) => {
                self.main = match event.left {
                    None => None,
                    Some(window) => Some(Window { watched: before.watched, ..window }),
                };
                if before.watched {
                    let mut refusals: Vec<bool> = Vec::new();
                    refusals.push(refused);
                    assert(refusals@ =~= seq![refused]);
                    let _ = self.handle(Trigger::WindowEvent, &refusals);
                }
            },
        }
    }
}

} // verus!
