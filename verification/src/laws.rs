//! What holds of the desktop under the controller.
//!
//! Each law is stated over the model of `desktop` and holds for every desktop
//! and every pattern of refusals that its premises admit.

use vstd::prelude::*;
use crate::controller::{exit_code_of, plan_of, Policy, StartupError, Trigger};
use crate::desktop::{refused_at, Desktop, WindowEvent};
use crate::platform::Call;
use crate::window::{Window, WindowRole};

verus! {

/// The desktop after the main window has emitted `events` one after the
/// other. `refusals` says, by position, after which events the host refuses
/// the controller's call.
pub open spec fn after_events(
    desktop: Desktop,
    events: Seq<WindowEvent>,
    refusals: Seq<bool>,
) -> Desktop
    decreases events.len(),
{
    if events.len() == 0 {
        desktop
    } else {
        let last = events.len() - 1;
        after_events(desktop, events.take(last), refusals).delivered(
            events[last],
            refused_at(refusals, last),
        )
    }
}

/// Only the startup plan holds fatal steps, and it holds no others: a failed
/// call ends startup and is passed over everywhere else.
pub proof fn only_startup_is_fatal(trigger: Trigger, at: int)
    requires
        0 <= at < plan_of(trigger).len(),
    ensures
        plan_of(trigger)[at].policy == Policy::Fatal <==> trigger == Trigger::Startup,
{
}

/// Startup has three ways to end. Without a main window it fails and
/// nothing has changed. With a main window on which the host refuses
/// fullscreen mode it fails and nothing has changed. Otherwise it succeeds,
/// and the main window is fullscreen and watched and as it was in all else.
pub proof fn startup_verdict(desktop: Desktop, refusals: Seq<bool>)
    ensures
        desktop.handled(Trigger::Startup, refusals) == match desktop.main {
            None => (desktop, Err::<(), _>(StartupError::WindowMissing(WindowRole::Main))),
            Some(window) => if refused_at(refusals, 0) {
                (desktop, Err(StartupError::Refused(WindowRole::Main, Call::SetFullscreen)))
            } else {
                (
                    Desktop {
                        main: Some(Window { fullscreen: true, watched: true, ..window }),
                        ..desktop
                    },
                    Ok(()),
                )
            },
        },
{
    reveal_with_fuel(Desktop::carried_out, 3);
}

/// Startup on a desktop without a main window fails, and no window has been
/// shown or otherwise touched.
pub proof fn startup_without_main_aborts(desktop: Desktop, refusals: Seq<bool>)
    requires
        desktop.main is None,
    ensures
        desktop.handled(Trigger::Startup, refusals) == (
            desktop,
            Err::<(), _>(StartupError::WindowMissing(WindowRole::Main)),
        ),
{
    startup_verdict(desktop, refusals);
}

/// A trigger other than startup never fails, whatever the desktop holds and
/// whatever the host refuses.
pub proof fn only_startup_can_fail(desktop: Desktop, trigger: Trigger, refusals: Seq<bool>)
    requires
        trigger != Trigger::Startup,
    ensures
        desktop.handled(trigger, refusals).1 is Ok,
{
    reveal_with_fuel(Desktop::carried_out, 3);
}

/// When the UI reports that it is ready, the splash screen is gone unless
/// the host refused to close it, and the main window, if there is one, is
/// visible unless the host refused to show it. Nothing else changes, and the
/// one call does not depend on the other.
pub proof fn splash_ready_effect(desktop: Desktop, refusals: Seq<bool>)
    ensures
        desktop.handled(Trigger::SplashReady, refusals) == (
            Desktop {
                splash: if refused_at(refusals, 0) {
                    desktop.splash
                } else {
                    None
                },
                main: match desktop.main {
                    Some(window) if !refused_at(refusals, 1) => Some(
                        Window { visible: true, ..window },
                    ),
                    _ => desktop.main,
                },
            },
            Ok::<(), StartupError>(()),
        ),
{
    reveal_with_fuel(Desktop::carried_out, 3);
}

/// When the UI reports that it is ready and the splash screen is already
/// gone, nothing fails, and the main window is shown all the same.
pub proof fn splash_ready_without_splash(desktop: Desktop, window: Window, refusals: Seq<bool>)
    requires
        desktop.splash is None,
        desktop.main == Some(window),
        !refused_at(refusals, 1),
    ensures
        desktop.handled(Trigger::SplashReady, refusals) == (
            Desktop { splash: None, main: Some(Window { visible: true, ..window }) },
            Ok::<(), StartupError>(()),
        ),
{
    splash_ready_effect(desktop, refusals);
}

/// One report that the UI is ready makes a hidden main window visible, and
/// leaves it fullscreen if startup had made it so. The host must not refuse
/// to show the window; what it does about the splash screen is of no
/// account.
pub proof fn splash_ready_shows_main(desktop: Desktop, window: Window, refusals: Seq<bool>)
    requires
        desktop.main == Some(window),
        !window.visible,
        !refused_at(refusals, 1),
    ensures
        desktop.handled(Trigger::SplashReady, refusals).0.main == Some(
            Window { visible: true, ..window },
        ),
{
    splash_ready_effect(desktop, refusals);
}

/// Once startup has succeeded, one report that the UI is ready takes the
/// main window from whatever it was to visible and fullscreen, provided the
/// host does not refuse to show it.
pub proof fn splash_ready_after_startup(
    launched: Desktop,
    startup_refusals: Seq<bool>,
    refusals: Seq<bool>,
)
    requires
        launched.handled(Trigger::Startup, startup_refusals).1 is Ok,
        !refused_at(refusals, 1),
    ensures
        launched.handled(Trigger::Startup, startup_refusals).0.handled(
            Trigger::SplashReady,
            refusals,
        ).0.main matches Some(window) && window.visible && window.fullscreen,
{
    startup_verdict(launched, startup_refusals);
    splash_ready_effect(launched.handled(Trigger::Startup, startup_refusals).0, refusals);
}

/// A splash screen that is gone stays gone: no trigger and no event brings
/// it back.
pub proof fn closed_splash_stays_closed(
    desktop: Desktop,
    trigger: Trigger,
    refusals: Seq<bool>,
    event: WindowEvent,
    refused: bool,
)
    requires
        desktop.splash is None,
    ensures
        desktop.handled(trigger, refusals).0.splash is None,
        desktop.delivered(event, refused).splash is None,
{
    reveal_with_fuel(Desktop::carried_out, 3);
}

/// No trigger ends the main window, its subscription or its fullscreen
/// mode: a watched main window is still there and watched once the trigger
/// is handled, and fullscreen if it was before. So the enforcement goes on
/// whatever the UI asks for between two events.
pub proof fn triggers_keep_the_enforcement(
    desktop: Desktop,
    before: Window,
    trigger: Trigger,
    refusals: Seq<bool>,
)
    requires
        desktop.main == Some(before),
        before.watched,
    ensures
        desktop.handled(trigger, refusals).0.main matches Some(after) && after.watched && (
        before.fullscreen ==> after.fullscreen),
{
    reveal_with_fuel(Desktop::carried_out, 3);
}

/// Minimizing never fails. The main window, if there is one, is minimized
/// unless the host refused, and nothing else changes.
pub proof fn minimize_effect(desktop: Desktop, refusals: Seq<bool>)
    ensures
        desktop.handled(Trigger::Minimize, refusals) == (
            Desktop {
                main: match desktop.main {
                    Some(window) if !refused_at(refusals, 0) => Some(
                        Window { minimized: true, ..window },
                    ),
                    _ => desktop.main,
                },
                ..desktop
            },
            Ok::<(), StartupError>(()),
        ),
{
    reveal_with_fuel(Desktop::carried_out, 2);
}

/// Quitting ends the process with exit code 0 and asks nothing of the
/// host: every window is as it was.
pub proof fn quit_only_exits(desktop: Desktop, refusals: Seq<bool>)
    ensures
        exit_code_of(Trigger::Quit) == Some(0i32),
        plan_of(Trigger::Quit).len() == 0,
        desktop.handled(Trigger::Quit, refusals) == (desktop, Ok::<(), StartupError>(())),
{
}

/// No trigger but quitting ends the process.
pub proof fn only_quit_exits(trigger: Trigger)
    ensures
        exit_code_of(trigger) is Some <==> trigger == Trigger::Quit,
{
}

/// Enforcing fullscreen mode twice in a row comes to the same as enforcing
/// it once.
pub proof fn enforcement_is_idempotent(desktop: Desktop, refusals: Seq<bool>)
    ensures
        desktop.handled(Trigger::WindowEvent, refusals).0.handled(
            Trigger::WindowEvent,
            refusals,
        ) == desktop.handled(Trigger::WindowEvent, refusals),
{
    reveal_with_fuel(Desktop::carried_out, 2);
}

/// One event on a watched main window that outlives it: the window is as
/// the event left it, but fullscreen unless the host refused.
pub proof fn event_effect(desktop: Desktop, before: Window, left: Window, refused: bool)
    requires
        desktop.main == Some(before),
        before.watched,
    ensures
        desktop.delivered(WindowEvent { left: Some(left) }, refused) == (Desktop {
            main: Some(
                Window { watched: true, fullscreen: left.fullscreen || !refused, ..left },
            ),
            ..desktop
        }),
{
    reveal_with_fuel(Desktop::carried_out, 2);
}

/// As long as no event is the end of the main window, a watched main window
/// stays in existence and watched.
proof fn watched_through_events(
    desktop: Desktop,
    events: Seq<WindowEvent>,
    refusals: Seq<bool>,
)
    requires
        desktop.main matches Some(window) && window.watched,
        forall|i: int| 0 <= i < events.len() ==> events[i].left is Some,
    ensures
        after_events(desktop, events, refusals).main matches Some(window) && window.watched,
    decreases events.len(),
{
    if events.len() > 0 {
        let last = events.len() - 1;
        let earlier = events.take(last);
        assert forall|i: int| 0 <= i < earlier.len() implies earlier[i].left is Some by {
            assert(earlier[i] == events[i]);
        }
        watched_through_events(desktop, earlier, refusals);
        let reached = after_events(desktop, earlier, refusals);
        event_effect(
            reached,
            reached.main->0,
            events[last].left->0,
            refused_at(refusals, last),
        );
    }
}

/// After a successful startup the main window is fullscreen after every
/// event it emits, whatever the events are and in whatever state each one
/// leaves the window: for every `n`, once the `n`-th event is handled the
/// window is fullscreen.
///
/// Two things are beyond the controller and are left out. An event that is
/// the end of the window leaves no window to be fullscreen. And where the
/// host refuses the call after the `n`-th event, the window is fullscreen
/// only if that event left it so.
pub proof fn fullscreen_after_every_event(
    launched: Desktop,
    startup_refusals: Seq<bool>,
    events: Seq<WindowEvent>,
    refusals: Seq<bool>,
    n: int,
)
    requires
        launched.handled(Trigger::Startup, startup_refusals).1 is Ok,
        0 < n <= events.len(),
        forall|i: int| 0 <= i < n ==> events[i].left is Some,
        !refused_at(refusals, n - 1) || events[n - 1].left->0.fullscreen,
    ensures
        after_events(
            launched.handled(Trigger::Startup, startup_refusals).0,
            events.take(n),
            refusals,
        ).main matches Some(window) && window.fullscreen,
{
    startup_verdict(launched, startup_refusals);
    let started = launched.handled(Trigger::Startup, startup_refusals).0;
    let handled = events.take(n);
    let earlier = handled.take(n - 1);
    assert forall|i: int| 0 <= i < earlier.len() implies earlier[i].left is Some by {
        assert(earlier[i] == events[i]);
    }
    watched_through_events(started, earlier, refusals);
    let reached = after_events(started, earlier, refusals);
    assert(handled[n - 1] == events[n - 1]);
    event_effect(
        reached,
        reached.main->0,
        events[n - 1].left->0,
        refused_at(refusals, n - 1),
    );
}

} // verus!
