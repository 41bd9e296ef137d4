use window_lifecycle::controller::{
    close_splashscreen, exit_code, minimize_app, on_window_event, plan, quit_app, settle, startup,
    Policy, StartupError, Step, Trigger,
};
use window_lifecycle::platform::{Call, Outcome};
use window_lifecycle::window::WindowRole;

fn step(target: WindowRole, call: Call, policy: Policy) -> Step {
    Step { target, call, policy }
}

#[test]
fn labels_are_the_names_the_host_knows() {
    assert_eq!(WindowRole::Splashscreen.label(), "splashscreen");
    assert_eq!(WindowRole::Main.label(), "main");
    assert_ne!(WindowRole::Splashscreen.label(), WindowRole::Main.label());
}

#[test]
fn startup_plan_is_fullscreen_then_subscribe_both_fatal() {
    assert_eq!(
        startup(),
        vec![
            step(WindowRole::Main, Call::SetFullscreen, Policy::Fatal),
            step(WindowRole::Main, Call::Subscribe, Policy::Fatal),
        ]
    );
}

#[test]
fn close_splashscreen_plan_closes_splash_then_shows_main() {
    assert_eq!(
        close_splashscreen(),
        vec![
            step(WindowRole::Splashscreen, Call::Close, Policy::BestEffort),
            step(WindowRole::Main, Call::Show, Policy::BestEffort),
        ]
    );
}

#[test]
fn minimize_app_plan_is_one_best_effort_call() {
    assert_eq!(
        minimize_app(),
        vec![step(WindowRole::Main, Call::Minimize, Policy::BestEffort)]
    );
}

#[test]
fn on_window_event_plan_sets_fullscreen_again() {
    assert_eq!(
        on_window_event(),
        vec![step(WindowRole::Main, Call::SetFullscreen, Policy::BestEffort)]
    );
}

#[test]
fn quit_app_exits_with_code_zero() {
    assert_eq!(quit_app(), 0);
}

#[test]
fn quit_asks_nothing_of_the_host() {
    assert_eq!(plan(Trigger::Quit), Vec::<Step>::new());
    assert_eq!(exit_code(Trigger::Quit), Some(0));
}

#[test]
fn only_quit_ends_the_process() {
    assert_eq!(exit_code(Trigger::Startup), None);
    assert_eq!(exit_code(Trigger::SplashReady), None);
    assert_eq!(exit_code(Trigger::Minimize), None);
    assert_eq!(exit_code(Trigger::WindowEvent), None);
}

#[test]
fn plan_agrees_with_the_named_plans() {
    assert_eq!(plan(Trigger::Startup), startup());
    assert_eq!(plan(Trigger::SplashReady), close_splashscreen());
    assert_eq!(plan(Trigger::Minimize), minimize_app());
    assert_eq!(plan(Trigger::WindowEvent), on_window_event());
}

#[test]
fn only_the_startup_plan_is_fatal() {
    for trigger in [
        Trigger::Startup,
        Trigger::SplashReady,
        Trigger::Minimize,
        Trigger::WindowEvent,
        Trigger::Quit,
    ] {
        for step in plan(trigger) {
            assert_eq!(step.policy == Policy::Fatal, trigger == Trigger::Startup);
        }
    }
}

#[test]
fn settle_passes_every_call_that_went_through() {
    for policy in [Policy::Fatal, Policy::BestEffort] {
        let made = step(WindowRole::Main, Call::SetFullscreen, policy);
        assert_eq!(settle(&made, Outcome::Done), Ok(()));
    }
}

#[test]
fn settle_drops_failures_of_best_effort_steps() {
    let close = step(WindowRole::Splashscreen, Call::Close, Policy::BestEffort);
    assert_eq!(settle(&close, Outcome::NotFound), Ok(()));
    assert_eq!(settle(&close, Outcome::Refused), Ok(()));
    let minimize = step(WindowRole::Main, Call::Minimize, Policy::BestEffort);
    assert_eq!(settle(&minimize, Outcome::NotFound), Ok(()));
    assert_eq!(settle(&minimize, Outcome::Refused), Ok(()));
}

#[test]
fn settle_reports_a_missing_window_on_a_fatal_step() {
    let fullscreen = step(WindowRole::Main, Call::SetFullscreen, Policy::Fatal);
    assert_eq!(
        settle(&fullscreen, Outcome::NotFound),
        Err(StartupError::WindowMissing(WindowRole::Main))
    );
    let close = step(WindowRole::Splashscreen, Call::Close, Policy::Fatal);
    assert_eq!(
        settle(&close, Outcome::NotFound),
        Err(StartupError::WindowMissing(WindowRole::Splashscreen))
    );
}

#[test]
fn settle_reports_a_refused_call_on_a_fatal_step() {
    let fullscreen = step(WindowRole::Main, Call::SetFullscreen, Policy::Fatal);
    assert_eq!(
        settle(&fullscreen, Outcome::Refused),
        Err(StartupError::Refused(WindowRole::Main, Call::SetFullscreen))
    );
}

#[test]
fn every_call_but_subscribe_can_be_refused() {
    assert!(Call::Close.can_be_refused());
    assert!(Call::Show.can_be_refused());
    assert!(Call::Minimize.can_be_refused());
    assert!(Call::SetFullscreen.can_be_refused());
    assert!(!Call::Subscribe.can_be_refused());
}
