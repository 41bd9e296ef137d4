use window_lifecycle::controller::{quit_app, settle, startup, StartupError, Trigger};
use window_lifecycle::desktop::{Desktop, WindowEvent};
use window_lifecycle::window::{Window, WindowRole};

fn fullscreen(desktop: &Desktop) -> Option<bool> {
    desktop.main.map(|window| window.fullscreen)
}

#[test]
fn launch_ready_resize_quit() {
    let mut desktop = Desktop::launch(true, true);
    assert_eq!(desktop.handle(Trigger::Startup, &Vec::new()), Ok(()));
    assert_eq!(fullscreen(&desktop), Some(true));
    assert_eq!(desktop.main.map(|window| window.visible), Some(false));

    assert_eq!(desktop.handle(Trigger::SplashReady, &Vec::new()), Ok(()));
    assert_eq!(desktop.splash, None);
    assert_eq!(
        desktop.main,
        Some(Window { visible: true, fullscreen: true, minimized: false, watched: true })
    );

    let dragged = Window { visible: true, fullscreen: false, minimized: false, watched: true };
    desktop.deliver(WindowEvent { left: Some(dragged) }, false);
    assert_eq!(fullscreen(&desktop), Some(true));

    let before = desktop;
    assert_eq!(desktop.handle(Trigger::Quit, &Vec::new()), Ok(()));
    assert_eq!(desktop, before);
    assert_eq!(quit_app(), 0);
}

#[test]
fn fullscreen_after_every_event_of_a_long_run() {
    let mut desktop = Desktop::launch(true, true);
    assert_eq!(desktop.handle(Trigger::Startup, &Vec::new()), Ok(()));
    assert_eq!(desktop.handle(Trigger::SplashReady, &Vec::new()), Ok(()));
    for round in 0..16u32 {
        let left = Window {
            visible: round & 1 == 0,
            fullscreen: round & 2 != 0,
            minimized: round & 4 != 0,
            watched: round & 8 != 0,
        };
        desktop.deliver(WindowEvent { left: Some(left) }, false);
        assert_eq!(
            desktop.main,
            Some(Window { fullscreen: true, watched: true, ..left })
        );
    }
}

#[test]
fn fullscreen_survives_minimize_between_events() {
    let mut desktop = Desktop::launch(true, true);
    assert_eq!(desktop.handle(Trigger::Startup, &Vec::new()), Ok(()));
    assert_eq!(desktop.handle(Trigger::SplashReady, &Vec::new()), Ok(()));
    assert_eq!(desktop.handle(Trigger::Minimize, &Vec::new()), Ok(()));
    assert_eq!(
        desktop.main,
        Some(Window { visible: true, fullscreen: true, minimized: true, watched: true })
    );
    let restored = Window { visible: true, fullscreen: false, minimized: false, watched: true };
    desktop.deliver(WindowEvent { left: Some(restored) }, false);
    assert_eq!(
        desktop.main,
        Some(Window { visible: true, fullscreen: true, minimized: false, watched: true })
    );
}

#[test]
fn a_refused_enforcement_is_made_good_by_the_next_event() {
    let mut desktop = Desktop::launch(false, true);
    assert_eq!(desktop.handle(Trigger::Startup, &Vec::new()), Ok(()));
    let windowed = Window { visible: true, fullscreen: false, minimized: false, watched: true };
    desktop.deliver(WindowEvent { left: Some(windowed) }, true);
    assert_eq!(fullscreen(&desktop), Some(false));
    desktop.deliver(WindowEvent { left: Some(windowed) }, false);
    assert_eq!(fullscreen(&desktop), Some(true));
}

#[test]
fn startup_without_main_window_stops_at_the_first_step() {
    let mut desktop = Desktop::launch(true, false);
    let mut made = 0;
    let mut verdict = Ok(());
    for step in startup() {
        let outcome = desktop.perform(step.target, step.call, false);
        made += 1;
        verdict = settle(&step, outcome);
        if verdict.is_err() {
            break;
        }
    }
    assert_eq!(made, 1);
    assert_eq!(verdict, Err(StartupError::WindowMissing(WindowRole::Main)));
    assert_eq!(desktop, Desktop::launch(true, false));
}

#[test]
fn handle_agrees_with_plan_perform_and_settle() {
    for with_splash in [false, true] {
        for with_main in [false, true] {
            for first in [false, true] {
                for second in [false, true] {
                    for trigger in [
                        Trigger::Startup,
                        Trigger::SplashReady,
                        Trigger::Minimize,
                        Trigger::WindowEvent,
                        Trigger::Quit,
                    ] {
                        let refusals = vec![first, second];
                        let mut handled = Desktop::launch(with_splash, with_main);
                        let verdict = handled.handle(trigger, &refusals);

                        let mut stepped = Desktop::launch(with_splash, with_main);
                        let mut expected = Ok(());
                        for (at, step) in
                            window_lifecycle::controller::plan(trigger).into_iter().enumerate()
                        {
                            let outcome = stepped.perform(step.target, step.call, refusals[at]);
                            expected = settle(&step, outcome);
                            if expected.is_err() {
                                break;
                            }
                        }
                        assert_eq!(verdict, expected);
                        assert_eq!(handled, stepped);
                    }
                }
            }
        }
    }
}
