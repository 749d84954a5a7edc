use autoclick::generator::{gen_shutdown, gen_step, ButtonEvent, GenAction, GenState, IDLE_SLEEP_NS};
use autoclick::runstate::toggle_active;
use autoclick::settings::Settings;

fn settings(rate: u64, duty: u64, button: &str) -> Settings {
    Settings {
        rate,
        duty,
        button_name: button.to_string(),
        hotkey: "F6".to_string(),
    }
}

#[test]
fn generator_idles_while_inactive() {
    let mut st = GenState { last_button: 3 };
    let a = gen_step(&mut st, false, &settings(10_000_000_000_000, 50_000_000_000_000, "left"));
    assert_eq!(a, GenAction::Idle { sleep_ns: IDLE_SLEEP_NS });
    assert_eq!(st.last_button, 3);
}

#[test]
fn generator_clicks_while_active() {
    let mut st = GenState { last_button: 1 };
    let a = gen_step(&mut st, true, &settings(10_000_000_000_000, 50_000_000_000_000, "right"));
    assert_eq!(
        a,
        GenAction::Click { button: 3, on_ns: 50_000_000, off_ns: 50_000_000 }
    );
    assert_eq!(st.last_button, 3);
}

#[test]
fn generator_degrades_bad_selector_to_primary() {
    // An unparseable selector falls back to the primary button; the cycle
    // still happens.
    let mut st = GenState { last_button: 2 };
    let a = gen_step(&mut st, true, &settings(10_000_000_000_000, 50_000_000_000_000, "wheel"));
    match a {
        GenAction::Click { button, .. } => assert_eq!(button, 1),
        GenAction::Idle { .. } => panic!("an active cycle must click"),
    }
    assert_eq!(st.last_button, 1);
}

#[test]
fn generator_shutdown_releases_last_used() {
    // The final event is always a release for the last-used button.
    let mut st = GenState { last_button: 1 };
    gen_step(&mut st, true, &settings(10_000_000_000_000, 50_000_000_000_000, "middle"));
    let e = gen_shutdown(&st);
    assert_eq!(e, ButtonEvent::Release(2));
}

#[test]
fn generator_shutdown_without_any_click() {
    let st = GenState { last_button: 1 };
    assert_eq!(gen_shutdown(&st), ButtonEvent::Release(1));
}

#[test]
fn generator_run_ends_with_release_of_last_used() {
    // Over a whole run, events come in press/release pairs, and the
    // shutdown release names the button of the last active cycle.
    let mut st = GenState { last_button: 1 };
    let mut events: Vec<ButtonEvent> = Vec::new();
    let steps = [(true, "middle"), (false, "right"), (true, "9"), (false, "left")];
    for (active, b) in steps {
        match gen_step(&mut st, active, &settings(10_000_000_000_000, 50_000_000_000_000, b)) {
            GenAction::Click { button, .. } => {
                events.push(ButtonEvent::Press(button));
                events.push(ButtonEvent::Release(button));
            }
            GenAction::Idle { .. } => {}
        }
    }
    for i in (0..events.len()).step_by(2) {
        match events[i] {
            ButtonEvent::Press(b) => assert_eq!(events[i + 1], ButtonEvent::Release(b)),
            ButtonEvent::Release(_) => panic!("even positions must be presses"),
        }
    }
    events.push(gen_shutdown(&st));
    assert_eq!(*events.last().unwrap(), ButtonEvent::Release(9));
}

#[test]
fn toggle_flips_and_parity_returns() {
    // An odd number of toggles flips "active"; an even number restores it.
    assert!(toggle_active(false));
    assert!(!toggle_active(true));
    for start in [false, true] {
        let mut v = start;
        for _ in 0..4 {
            v = toggle_active(v);
        }
        assert_eq!(v, start);
        v = toggle_active(v);
        assert_eq!(v, !start);
    }
}

#[test]
fn settings_default_values() {
    let s = Settings::default();
    assert_eq!(s.rate, 24_323_452_375_730);
    assert_eq!(s.duty, 36_836_218_324_712);
    assert_eq!(s.button_name, "left");
    assert_eq!(s.hotkey, "F6");
}
