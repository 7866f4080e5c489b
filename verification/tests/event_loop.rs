use xgreeter::app::{Action, AppState, Effect, Phase};
use xgreeter::driver::{
    after_sends, choose_backend, dispatch, map_key, on_event, on_key, Key, KeyPress, KeyStep, Outcome,
    TermEvent,
};
use xgreeter::greetd::Request;

fn press(code: Key) -> KeyPress {
    KeyPress { code, ctrl: false, release: false }
}

#[test]
fn keys_map_to_actions() {
    assert!(matches!(map_key(Key::Enter), Some(Action::Submit)));
    for k in [Key::Tab, Key::BackTab, Key::Up, Key::Down] {
        assert!(matches!(map_key(k), Some(Action::FocusToggle)));
    }
    assert!(matches!(map_key(Key::Backspace), Some(Action::Backspace)));
    assert!(matches!(map_key(Key::Esc), Some(Action::Cancel)));
    assert!(matches!(map_key(Key::Char('q')), Some(Action::Char('q'))));
    assert!(map_key(Key::Other).is_none());
}

#[test]
fn ctrl_c_quits_demo_only() {
    let mut demo = AppState::new("b".into(), "u".into(), vec![], true);
    let k = KeyPress { code: Key::Char('c'), ctrl: true, release: false };
    assert!(matches!(on_key(&mut demo, k), KeyStep::Exit(Outcome::Quit)));
    let mut real = AppState::new("b".into(), "u".into(), vec![], false);
    assert!(matches!(on_key(&mut real, k), KeyStep::Ignore));
    assert_eq!(real.password, "");
}

#[test]
fn releases_and_unmapped_keys_are_ignored() {
    let mut a = AppState::new("b".into(), "u".into(), vec![], true);
    let k = KeyPress { code: Key::Char('x'), ctrl: false, release: true };
    assert!(matches!(on_key(&mut a, k), KeyStep::Ignore));
    assert!(matches!(on_key(&mut a, press(Key::Other)), KeyStep::Ignore));
    assert_eq!(a.password, "");
}

#[test]
fn pressed_keys_run_the_reducer() {
    let mut a = AppState::new("b".into(), "u".into(), vec![], true);
    assert!(matches!(on_key(&mut a, press(Key::Char('p'))), KeyStep::Effects(e) if e.is_empty()));
    assert_eq!(a.password, "p");
    match on_key(&mut a, press(Key::Enter)) {
        KeyStep::Effects(e) => assert_eq!(
            e,
            vec![Effect::Send(Request::CreateSession { username: "u".into() })]
        ),
        _ => panic!("expected effects"),
    }
    assert_eq!(a.phase, Phase::Creating);
}

#[test]
fn dispatch_sends_until_an_ending() {
    let d = dispatch(vec![
        Effect::Send(Request::CancelSession),
        Effect::Send(Request::CreateSession { username: "u".into() }),
        Effect::LaunchAndExit,
        Effect::Send(Request::CancelSession),
        Effect::Quit,
    ]);
    assert_eq!(d.sends.len(), 2);
    assert!(matches!(d.sends[0], Request::CancelSession));
    assert!(matches!(&d.sends[1], Request::CreateSession { username } if username == "u"));
    assert_eq!(d.outcome, Some(Outcome::Launch));

    let d = dispatch(vec![Effect::Quit, Effect::Send(Request::CancelSession)]);
    assert!(d.sends.is_empty());
    assert_eq!(d.outcome, Some(Outcome::Quit));

    let d = dispatch(vec![Effect::Send(Request::CancelSession)]);
    assert_eq!(d.sends.len(), 1);
    assert_eq!(d.outcome, None);
}

#[test]
fn backend_uses_socket_only_when_set_and_not_demo() {
    let b = choose_backend(true, false);
    assert!(b.real && !b.demo && !b.announce_demo);
    let b = choose_backend(true, true);
    assert!(!b.real && b.demo && !b.announce_demo);
    let b = choose_backend(false, false);
    assert!(!b.real && b.demo && b.announce_demo);
    let b = choose_backend(false, true);
    assert!(!b.real && b.demo && !b.announce_demo);
}

#[test]
fn closed_input_ends_and_other_events_are_ignored() {
    let mut real = AppState::new("b".into(), "u".into(), vec![], false);
    assert!(matches!(on_event(&mut real, TermEvent::Other), KeyStep::Ignore));
    assert!(matches!(on_event(&mut real, TermEvent::Closed), KeyStep::Exit(Outcome::Quit)));
    assert!(matches!(
        on_event(&mut real, TermEvent::Key(press(Key::Char('k')))),
        KeyStep::Effects(e) if e.is_empty()
    ));
    assert_eq!(real.password, "k");
}

#[test]
fn undelivered_request_quits() {
    assert_eq!(after_sends(Some(Outcome::Launch), 2, 1), Some(Outcome::Quit));
    assert_eq!(after_sends(None, 1, 0), Some(Outcome::Quit));
    assert_eq!(after_sends(None, 1, 1), None);
    assert_eq!(after_sends(Some(Outcome::Launch), 0, 0), Some(Outcome::Launch));
}
