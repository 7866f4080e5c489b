use xgreeter::app::{Action, AppState, Effect, Field, Phase};
use xgreeter::greetd::{AuthMessageType, ErrorType, Request, Response};

fn app() -> AppState {
    AppState::new(
        "0xc000022070".into(),
        "0xc000022070".into(),
        vec!["start-hyprland".into()],
        true,
    )
}

#[test]
fn happy_path_reaches_launch() {
    let mut a = app();
    a.password = "hunter2".into();

    let e = a.update(Action::Submit);
    assert_eq!(
        e,
        vec![Effect::Send(Request::CreateSession {
            username: "0xc000022070".into()
        })]
    );
    assert_eq!(a.phase, Phase::Creating);

    // greetd asks for the password; the pre-typed one is auto-fed.
    let e = a.update(Action::Greetd(Response::AuthMessage {
        auth_message_type: AuthMessageType::Secret,
        auth_message: "Password: ".into(),
    }));
    assert_eq!(
        e,
        vec![Effect::Send(Request::PostAuthMessageResponse {
            response: Some("hunter2".into())
        })]
    );
    assert_eq!(a.phase, Phase::Authenticating);

    // Auth accepted -> start the session.
    let e = a.update(Action::Greetd(Response::Success));
    assert_eq!(
        e,
        vec![Effect::Send(Request::StartSession {
            cmd: vec!["start-hyprland".into()],
            env: vec![]
        })]
    );
    assert_eq!(a.phase, Phase::Starting);

    // Session started -> hand off.
    let e = a.update(Action::Greetd(Response::Success));
    assert_eq!(e, vec![Effect::LaunchAndExit]);
    assert_eq!(a.phase, Phase::Done);
}

#[test]
fn wrong_password_lands_in_failed_and_clears_secret() {
    let mut a = app();
    a.password = "bad".into();
    a.update(Action::Submit);
    a.update(Action::Greetd(Response::AuthMessage {
        auth_message_type: AuthMessageType::Secret,
        auth_message: "Password: ".into(),
    }));
    let e = a.update(Action::Greetd(Response::Error {
        error_type: ErrorType::AuthError,
        description: String::new(),
    }));
    assert!(e.is_empty());
    assert_eq!(a.phase, Phase::Failed("access denied".into()));
    assert_eq!(a.password, "");
}

#[test]
fn retry_after_failure_creates_fresh_session() {
    let mut a = app();
    a.phase = Phase::Failed("access denied".into());
    a.user = "0xc000022070".into();
    let e = a.update(Action::Submit);
    assert_eq!(
        e,
        vec![Effect::Send(Request::CreateSession {
            username: "0xc000022070".into()
        })]
    );
}

#[test]
fn typing_clears_prior_failure() {
    let mut a = app();
    a.phase = Phase::Failed("access denied".into());
    a.focus = Field::Password;
    a.update(Action::Char('x'));
    assert_eq!(a.phase, Phase::Idle);
    assert_eq!(a.password, "x");
}

#[test]
fn no_submit_without_username() {
    let mut a = AppState::new("b".into(), String::new(), vec!["s".into()], true);
    assert!(a.update(Action::Submit).is_empty());
    assert_eq!(a.phase, Phase::Idle);
}

#[test]
fn cancel_midflight_sends_cancel_and_resets() {
    let mut a = app();
    a.update(Action::Submit);
    let e = a.update(Action::Cancel);
    assert_eq!(e, vec![Effect::Send(Request::CancelSession)]);
    assert_eq!(a.phase, Phase::Idle);
}

#[test]
fn stray_response_while_idle_is_ignored() {
    let mut a = app();
    assert!(a.update(Action::Greetd(Response::Success)).is_empty());
    assert_eq!(a.phase, Phase::Idle);
}

#[test]
fn info_message_is_acknowledged_without_leaving_chain() {
    let mut a = app();
    a.update(Action::Submit);
    let e = a.update(Action::Greetd(Response::AuthMessage {
        auth_message_type: AuthMessageType::Info,
        auth_message: "insert smartcard".into(),
    }));
    assert_eq!(
        e,
        vec![Effect::Send(Request::PostAuthMessageResponse { response: None })]
    );
    assert_eq!(a.info.as_deref(), Some("insert smartcard"));
}

#[test]
fn demo_cancel_at_idle_quits_real_does_not() {
    let mut demo = app();
    assert_eq!(demo.update(Action::Cancel), vec![Effect::Quit]);

    let mut real = AppState::new("b".into(), "u".into(), vec!["s".into()], false);
    assert!(real.update(Action::Cancel).is_empty());
}

// ---------------------------------------------------------------------------

#[test]
fn new_puts_caret_on_user_when_no_user_is_preset() {
    let a = AppState::new("b".into(), String::new(), vec![], false);
    assert_eq!(a.focus, Field::User);
    assert_eq!(a.phase, Phase::Idle);
    assert_eq!(a.password, "");
    assert_eq!(a.info, None);
    assert_eq!(a.tick, 0);
    assert!(!a.demo);
    let b = AppState::new("b".into(), "root".into(), vec![], true);
    assert_eq!(b.focus, Field::Password);
    assert!(b.demo);
}

#[test]
fn typing_goes_to_focused_field_and_backspace_removes_last() {
    let mut a = AppState::new("b".into(), String::new(), vec![], true);
    a.update(Action::Char('a'));
    a.update(Action::Char('b'));
    assert_eq!(a.user, "ab");
    a.update(Action::Backspace);
    assert_eq!(a.user, "a");
    a.update(Action::FocusToggle);
    assert_eq!(a.focus, Field::Password);
    a.update(Action::Char('é'));
    assert_eq!(a.password, "é");
    assert_eq!(a.user, "a");
    a.update(Action::Backspace);
    a.update(Action::Backspace);
    assert_eq!(a.password, "");
}

#[test]
fn control_characters_are_not_typed() {
    let mut a = app();
    let e = a.update(Action::Char('\u{7}'));
    assert!(e.is_empty());
    assert_eq!(a.password, "");
}

#[test]
fn typing_is_locked_while_authenticating() {
    let mut a = app();
    a.password = "pw".into();
    a.update(Action::Submit);
    assert!(!a.editable());
    a.update(Action::Char('z'));
    a.update(Action::Backspace);
    a.update(Action::FocusToggle);
    assert_eq!(a.password, "pw");
    assert_eq!(a.focus, Field::Password);
    assert_eq!(a.phase, Phase::Creating);
}

#[test]
fn blank_user_name_of_whitespace_does_not_submit() {
    let mut a = AppState::new("b".into(), " \t\u{3000}".into(), vec![], true);
    assert!(a.update(Action::Submit).is_empty());
    assert_eq!(a.phase, Phase::Idle);
}

#[test]
fn visible_prompt_is_answered_by_typing() {
    let mut a = app();
    a.password = "pw".into();
    a.update(Action::Submit);
    let e = a.update(Action::Greetd(Response::AuthMessage {
        auth_message_type: AuthMessageType::Visible,
        auth_message: "OTP: ".into(),
    }));
    assert!(e.is_empty());
    assert_eq!(
        a.phase,
        Phase::Prompt {
            secret: false,
            message: "OTP: ".into()
        }
    );
    assert_eq!(a.password, "");
    assert!(a.editable());
    a.focus = Field::User;
    a.update(Action::Char('4'));
    a.update(Action::Char('2'));
    assert_eq!(a.password, "42");
    let e = a.update(Action::Submit);
    assert_eq!(
        e,
        vec![Effect::Send(Request::PostAuthMessageResponse {
            response: Some("42".into())
        })]
    );
    assert_eq!(a.password, "");
    assert_eq!(a.phase, Phase::Authenticating);
}

#[test]
fn general_error_is_prefixed() {
    let mut a = app();
    a.update(Action::Submit);
    a.update(Action::Greetd(Response::Error {
        error_type: ErrorType::Error,
        description: "socket closed".into(),
    }));
    assert_eq!(a.phase, Phase::Failed("error: socket closed".into()));
    let mut b = app();
    b.update(Action::Greetd(Response::Error {
        error_type: ErrorType::AuthError,
        description: "locked out".into(),
    }));
    assert_eq!(b.phase, Phase::Failed("locked out".into()));
}

#[test]
fn tick_wraps_and_changes_nothing_else() {
    let mut a = app();
    a.tick = u64::MAX;
    assert!(a.update(Action::Tick).is_empty());
    assert_eq!(a.tick, 0);
    a.update(Action::Tick);
    assert_eq!(a.tick, 1);
    assert_eq!(a.phase, Phase::Idle);
}

#[test]
fn success_from_creating_starts_the_session() {
    let mut a = app();
    a.update(Action::Submit);
    let e = a.update(Action::Greetd(Response::Success));
    assert_eq!(
        e,
        vec![Effect::Send(Request::StartSession {
            cmd: vec!["start-hyprland".into()],
            env: vec![]
        })]
    );
    assert_eq!(a.info, None);
}

#[test]
fn refusal_while_idle_still_shows_failure() {
    let mut a = app();
    a.password = "secret".into();
    let e = a.update(Action::Greetd(Response::Error {
        error_type: ErrorType::AuthError,
        description: String::new(),
    }));
    assert!(e.is_empty());
    assert_eq!(a.phase, Phase::Failed("access denied".into()));
    assert_eq!(a.password, "");
}

#[test]
fn effect_equality_compares_requests() {
    let a = Effect::Send(Request::StartSession {
        cmd: vec!["a".into()],
        env: vec![],
    });
    let b = Effect::Send(Request::StartSession {
        cmd: vec!["b".into()],
        env: vec![],
    });
    assert!(a != b);
    assert!(Effect::Quit != Effect::LaunchAndExit);
    assert!(
        Effect::Send(Request::PostAuthMessageResponse { response: None })
            != Effect::Send(Request::PostAuthMessageResponse {
                response: Some(String::new())
            })
    );
}

#[test]
fn real_greeter_cancel_during_prompt_resets() {
    let mut a = AppState::new("b".into(), "u".into(), vec!["s".into()], false);
    a.update(Action::Submit);
    a.update(Action::Greetd(Response::AuthMessage {
        auth_message_type: AuthMessageType::Secret,
        auth_message: "Password: ".into(),
    }));
    // The pre-typed (empty) password was fed; a second secret prompt asks.
    a.update(Action::Greetd(Response::AuthMessage {
        auth_message_type: AuthMessageType::Secret,
        auth_message: "Password again: ".into(),
    }));
    a.update(Action::Char('p'));
    let e = a.update(Action::Cancel);
    assert_eq!(e, vec![Effect::Send(Request::CancelSession)]);
    assert_eq!(a.phase, Phase::Idle);
    assert_eq!(a.password, "");
    assert!(a.update(Action::Cancel).is_empty());
}

#[test]
fn configuration_survives_a_login() {
    let mut a = app();
    a.update(Action::Submit);
    a.update(Action::Greetd(Response::Success));
    a.update(Action::Greetd(Response::Success));
    assert_eq!(a.brand, "0xc000022070");
    assert!(a.demo);
    let mut b = app();
    b.update(Action::Submit);
    let e = b.update(Action::Greetd(Response::Success));
    assert_eq!(
        e,
        vec![Effect::Send(Request::StartSession {
            cmd: vec!["start-hyprland".into()],
            env: vec![]
        })]
    );
}

#[test]
fn second_secret_prompt_waits_for_typing() {
    let mut a = app();
    a.password = "first".into();
    a.update(Action::Submit);
    a.update(Action::Greetd(Response::AuthMessage {
        auth_message_type: AuthMessageType::Secret,
        auth_message: "Password: ".into(),
    }));
    let e = a.update(Action::Greetd(Response::AuthMessage {
        auth_message_type: AuthMessageType::Secret,
        auth_message: "PIN: ".into(),
    }));
    assert!(e.is_empty());
    assert_eq!(
        a.phase,
        Phase::Prompt {
            secret: true,
            message: "PIN: ".into()
        }
    );
    assert_eq!(a.password, "");
}

#[test]
fn accessors_read_the_state() {
    let mut a = app();
    a.password = "pw".into();
    a.update(Action::Submit);
    a.update(Action::Greetd(Response::AuthMessage {
        auth_message_type: AuthMessageType::Info,
        auth_message: "hello".into(),
    }));
    assert_eq!(a.brand(), "0xc000022070");
    assert_eq!(a.user(), "0xc000022070");
    assert_eq!(a.password(), "pw");
    assert_eq!(a.focus(), Field::Password);
    assert_eq!(a.phase(), &Phase::Creating);
    assert_eq!(a.info().as_deref(), Some("hello"));
    assert_eq!(a.tick(), 0);
    assert!(a.is_demo());
}

#[test]
fn password_is_masked_except_in_visible_prompt() {
    let mut a = app();
    a.password = "hünter2".into();
    assert_eq!(a.masked_password(), "*******");
    a.phase = Phase::Prompt { secret: true, message: "Password: ".into() };
    assert_eq!(a.masked_password(), "*******");
    a.phase = Phase::Prompt { secret: false, message: "OTP: ".into() };
    assert_eq!(a.masked_password(), "hünter2");
    a.password = String::new();
    a.phase = Phase::Idle;
    assert_eq!(a.masked_password(), "");
}
