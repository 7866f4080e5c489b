//! Properties of the reducer and the log ring that hold for every state and
//! every input, proved over the models that the executable functions'
//! contracts are stated in.

use vstd::prelude::*;

use crate::app::{
    at_rest, editable_phase, in_auth_chain_phase, send, shown_password, shows_typed_text, step,
    types_into_user, ActionView, AppView, EffectView, Field, PhaseView,
};
use crate::driver::{dispatch_spec, is_interrupt, key_action, Key, KeyPress, Outcome};
use crate::greetd::{
    demo_password, demo_refusal, mock_reply_spec, AuthMessageType, ErrorType, RequestView,
    ResponseView,
};
use crate::logs::{keep_last, log_wf, push_spec, LogView};
use crate::text::{is_blank, is_control_char};

verus! {

/// The real greeter never quits on its own: without the demo flag no action
/// ever produces `Quit`.
pub proof fn lemma_real_greeter_never_quits(s: AppView, a: ActionView)
    requires
        !s.demo,
    ensures
        !step(s, a).1.contains(EffectView::Quit),
{
    let e = step(s, a).1;
    assert(e.len() <= 1) by {
        lemma_at_most_one_effect(s, a);
    }
    if e.len() == 1 {
        assert(e[0] != EffectView::Quit);
    }
}

/// Whatever the action, the effects of the real greeter never end it except
/// by handing the terminal to a started session.
pub proof fn lemma_real_greeter_only_ends_by_launch(s: AppView, a: ActionView)
    requires
        !s.demo,
    ensures
        dispatch_spec(step(s, a).1).1 != Some(Outcome::Quit),
{
    let e = step(s, a).1;
    lemma_at_most_one_effect(s, a);
    if e.len() == 1 {
        assert(e[0] != EffectView::Quit);
        assert(e.drop_first().len() == 0);
        assert(dispatch_spec(e.drop_first()).1 == None::<Outcome>);
    }
}

/// Each action yields at most one effect.
pub proof fn lemma_at_most_one_effect(s: AppView, a: ActionView)
    ensures
        step(s, a).1.len() <= 1,
{
}

/// The terminal is handed over only when greetd confirms a started session:
/// `LaunchAndExit` comes only from a success reply in the starting phase,
/// which moves the screen to `Done`.
pub proof fn lemma_launch_only_after_start(s: AppView, a: ActionView)
    ensures
        step(s, a).1.contains(EffectView::LaunchAndExit) ==> {
            &&& s.phase is Starting
            &&& a == ActionView::Greetd(ResponseView::Success)
            &&& step(s, a).0.phase is Done
        },
{
    let e = step(s, a).1;
    if e.contains(EffectView::LaunchAndExit) {
        lemma_at_most_one_effect(s, a);
        assert(e[0] == EffectView::LaunchAndExit);
    }
}

/// The configuration is never changed by an action: the brand, the demo flag
/// and the session command stay as they were built.
pub proof fn lemma_configuration_fixed(s: AppView, a: ActionView)
    ensures
        step(s, a).0.brand == s.brand,
        step(s, a).0.demo == s.demo,
        step(s, a).0.session_cmd == s.session_cmd,
{
}

/// A session is always started with the configured command and an empty
/// environment.
pub proof fn lemma_session_runs_configured_command(s: AppView, a: ActionView)
    ensures
        forall|i: int|
            0 <= i < step(s, a).1.len() ==> (#[trigger] step(s, a).1[i] matches EffectView::Send(
                RequestView::StartSession { cmd, env },
            ) ==> cmd == s.session_cmd && env.len() == 0),
{
}

/// A refusal from greetd forgets the typed password and any pending
/// credentials, shows the failure, and asks for nothing.
pub proof fn lemma_refusal_forgets_password(s: AppView, kind: ErrorType, description: Seq<char>)
    ensures
        ({
            let (t, e) = step(
                s,
                ActionView::Greetd(ResponseView::Error { error_type: kind, description }),
            );
            &&& t.password.len() == 0
            &&& !t.creds_pending
            &&& t.phase is Failed
            &&& t.focus == Field::Password
            &&& t.user == s.user
            &&& e.len() == 0
        }),
{
}

/// After a refusal the caret is on the password: what the user types next
/// goes into an empty password field, the user name stays as it was, and the
/// failure message gives way to the idle screen.
pub proof fn lemma_retry_after_refusal_types_password(
    s: AppView,
    kind: ErrorType,
    description: Seq<char>,
    c: char,
)
    requires
        !is_control_char(c),
    ensures
        ({
            let t = step(
                s,
                ActionView::Greetd(ResponseView::Error { error_type: kind, description }),
            ).0;
            let u = step(t, ActionView::Char(c)).0;
            &&& u.password == seq![c]
            &&& u.user == s.user
            &&& u.phase == PhaseView::Idle
        }),
{
    let t = step(s, ActionView::Greetd(ResponseView::Error { error_type: kind, description })).0;
    assert(t.password.push(c) =~= seq![c]);
}

/// At rest, Tab and the arrows move the caret to the other field and change
/// nothing else, so two presses give back the same state; during a
/// conversation they change nothing.
pub proof fn lemma_focus_toggle_switches_field(s: AppView)
    ensures
        ({
            let t = step(s, ActionView::FocusToggle);
            &&& t.1.len() == 0
            &&& at_rest(s.phase) ==> {
                &&& t.0.focus != s.focus
                &&& t.0 == (AppView { focus: t.0.focus, ..s })
                &&& step(t.0, ActionView::FocusToggle).0 == s
            }
            &&& !at_rest(s.phase) ==> t.0 == s
        }),
{
}

/// Backspace where typing is accepted removes the last character of the
/// edited field, and only that.
pub proof fn lemma_backspace_removes_last_char(s: AppView)
    requires
        editable_phase(s.phase),
    ensures
        ({
            let (t, e) = step(s, ActionView::Backspace);
            &&& e.len() == 0
            &&& t.phase == s.phase
            &&& types_into_user(s) ==> t.password == s.password && (if s.user.len() == 0 {
                t.user == s.user
            } else {
                t.user == s.user.subrange(0, s.user.len() - 1)
            })
            &&& !types_into_user(s) ==> t.user == s.user && (if s.password.len() == 0 {
                t.password == s.password
            } else {
                t.password == s.password.subrange(0, s.password.len() - 1)
            })
        }),
{
}

/// Backspace undoes the character just typed.
pub proof fn lemma_backspace_undoes_typing(s: AppView, c: char)
    requires
        editable_phase(s.phase),
        !(s.phase is Failed),
        !is_control_char(c),
    ensures
        step(step(s, ActionView::Char(c)).0, ActionView::Backspace).0 == s,
{
    let t = step(s, ActionView::Char(c)).0;
    assert(s.user.push(c).drop_last() =~= s.user);
    assert(s.password.push(c).drop_last() =~= s.password);
}

/// A key pressed without Control is never the interrupt, and Control-C is.
pub proof fn lemma_only_ctrl_c_interrupts(k: KeyPress)
    ensures
        !k.ctrl ==> !is_interrupt(k),
        k.ctrl && k.code == Key::Char('c') ==> is_interrupt(k),
        k.code != Key::Char('c') ==> !is_interrupt(k),
{
}

/// A plain character key stands for typing that character.
pub proof fn lemma_char_key_types_it(c: char)
    ensures
        key_action(Key::Char(c)) == Some(ActionView::Char(c)),
{
}

/// `keep_last(s, n)` is the last `n` elements of `s` (all of them when `s` is
/// shorter), in their order in `s`.
pub proof fn lemma_keep_last_is_suffix<A>(s: Seq<A>, n: nat)
    ensures
        keep_last(s, n).len() == (if s.len() <= n {
            s.len()
        } else {
            n
        }),
        forall|i: int|
            0 <= i < keep_last(s, n).len() ==> #[trigger] keep_last(s, n)[i] == s[s.len()
                - keep_last(s, n).len() + i],
{
}

/// A pushed line is always the newest one kept, and the lines before it are
/// the newest of those held before, up to the ring's room.
pub proof fn lemma_push_keeps_new_line(v: LogView, line: Seq<char>)
    requires
        log_wf(v),
    ensures
        ({
            let w = push_spec(v, line).lines;
            &&& w.len() == (if v.lines.len() < v.cap {
                v.lines.len() + 1
            } else {
                v.cap
            })
            &&& w[w.len() - 1] == line
            &&& forall|i: int|
                0 <= i < w.len() - 1 ==> #[trigger] w[i] == v.lines[v.lines.len() - (w.len() - 1)
                    + i]
        }),
{
    lemma_keep_last_is_suffix(v.lines.push(line), v.cap);
}

/// Answering a prompt sends what was typed and keeps no copy of it.
pub proof fn lemma_prompt_answer_leaves_no_copy(s: AppView)
    requires
        s.phase is Prompt,
    ensures
        step(s, ActionView::Submit).0.password.len() == 0,
        step(s, ActionView::Submit).0 == (AppView {
            password: Seq::empty(),
            phase: PhaseView::Authenticating,
            ..s
        }),
        step(s, ActionView::Submit).1 == send(
            RequestView::PostAuthMessageResponse { response: Some(s.password) },
        ),
{
}

/// Enter at rest with a user name asks greetd for a session for exactly that
/// name, clears the info line and keeps the typed password pending for the
/// first secret prompt; nothing else changes.
pub proof fn lemma_submit_opens_session(s: AppView)
    requires
        at_rest(s.phase),
        !is_blank(s.user),
    ensures
        step(s, ActionView::Submit).1 == send(RequestView::CreateSession { username: s.user }),
        step(s, ActionView::Submit).0 == (AppView {
            info: None,
            creds_pending: true,
            phase: PhaseView::Creating,
            ..s
        }),
{
}

/// While a request is in flight, or after the session started, Enter does
/// nothing: no second request is sent.
pub proof fn lemma_submit_ignored_in_flight(s: AppView)
    requires
        (s.phase is Creating || s.phase is Authenticating || s.phase is Starting || s.phase is Done),
    ensures
        step(s, ActionView::Submit) == (s, Seq::<EffectView>::empty()),
{
}

/// Escape with no conversation under way changes nothing; it quits the demo
/// greeter and is ignored by the real one.
pub proof fn lemma_cancel_at_rest(s: AppView)
    requires
        !in_auth_chain_phase(s.phase),
    ensures
        step(s, ActionView::Cancel).0 == s,
        step(s, ActionView::Cancel).1 == (if s.demo {
            seq![EffectView::Quit]
        } else {
            Seq::<EffectView>::empty()
        }),
{
}

/// A question from greetd during a conversation: a secret one is answered
/// at once with the typed password while credentials are pending; otherwise
/// it becomes a prompt with an empty answer field and the caret on it.
pub proof fn lemma_question_from_greetd(s: AppView, kind: AuthMessageType, message: Seq<char>)
    requires
        in_auth_chain_phase(s.phase),
        kind == AuthMessageType::Secret || kind == AuthMessageType::Visible,
    ensures
        ({
            let (t, e) = step(
                s,
                ActionView::Greetd(
                    ResponseView::AuthMessage { auth_message_type: kind, auth_message: message },
                ),
            );
            if kind == AuthMessageType::Secret && s.creds_pending {
                &&& e == send(RequestView::PostAuthMessageResponse { response: Some(s.password) })
                &&& t == AppView { creds_pending: false, phase: PhaseView::Authenticating, ..s }
            } else {
                &&& e.len() == 0
                &&& t == AppView {
                    password: Seq::empty(),
                    focus: Field::Password,
                    phase: PhaseView::Prompt { secret: kind == AuthMessageType::Secret, message },
                    ..s
                }
            }
        }),
{
}

/// An informational or error message from greetd during a conversation is
/// shown and acknowledged with an empty answer; the phase stays.
pub proof fn lemma_message_acknowledged(s: AppView, kind: AuthMessageType, message: Seq<char>)
    requires
        in_auth_chain_phase(s.phase),
        kind == AuthMessageType::Info || kind == AuthMessageType::Error,
    ensures
        ({
            let (t, e) = step(
                s,
                ActionView::Greetd(
                    ResponseView::AuthMessage { auth_message_type: kind, auth_message: message },
                ),
            );
            &&& e == send(RequestView::PostAuthMessageResponse { response: None })
            &&& t == AppView { info: Some(message), ..s }
        }),
{
}

/// greetd's success moves the conversation on: authentication done starts
/// the configured session, a started session hands the terminal over, and
/// a success with no conversation under way is ignored.
pub proof fn lemma_success_advances(s: AppView)
    ensures
        ({
            let (t, e) = step(s, ActionView::Greetd(ResponseView::Success));
            if s.phase is Starting {
                &&& e == seq![EffectView::LaunchAndExit]
                &&& t == AppView { phase: PhaseView::Done, ..s }
            } else if s.phase is Creating || s.phase is Prompt || s.phase is Authenticating {
                &&& e == send(RequestView::StartSession { cmd: s.session_cmd, env: Seq::empty() })
                &&& t == AppView { phase: PhaseView::Starting, info: None, ..s }
            } else {
                &&& e.len() == 0
                &&& t == s
            }
        }),
{
}

/// A printable character typed where typing is accepted lands at the end of
/// the edited field: the user name outside a prompt with the caret on it,
/// the password otherwise.
pub proof fn lemma_printable_char_is_typed(s: AppView, c: char)
    requires
        editable_phase(s.phase),
        !is_control_char(c),
    ensures
        ({
            let (t, e) = step(s, ActionView::Char(c));
            &&& e.len() == 0
            &&& types_into_user(s) ==> t.user == s.user.push(c) && t.password == s.password
            &&& !types_into_user(s) ==> t.password == s.password.push(c) && t.user == s.user
        }),
{
}

/// The password is never drawn as typed: outside the answer to a prompt that
/// greetd marked as not secret, the field shows one `*` per character.
pub proof fn lemma_password_never_shown(s: AppView)
    ensures
        shown_password(s).len() == s.password.len(),
        !shows_typed_text(s) ==> forall|i: int|
            0 <= i < s.password.len() ==> #[trigger] shown_password(s)[i] == '*',
        shows_typed_text(s) ==> s.phase == (PhaseView::Prompt {
            secret: false,
            message: s.phase->message,
        }),
{
}

/// Outside the phases that accept typing, keys that edit change nothing.
pub proof fn lemma_locked_input(s: AppView, a: ActionView)
    requires
        !editable_phase(s.phase),
        a is Char || a is Backspace,
    ensures
        step(s, a) == (s, Seq::<EffectView>::empty()),
{
}

/// Typing a printable character after a failure returns to the idle screen.
pub proof fn lemma_typing_clears_failure(s: AppView, c: char)
    requires
        s.phase is Failed,
        !is_control_char(c),
    ensures
        step(s, ActionView::Char(c)).0.phase == PhaseView::Idle,
        step(s, ActionView::Char(c)).1.len() == 0,
{
}

/// Prompts and successes that arrive while no conversation is under way are
/// ignored.
pub proof fn lemma_stray_replies_ignored(s: AppView, r: ResponseView)
    requires
        !in_auth_chain_phase(s.phase),
        !(r is Error),
    ensures
        step(s, ActionView::Greetd(r)) == (s, Seq::<EffectView>::empty()),
{
}

/// No session is asked for without a user name.
pub proof fn lemma_no_session_without_user(s: AppView)
    requires
        at_rest(s.phase),
        is_blank(s.user),
    ensures
        step(s, ActionView::Submit) == (s, Seq::<EffectView>::empty()),
{
}

/// Escape during a conversation cancels it and returns to the idle screen
/// with the password forgotten.
pub proof fn lemma_cancel_abandons_conversation(s: AppView)
    requires
        in_auth_chain_phase(s.phase),
    ensures
        step(s, ActionView::Cancel).1 == send(RequestView::CancelSession),
        step(s, ActionView::Cancel).0.phase == PhaseView::Idle,
        step(s, ActionView::Cancel).0.password.len() == 0,
        !step(s, ActionView::Cancel).0.creds_pending,
        step(s, ActionView::Cancel).0 == (AppView {
            phase: PhaseView::Idle,
            password: Seq::empty(),
            creds_pending: false,
            focus: Field::Password,
            ..s
        }),
{
}

/// The password typed before Enter answers greetd's first secret prompt by
/// itself: Enter opens a session for the user, and the secret prompt that
/// follows is answered with the typed password.
pub proof fn lemma_pretyped_password_is_fed(s: AppView, prompt: Seq<char>)
    requires
        at_rest(s.phase),
        !is_blank(s.user),
    ensures
        ({
            let (s1, e1) = step(s, ActionView::Submit);
            let (s2, e2) = step(
                s1,
                ActionView::Greetd(
                    ResponseView::AuthMessage {
                        auth_message_type: AuthMessageType::Secret,
                        auth_message: prompt,
                    },
                ),
            );
            &&& e1 == send(RequestView::CreateSession { username: s.user })
            &&& s1.phase == PhaseView::Creating
            &&& e2 == send(RequestView::PostAuthMessageResponse { response: Some(s.password) })
            &&& s2.phase == PhaseView::Authenticating
        }),
{
}

/// The typed password is fed at most once: once no credentials are pending,
/// a secret prompt waits for the user to type the answer, with the password
/// field emptied.
pub proof fn lemma_later_secret_prompt_waits_for_user(s: AppView, prompt: Seq<char>)
    requires
        in_auth_chain_phase(s.phase),
        !s.creds_pending,
    ensures
        ({
            let (t, e) = step(
                s,
                ActionView::Greetd(
                    ResponseView::AuthMessage {
                        auth_message_type: AuthMessageType::Secret,
                        auth_message: prompt,
                    },
                ),
            );
            &&& t.phase == PhaseView::Prompt { secret: true, message: prompt }
            &&& t.password.len() == 0
            &&& e.len() == 0
        }),
{
}

/// The reply of the demo stand-in to the request in a one-request effect list.
pub open spec fn mock_answer(e: Seq<EffectView>) -> ResponseView {
    match e[0] {
        EffectView::Send(r) => mock_reply_spec(r),
        _ => ResponseView::Success,
    }
}

/// Against the demo stand-in, a user who presses Enter with the password
/// `demo` (or none) is let in: the session is created, the password is fed,
/// the session is started and the terminal is handed over. Any other
/// password ends on the failure screen with the stand-in's refusal.
pub proof fn lemma_demo_login(s: AppView)
    requires
        at_rest(s.phase),
        !is_blank(s.user),
    ensures
        ({
            let (s1, e1) = step(s, ActionView::Submit);
            let (s2, e2) = step(s1, ActionView::Greetd(mock_answer(e1)));
            let (s3, e3) = step(s2, ActionView::Greetd(mock_answer(e2)));
            if s.password == demo_password() || s.password.len() == 0 {
                let (s4, e4) = step(s3, ActionView::Greetd(mock_answer(e3)));
                &&& e3 == send(RequestView::StartSession { cmd: s.session_cmd, env: Seq::empty() })
                &&& e4 == seq![EffectView::LaunchAndExit]
                &&& s4.phase == PhaseView::Done
            } else {
                &&& e3.len() == 0
                &&& s3.phase == PhaseView::Failed(demo_refusal())
                &&& s3.password.len() == 0
            }
        }),
{
    let (s1, e1) = step(s, ActionView::Submit);
    assert(mock_answer(e1) == ResponseView::AuthMessage {
        auth_message_type: AuthMessageType::Secret,
        auth_message: "Password: "@,
    });
    let (s2, e2) = step(s1, ActionView::Greetd(mock_answer(e1)));
    assert(e2 == send(RequestView::PostAuthMessageResponse { response: Some(s.password) }));
    assert(s2.phase == PhaseView::Authenticating);
    let (s3, e3) = step(s2, ActionView::Greetd(mock_answer(e2)));
    if s.password == demo_password() || s.password.len() == 0 {
        assert(mock_answer(e2) == ResponseView::Success);
        assert(s3.phase == PhaseView::Starting);
        assert(mock_answer(e3) == ResponseView::Success);
    } else {
        reveal_strlit("authentication failed");
        assert(demo_refusal().len() > 0);
        assert(mock_answer(e2) == ResponseView::Error {
            error_type: ErrorType::AuthError,
            description: demo_refusal(),
        });
    }
}

/// The log ring after pushing each of `lines` in turn.
pub open spec fn push_all(v: LogView, lines: Seq<Seq<char>>) -> LogView
    decreases lines.len(),
{
    if lines.len() == 0 {
        v
    } else {
        push_all(push_spec(v, lines[0]), lines.drop_first())
    }
}

/// However many lines are pushed, the ring holds exactly the newest `cap` of
/// everything it was given, oldest first, and never more than `cap`.
pub proof fn lemma_ring_keeps_newest(v: LogView, lines: Seq<Seq<char>>)
    requires
        log_wf(v),
    ensures
        log_wf(push_all(v, lines)),
        push_all(v, lines).cap == v.cap,
        push_all(v, lines).lines == keep_last(v.lines + lines, v.cap),
    decreases lines.len(),
{
    if lines.len() == 0 {
        assert(v.lines + lines =~= v.lines);
    } else {
        let v1 = push_spec(v, lines[0]);
        assert(v.lines =~= keep_last(v.lines, v.cap));
        lemma_ring_keeps_newest(v1, lines.drop_first());
        assert(v1.lines + lines.drop_first() =~= keep_last(v.lines.push(lines[0]), v.cap)
            + lines.drop_first());
        lemma_keep_last_append(v.lines.push(lines[0]), lines.drop_first(), v.cap);
        assert(v.lines.push(lines[0]) + lines.drop_first() =~= v.lines + lines);
    }
}

proof fn lemma_keep_last_append<A>(a: Seq<A>, b: Seq<A>, n: nat)
    requires
        1 <= n,
    ensures
        keep_last(keep_last(a, n) + b, n) == keep_last(a + b, n),
{
    assert(keep_last(keep_last(a, n) + b, n) =~= keep_last(a + b, n));
}

/// A buffer never holds more than its room, so asking for at least that many
/// lines gives back every line it holds.
pub proof fn lemma_tail_of_whole_ring(v: LogView, n: nat)
    requires
        log_wf(v),
        n >= v.cap,
    ensures
        keep_last(v.lines, n) == v.lines,
{
}

} // verus!
