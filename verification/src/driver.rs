//! The decisions of the terminal event loop: which key does what, when the
//! greeter may leave, and how the reducer's effects are carried out.

use vstd::prelude::*;

use crate::app::{effects_view, step, Action, ActionView, AppState, Effect, EffectView};
use crate::greetd::{Request, RequestView};

verus! {

/// A key as the terminal reports it.
#[derive(Debug, Clone, Copy, PartialEq, Eq)]
pub enum Key {
    Enter,
    Tab,
    BackTab,
    Down,
    Up,
    Backspace,
    Esc,
    Char(char),
    Other,
}

/// One key event: the key, whether Control was held, and whether it is a
/// key release rather than a press.
#[derive(Debug, Clone, Copy, PartialEq, Eq)]
pub struct KeyPress {
    pub code: Key,
    pub ctrl: bool,
    pub release: bool,
}

/// How the greeter ends.
#[derive(Debug, Clone, Copy, PartialEq, Eq)]
pub enum Outcome {
    /// Hand the terminal to greetd, which starts the session.
    Launch,
    Quit,
}

/// One event from the terminal.
#[derive(Debug, Clone, Copy, PartialEq, Eq)]
pub enum TermEvent {
    Key(KeyPress),
    /// Anything else (resize, focus, mouse).
    Other,
    /// The terminal's event stream failed or ended.
    Closed,
}

/// What the event loop does after a key.
#[derive(Debug)]
pub enum KeyStep {
    /// Nothing happens.
    Ignore,
    /// The greeter ends at once.
    Exit(Outcome),
    /// The reducer ran; its effects are to be carried out.
    Effects(Vec<Effect>),
}

/// What the event loop must do with a list of effects: send these requests
/// in order, then end with `outcome` if there is one.
#[derive(Debug)]
pub struct Dispatch {
    pub sends: Vec<Request>,
    pub outcome: Option<Outcome>,
}

/// Which greetd the greeter talks to.
#[derive(Debug, Clone, Copy, PartialEq, Eq)]
pub struct Backend {
    /// Use the real greetd socket (otherwise the in-process stand-in).
    pub real: bool,
    /// Run as the demo greeter.
    pub demo: bool,
    /// Tell the user that demo mode was chosen because no socket is set.
    pub announce_demo: bool,
}

/// The action a key stands for.
pub open spec fn key_action(k: Key) -> Option<ActionView> {
    match k {
        Key::Enter => Some(ActionView::Submit),
        Key::Tab | Key::BackTab | Key::Down | Key::Up => Some(ActionView::FocusToggle),
        Key::Backspace => Some(ActionView::Backspace),
        Key::Esc => Some(ActionView::Cancel),
        Key::Char(c) => Some(ActionView::Char(c)),
        Key::Other => None,
    }
}

/// Control-C.
pub open spec fn is_interrupt(k: KeyPress) -> bool {
    k.ctrl && k.code == Key::Char('c')
}

/// The requests to send and the final outcome for a list of effects: every
/// request up to the first effect that ends the greeter, then that ending.
pub open spec fn dispatch_spec(effects: Seq<EffectView>) -> (Seq<RequestView>, Option<Outcome>)
    decreases effects.len(),
{
    if effects.len() == 0 {
        (seq![], None)
    } else {
        match effects[0] {
            EffectView::Send(r) => {
                let rest = dispatch_spec(effects.drop_first());
                (seq![r] + rest.0, rest.1)
            },
            EffectView::LaunchAndExit => (seq![], Some(Outcome::Launch)),
            EffectView::Quit => (seq![], Some(Outcome::Quit)),
        }
    }
}

/// The action that a key stands for, if any.
pub fn map_key(code: Key) -> (r: Option<Action>)
    ensures
        match r {
            Some(a) => key_action(code) == Some(a@),
            None => key_action(code) is None,
        },
{
    match code {
        Key::Enter => Some(Action::Submit),
        Key::Tab | Key::BackTab | Key::Down | Key::Up => Some(Action::FocusToggle),
        Key::Backspace => Some(Action::Backspace),
        Key::Esc => Some(Action::Cancel),
        Key::Char(c) => Some(Action::Char(c)),
        Key::Other => None,
    }
}

/// Handles one key event: releases are ignored; Control-C quits the demo
/// greeter and is ignored by the real one; any other mapped key runs the
/// reducer.
pub fn on_key(app: &mut AppState, key: KeyPress) -> (r: KeyStep)
    ensures
        key.release ==> final(app)@ == old(app)@ && r is Ignore,
        !key.release && is_interrupt(key) ==> final(app)@ == old(app)@ && (if old(app)@.demo {
            r == KeyStep::Exit(Outcome::Quit)
        } else {
            r is Ignore
        }),
        !key.release && !is_interrupt(key) ==> match key_action(key.code) {
            None => final(app)@ == old(app)@ && r is Ignore,
            Some(a) => {
                &&& final(app)@ == step(old(app)@, a).0
                &&& r matches KeyStep::Effects(e) && effects_view(e@) == step(old(app)@, a).1
            },
        },
        !key.release && !key.ctrl ==> match key.code {
            Key::Char(c) => {
                &&& final(app)@ == step(old(app)@, ActionView::Char(c)).0
                &&& r matches KeyStep::Effects(e) && effects_view(e@) == step(
                    old(app)@,
                    ActionView::Char(c),
                ).1
            },
            _ => true,
        },
{
    if key.release {
        return KeyStep::Ignore;
    }
    let interrupt = key.ctrl && match key.code {
        Key::Char(c) => c == 'c',
        _ => false,
    };
    if interrupt {
        // Ctrl+C: hard quit in demo, ignored in real mode.
        if app.is_demo() {
            return KeyStep::Exit(Outcome::Quit);
        }
        return KeyStep::Ignore;
    }
    match map_key(key.code) {
        Some(action) => KeyStep::Effects(app.update(action)),
        None => KeyStep::Ignore,
    }
}

/// Handles one terminal event: keys as `on_key` does, other events are
/// ignored, and a closed or failed event stream ends the greeter, since no
/// further input can reach it.
pub fn on_event(app: &mut AppState, event: TermEvent) -> (r: KeyStep)
    ensures
        event is Other ==> final(app)@ == old(app)@ && r is Ignore,
        event is Closed ==> final(app)@ == old(app)@ && r == KeyStep::Exit(Outcome::Quit),
        event matches TermEvent::Key(key) ==> ({
            &&& key.release ==> final(app)@ == old(app)@ && r is Ignore
            &&& !key.release && is_interrupt(key) ==> final(app)@ == old(app)@ && (if old(
                app,
            )@.demo {
                r == KeyStep::Exit(Outcome::Quit)
            } else {
                r is Ignore
            })
            &&& !key.release && !is_interrupt(key) ==> match key_action(key.code) {
                None => final(app)@ == old(app)@ && r is Ignore,
                Some(a) => {
                    &&& final(app)@ == step(old(app)@, a).0
                    &&& r matches KeyStep::Effects(e) && effects_view(e@) == step(old(app)@, a).1
                },
            }
        }),
{
    match event {
        TermEvent::Key(key) => on_key(app, key),
        TermEvent::Other => KeyStep::Ignore,
        TermEvent::Closed => KeyStep::Exit(Outcome::Quit),
    }
}

/// How the greeter goes on after the event loop tried to send, in order,
/// the `to_send` requests of a dispatch whose ending is `outcome`, and
/// `delivered` of them reached greetd: if one did not, greetd is gone and the
/// session cannot be recovered, so the greeter quits; otherwise it ends as
/// the dispatch says, or goes on.
pub fn after_sends(outcome: Option<Outcome>, to_send: usize, delivered: usize) -> (r: Option<
    Outcome,
>)
    ensures
        delivered < to_send ==> r == Some(Outcome::Quit),
        delivered >= to_send ==> r == outcome,
{
    if delivered < to_send {
        Some(Outcome::Quit)
    } else {
        outcome
    }
}

/// Splits a list of effects into the requests to send, in order, and the
/// ending that follows them, if any.
pub fn dispatch(effects: Vec<Effect>) -> (d: Dispatch)
    ensures
        d.sends@.map_values(|r: Request| r@) == dispatch_spec(effects_view(effects@)).0,
        d.outcome == dispatch_spec(effects_view(effects@)).1,
{
    let mut rest = effects;
    let mut sends: Vec<Request> = Vec::new();
    let ghost all = effects_view(effects@);
    while rest.len() > 0
        invariant
            all == effects_view(effects@),
            dispatch_spec(all).0 == sends@.map_values(|r: Request| r@) + dispatch_spec(
                effects_view(rest@),
            ).0,
            dispatch_spec(all).1 == dispatch_spec(effects_view(rest@)).1,
        decreases rest.len(),
    {
        let ghost before = rest@;
        let e = rest.remove(0);
        proof {
            assert(effects_view(rest@) =~= effects_view(before).drop_first());
            assert(effects_view(before)[0] == e@);
        }
        match e {
            Effect::Send(r) => {
                let ghost prev = sends@;
                sends.push(r);
                proof {
                    assert(sends@.map_values(|r: Request| r@) =~= prev.map_values(|r: Request| r@)
                        + seq![r@]);
                    assert(dispatch_spec(effects_view(before)).0 =~= seq![r@] + dispatch_spec(
                        effects_view(rest@),
                    ).0);
                }
            },
            Effect::LaunchAndExit => {
                proof {
                    assert(sends@.map_values(|r: Request| r@) + Seq::<RequestView>::empty()
                        =~= sends@.map_values(|r: Request| r@));
                }
                return Dispatch { sends, outcome: Some(Outcome::Launch) };
            },
            Effect::Quit => {
                proof {
                    assert(sends@.map_values(|r: Request| r@) + Seq::<RequestView>::empty()
                        =~= sends@.map_values(|r: Request| r@));
                }
                return Dispatch { sends, outcome: Some(Outcome::Quit) };
            },
        }
    }
    proof {
        assert(effects_view(rest@) =~= Seq::<EffectView>::empty());
        assert(sends@.map_values(|r: Request| r@) + Seq::<RequestView>::empty() =~= sends@.map_values(
            |r: Request| r@,
        ));
    }
    Dispatch { sends, outcome: None }
}

/// Which greetd to use: the real socket only when it is set and demo mode is
/// not asked for; anything else runs the stand-in as the demo greeter, so
/// that a plain terminal can never reach PAM. Demo mode chosen for want of a
/// socket, without being asked for, is announced.
pub fn choose_backend(socket_set: bool, demo_flag: bool) -> (b: Backend)
    ensures
        b.real == (socket_set && !demo_flag),
        b.demo == !b.real,
        b.announce_demo == (!socket_set && !demo_flag),
{
    if socket_set && !demo_flag {
        Backend { real: true, demo: false, announce_demo: false }
    } else if socket_set {
        Backend { real: false, demo: true, announce_demo: false }
    } else {
        Backend { real: false, demo: true, announce_demo: !demo_flag }
    }
}

} // verus!
