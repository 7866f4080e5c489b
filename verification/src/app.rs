//! The authentication reducer: a pure `AppState + Action -> Vec<Effect>`
//! state machine with no I/O. Keys typed by the user and replies from greetd
//! come in as actions; requests for greetd, and the decision to hand the
//! terminal over to the new session, go out as effects.

use vstd::prelude::*;
use vstd::string::*;
use vstd::std_specs::cmp::PartialEqSpecImpl;

use crate::greetd::{AuthMessageType, ErrorType, Request, RequestView, Response, ResponseView};
use crate::text::{blank, char_is_control, is_blank, is_control_char, string_pop, string_push};

verus! {

/// The input field that has the caret.
#[derive(Debug, Clone, Copy, PartialEq, Eq)]
pub enum Field {
    User,
    Password,
}

/// Where the login conversation stands.
#[derive(Debug, Clone, PartialEq, Eq)]
pub enum Phase {
    Idle,
    Creating,
    /// greetd asked something not pre-filled; caret is live in the field.
    Prompt { secret: bool, message: String },
    Authenticating,
    Starting,
    Done,
    Failed(String),
}

/// What the event loop must do after an update.
#[derive(Debug)]
pub enum Effect {
    Send(Request),
    /// Restore the terminal and exit 0 so greetd execs the session.
    LaunchAndExit,
    Quit,
}

/// One input to the reducer.
#[derive(Debug)]
pub enum Action {
    Char(char),
    Backspace,
    FocusToggle,
    Submit,
    Cancel,
    Greetd(Response),
    Tick,
}

/// The whole state of the login screen.
#[derive(Debug, Clone)]
pub struct AppState {
    pub brand: String,
    pub user: String,
    pub password: String,
    pub focus: Field,
    pub phase: Phase,
    pub info: Option<String>,
    pub demo: bool,
    pub tick: u64,
    session_cmd: Vec<String>,
    /// The typed password still needs to be auto-fed to the first secret prompt.
    creds_pending: bool,
}

// ---------------------------------------------------------------------------
// Mathematical model
// ---------------------------------------------------------------------------

/// The mathematical value of a `Phase`.
#[verifier::ext_equal]
pub enum PhaseView {
    Idle,
    Creating,
    Prompt { secret: bool, message: Seq<char> },
    Authenticating,
    Starting,
    Done,
    Failed(Seq<char>),
}

/// The mathematical value of an `Effect`.
pub enum EffectView {
    Send(RequestView),
    LaunchAndExit,
    Quit,
}

/// The mathematical value of an `Action`.
pub enum ActionView {
    Char(char),
    Backspace,
    FocusToggle,
    Submit,
    Cancel,
    Greetd(ResponseView),
    Tick,
}

/// The mathematical value of an `AppState`.
#[verifier::ext_equal]
pub struct AppView {
    pub brand: Seq<char>,
    pub user: Seq<char>,
    pub password: Seq<char>,
    pub focus: Field,
    pub phase: PhaseView,
    pub info: Option<Seq<char>>,
    pub demo: bool,
    pub tick: u64,
    pub session_cmd: Seq<Seq<char>>,
    pub creds_pending: bool,
}

impl View for Phase {
    type V = PhaseView;

    open spec fn view(&self) -> PhaseView {
        match self {
            Phase::Idle => PhaseView::Idle,
            Phase::Creating => PhaseView::Creating,
            Phase::Prompt { secret, message } => PhaseView::Prompt { secret: *secret, message: message@ },
            Phase::Authenticating => PhaseView::Authenticating,
            Phase::Starting => PhaseView::Starting,
            Phase::Done => PhaseView::Done,
            Phase::Failed(m) => PhaseView::Failed(m@),
        }
    }
}

impl View for Effect {
    type V = EffectView;

    open spec fn view(&self) -> EffectView {
        match self {
            Effect::Send(r) => EffectView::Send(r@),
            Effect::LaunchAndExit => EffectView::LaunchAndExit,
            Effect::Quit => EffectView::Quit,
        }
    }
}

impl View for Action {
    type V = ActionView;

    open spec fn view(&self) -> ActionView {
        match self {
            Action::Char(c) => ActionView::Char(*c),
            Action::Backspace => ActionView::Backspace,
            Action::FocusToggle => ActionView::FocusToggle,
            Action::Submit => ActionView::Submit,
            Action::Cancel => ActionView::Cancel,
            Action::Greetd(r) => ActionView::Greetd(r@),
            Action::Tick => ActionView::Tick,
        }
    }
}

impl View for AppState {
    type V = AppView;

    closed spec fn view(&self) -> AppView {
        AppView {
            brand: self.brand@,
            user: self.user@,
            password: self.password@,
            focus: self.focus,
            phase: self.phase@,
            info: self.info.deep_view(),
            demo: self.demo,
            tick: self.tick,
            session_cmd: self.session_cmd.deep_view(),
            creds_pending: self.creds_pending,
        }
    }
}

/// The effects of a vector of effects, in order.
pub open spec fn effects_view(v: Seq<Effect>) -> Seq<EffectView> {
    v.map_values(|e: Effect| e@)
}

/// Phases in which the user may type.
pub open spec fn editable_phase(p: PhaseView) -> bool {
    p is Idle || p is Failed || p is Prompt
}

/// Phases in which a conversation with greetd is under way.
pub open spec fn in_auth_chain_phase(p: PhaseView) -> bool {
    p is Creating || p is Prompt || p is Authenticating || p is Starting
}

/// Phases in which a new session may be requested and focus moved.
pub open spec fn at_rest(p: PhaseView) -> bool {
    p is Idle || p is Failed
}

/// Typing goes to the user field only outside a prompt and with the caret on
/// the user field; otherwise it goes to the password.
pub open spec fn types_into_user(s: AppView) -> bool {
    !(s.phase is Prompt) && s.focus == Field::User
}

/// `s` with the buffer that typing edits replaced by `b`.
pub open spec fn with_active_buffer(s: AppView, b: Seq<char>) -> AppView {
    if types_into_user(s) {
        AppView { user: b, ..s }
    } else {
        AppView { password: b, ..s }
    }
}

/// The buffer that typing edits.
pub open spec fn active_buffer_of(s: AppView) -> Seq<char> {
    if types_into_user(s) {
        s.user
    } else {
        s.password
    }
}

/// Back at the idle screen with no password and the caret on it.
pub open spec fn reset_spec(s: AppView) -> AppView {
    AppView {
        phase: PhaseView::Idle,
        password: Seq::empty(),
        creds_pending: false,
        focus: Field::Password,
        ..s
    }
}

/// The message shown after greetd refuses.
pub open spec fn failure_message(kind: ErrorType, description: Seq<char>) -> Seq<char> {
    match kind {
        ErrorType::AuthError => if description.len() == 0 {
            "access denied"@
        } else {
            description
        },
        ErrorType::Error => "error: "@ + description,
    }
}

/// The tick counter after one more tick, wrapping at `u64::MAX`.
pub open spec fn next_tick(t: u64) -> u64 {
    if t == u64::MAX {
        0
    } else {
        (t + 1) as u64
    }
}

/// The one-request effect list.
pub open spec fn send(r: RequestView) -> Seq<EffectView> {
    seq![EffectView::Send(r)]
}

/// A printable character typed by the user.
pub open spec fn char_step(s: AppView, c: char) -> (AppView, Seq<EffectView>) {
    if editable_phase(s.phase) && !is_control_char(c) {
        let s1 = if s.phase is Failed {
            AppView { phase: PhaseView::Idle, ..s }
        } else {
            s
        };
        (with_active_buffer(s1, active_buffer_of(s1).push(c)), seq![])
    } else {
        (s, seq![])
    }
}

/// Backspace: the last character of the edited buffer goes, if any.
pub open spec fn backspace_step(s: AppView) -> (AppView, Seq<EffectView>) {
    if editable_phase(s.phase) && active_buffer_of(s).len() > 0 {
        (with_active_buffer(s, active_buffer_of(s).drop_last()), seq![])
    } else {
        (s, seq![])
    }
}

/// Tab and the arrows move the caret between the fields, at rest only.
pub open spec fn focus_step(s: AppView) -> (AppView, Seq<EffectView>) {
    if at_rest(s.phase) {
        let f = match s.focus {
            Field::User => Field::Password,
            Field::Password => Field::User,
        };
        (AppView { focus: f, ..s }, seq![])
    } else {
        (s, seq![])
    }
}

/// Enter: at rest it opens a session for a non-blank user name and keeps the
/// typed password for the first secret prompt; in a prompt it answers with
/// what was typed and forgets it.
pub open spec fn submit_step(s: AppView) -> (AppView, Seq<EffectView>) {
    if at_rest(s.phase) {
        if is_blank(s.user) {
            (s, seq![])
        } else {
            (
                AppView { info: None, creds_pending: true, phase: PhaseView::Creating, ..s },
                send(RequestView::CreateSession { username: s.user }),
            )
        }
    } else if s.phase is Prompt {
        (
            AppView { password: Seq::empty(), phase: PhaseView::Authenticating, ..s },
            send(RequestView::PostAuthMessageResponse { response: Some(s.password) }),
        )
    } else {
        (s, seq![])
    }
}

/// Escape: abandons a conversation under way; otherwise only the demo quits.
pub open spec fn cancel_step(s: AppView) -> (AppView, Seq<EffectView>) {
    if in_auth_chain_phase(s.phase) {
        (reset_spec(s), send(RequestView::CancelSession))
    } else if s.demo {
        (s, seq![EffectView::Quit])
    } else {
        (s, seq![])
    }
}

/// greetd asks a question or shows a message.
pub open spec fn auth_message_step(s: AppView, kind: AuthMessageType, message: Seq<char>) -> (
    AppView,
    Seq<EffectView>,
) {
    if !in_auth_chain_phase(s.phase) {
        (s, seq![])
    } else {
        match kind {
            AuthMessageType::Secret | AuthMessageType::Visible => {
                let secret = kind == AuthMessageType::Secret;
                if secret && s.creds_pending {
                    (
                        AppView { creds_pending: false, phase: PhaseView::Authenticating, ..s },
                        send(RequestView::PostAuthMessageResponse { response: Some(s.password) }),
                    )
                } else {
                    (
                        AppView {
                            password: Seq::empty(),
                            focus: Field::Password,
                            phase: PhaseView::Prompt { secret, message },
                            ..s
                        },
                        seq![],
                    )
                }
            },
            AuthMessageType::Info | AuthMessageType::Error => (
                AppView { info: Some(message), ..s },
                send(RequestView::PostAuthMessageResponse { response: None }),
            ),
        }
    }
}

/// greetd accepted the last request.
pub open spec fn success_step(s: AppView) -> (AppView, Seq<EffectView>) {
    if s.phase is Starting {
        (AppView { phase: PhaseView::Done, ..s }, seq![EffectView::LaunchAndExit])
    } else if in_auth_chain_phase(s.phase) {
        (
            AppView { phase: PhaseView::Starting, info: None, ..s },
            send(RequestView::StartSession { cmd: s.session_cmd, env: Seq::empty() }),
        )
    } else {
        (s, seq![])
    }
}

/// greetd refused: the password and any pending credentials are dropped.
pub open spec fn error_step(s: AppView, kind: ErrorType, description: Seq<char>) -> (
    AppView,
    Seq<EffectView>,
) {
    (
        AppView {
            creds_pending: false,
            password: Seq::empty(),
            focus: Field::Password,
            phase: PhaseView::Failed(failure_message(kind, description)),
            ..s
        },
        seq![],
    )
}

/// A reply from greetd.
pub open spec fn greetd_step(s: AppView, r: ResponseView) -> (AppView, Seq<EffectView>) {
    match r {
        ResponseView::AuthMessage { auth_message_type, auth_message } => auth_message_step(
            s,
            auth_message_type,
            auth_message,
        ),
        ResponseView::Success => success_step(s),
        ResponseView::Error { error_type, description } => error_step(s, error_type, description),
    }
}

/// The reducer: the next state and the effects of one action.
pub open spec fn step(s: AppView, a: ActionView) -> (AppView, Seq<EffectView>) {
    match a {
        ActionView::Tick => (AppView { tick: next_tick(s.tick), ..s }, seq![]),
        ActionView::Char(c) => char_step(s, c),
        ActionView::Backspace => backspace_step(s),
        ActionView::FocusToggle => focus_step(s),
        ActionView::Submit => submit_step(s),
        ActionView::Cancel => cancel_step(s),
        ActionView::Greetd(r) => greetd_step(s, r),
    }
}

/// Whether the password field is drawn as typed: only while answering a
/// prompt that greetd marked as not secret.
pub open spec fn shows_typed_text(s: AppView) -> bool {
    s.phase matches PhaseView::Prompt { secret, .. } && !secret
}

/// What the password field shows.
pub open spec fn shown_password(s: AppView) -> Seq<char> {
    if shows_typed_text(s) {
        s.password
    } else {
        Seq::new(s.password.len(), |_i: int| '*')
    }
}

/// The state right after `new`.
pub open spec fn initial(brand: Seq<char>, user: Seq<char>, session_cmd: Seq<Seq<char>>, demo: bool) -> AppView {
    AppView {
        brand,
        user,
        password: Seq::empty(),
        focus: if user.len() == 0 {
            Field::User
        } else {
            Field::Password
        },
        phase: PhaseView::Idle,
        info: None,
        demo,
        tick: 0,
        session_cmd,
        creds_pending: false,
    }
}

// ---------------------------------------------------------------------------
// Executable reducer
// ---------------------------------------------------------------------------

fn no_effects() -> (v: Vec<Effect>)
    ensures
        effects_view(v@) == Seq::<EffectView>::empty(),
{
    let v: Vec<Effect> = Vec::new();
    proof {
        assert(effects_view(v@) =~= Seq::<EffectView>::empty());
    }
    v
}

fn one_effect(e: Effect) -> (v: Vec<Effect>)
    ensures
        effects_view(v@) == seq![e@],
{
    let mut v: Vec<Effect> = Vec::new();
    v.push(e);
    proof {
        assert(effects_view(v@) =~= seq![e@]);
    }
    v
}

fn clone_strings(v: &Vec<String>) -> (r: Vec<String>)
    ensures
        r.deep_view() == v.deep_view(),
{
    let mut r: Vec<String> = Vec::new();
    let mut i: usize = 0;
    while i < v.len()
        invariant
            i <= v.len(),
            r.len() == i,
            forall|j: int| 0 <= j < i ==> r[j]@ == #[trigger] v[j]@,
        decreases v.len() - i,
    {
        r.push(v[i].clone());
        i = i + 1;
    }
    proof {
        assert(r.deep_view() =~= v.deep_view());
    }
    r
}

fn strings_eq(a: &Vec<String>, b: &Vec<String>) -> (r: bool)
    ensures
        r == (a.deep_view() == b.deep_view()),
{
    if a.len() != b.len() {
        proof {
            assert(a.deep_view().len() != b.deep_view().len());
        }
        return false;
    }
    let mut i: usize = 0;
    while i < a.len()
        invariant
            a.len() == b.len(),
            i <= a.len(),
            forall|j: int| 0 <= j < i ==> a[j]@ == #[trigger] b[j]@,
        decreases a.len() - i,
    {
        if !a[i].eq(&b[i]) {
            proof {
                assert(a.deep_view()[i as int] != b.deep_view()[i as int]);
            }
            return false;
        }
        i = i + 1;
    }
    proof {
        assert(a.deep_view() =~= b.deep_view());
    }
    true
}

fn request_eq(a: &Request, b: &Request) -> (r: bool)
    ensures
        r == (a@ == b@),
{
    match (a, b) {
        (Request::CreateSession { username: x }, Request::CreateSession { username: y }) => x.eq(y),
        (
            Request::PostAuthMessageResponse { response: x },
            Request::PostAuthMessageResponse { response: y },
        ) => match (x, y) {
            (None, None) => true,
            (Some(p), Some(q)) => p.eq(q),
            _ => false,
        },
        (Request::StartSession { cmd: c1, env: e1 }, Request::StartSession { cmd: c2, env: e2 }) => {
            strings_eq(c1, c2) && strings_eq(e1, e2)
        },
        (Request::CancelSession, Request::CancelSession) => true,
        _ => false,
    }
}

impl PartialEq for Effect {
    fn eq(&self, other: &Self) -> (r: bool) {
        match (self, other) {
            (Effect::LaunchAndExit, Effect::LaunchAndExit) => true,
            (Effect::Quit, Effect::Quit) => true,
            (Effect::Send(a), Effect::Send(b)) => request_eq(a, b),
            _ => false,
        }
    }
}

impl PartialEqSpecImpl for Effect {
    open spec fn obeys_eq_spec() -> bool {
        true
    }

    open spec fn eq_spec(&self, other: &Effect) -> bool {
        self@ == other@
    }
}

impl AppState {
    /// The idle login screen: caret on the user field when no user name is
    /// preset, on the password otherwise.
    pub fn new(brand: String, user: String, session_cmd: Vec<String>, demo: bool) -> (s: Self)
        ensures
            s@ == initial(brand@, user@, session_cmd.deep_view(), demo),
    {
        let focus = if user.as_str().is_empty() {
            Field::User
        } else {
            Field::Password
        };
        AppState {
            brand,
            user,
            password: String::new(),
            focus,
            phase: Phase::Idle,
            info: None,
            demo,
            tick: 0,
            session_cmd,
            creds_pending: false,
        }
    }

    /// Whether this is the demo greeter, which may quit without a session.
    pub fn is_demo(&self) -> (r: bool)
        ensures
            r == self@.demo,
    {
        self.demo
    }

    /// The status text shown while idle.
    pub fn brand(&self) -> (r: &String)
        ensures
            r@ == self@.brand,
    {
        &self.brand
    }

    /// The user name typed so far.
    pub fn user(&self) -> (r: &String)
        ensures
            r@ == self@.user,
    {
        &self.user
    }

    /// The password (or prompt answer) typed so far.
    pub fn password(&self) -> (r: &String)
        ensures
            r@ == self@.password,
    {
        &self.password
    }

    /// The field with the caret.
    pub fn focus(&self) -> (r: Field)
        ensures
            r == self@.focus,
    {
        self.focus
    }

    /// Where the login conversation stands.
    pub fn phase(&self) -> (r: &Phase)
        ensures
            r@ == self@.phase,
    {
        &self.phase
    }

    /// The last informational message from greetd, if any.
    pub fn info(&self) -> (r: &Option<String>)
        ensures
            r.deep_view() == self@.info,
    {
        &self.info
    }

    /// The animation clock.
    pub fn tick(&self) -> (r: u64)
        ensures
            r == self@.tick,
    {
        self.tick
    }

    /// The password field as it is drawn: the typed answer to a visible
    /// prompt as it is, anything else as one `*` per character.
    pub fn masked_password(&self) -> (r: String)
        ensures
            r@ == shown_password(self@),
    {
        let visible = match &self.phase {
            Phase::Prompt { secret, .. } => !*secret,
            _ => false,
        };
        if visible {
            return self.password.clone();
        }
        let n: usize = self.password.as_str().unicode_len();
        let mut r = String::new();
        let mut i: usize = 0;
        while i < n
            invariant
                i <= n,
                r@ == Seq::new(i as nat, |_j: int| '*'),
            decreases n - i,
        {
            string_push(&mut r, '*');
            proof {
                assert(r@ =~= Seq::new((i + 1) as nat, |_j: int| '*'));
            }
            i = i + 1;
        }
        r
    }

    fn in_auth_chain(&self) -> (r: bool)
        ensures
            r == in_auth_chain_phase(self@.phase),
    {
        match self.phase {
            Phase::Creating | Phase::Prompt { .. } | Phase::Authenticating | Phase::Starting => true,
            _ => false,
        }
    }

    fn at_rest(&self) -> (r: bool)
        ensures
            r == at_rest(self@.phase),
    {
        match self.phase {
            Phase::Idle | Phase::Failed(_) => true,
            _ => false,
        }
    }

    /// Whether typing is accepted in the current phase.
    pub fn editable(&self) -> (r: bool)
        ensures
            r == editable_phase(self@.phase),
    {
        match self.phase {
            Phase::Idle | Phase::Failed(_) | Phase::Prompt { .. } => true,
            _ => false,
        }
    }

    fn active_buffer(&mut self) -> (buf: &mut String)
        ensures
            *buf == (if types_into_user(old(self)@) {
                old(self).user
            } else {
                old(self).password
            }),
            final(self)@ == with_active_buffer(old(self)@, final(buf)@),
    {
        // During a prompt all typing goes to the password buffer regardless of
        // focus; the prompt's secret flag decides how it renders.
        match self.phase {
            Phase::Prompt { .. } => &mut self.password,
            _ => match self.focus {
                Field::User => &mut self.user,
                Field::Password => &mut self.password,
            },
        }
    }

    /// Applies one action and returns what the event loop must do.
    pub fn update(&mut self, action: Action) -> (effects: Vec<Effect>)
        ensures
            final(self)@ == step(old(self)@, action@).0,
            effects_view(effects@) == step(old(self)@, action@).1,
    {
        match action {
            Action::Tick => {
                self.tick = self.tick.wrapping_add(1);
                no_effects()
            },
            Action::Char(c) => {
                if self.editable() && !char_is_control(c) {
                    if let Phase::Failed(_) = self.phase {
                        self.phase = Phase::Idle;
                    }
                    string_push(self.active_buffer(), c);
                }
                no_effects()
            },
            Action::Backspace => {
                if self.editable() {
                    string_pop(self.active_buffer());
                }
                no_effects()
            },
            Action::FocusToggle => {
                if self.at_rest() {
                    self.focus = match self.focus {
                        Field::User => Field::Password,
                        Field::Password => Field::User,
                    };
                }
                no_effects()
            },
            Action::Submit => self.on_submit(),
            Action::Cancel => self.on_cancel(),
            Action::Greetd(resp) => self.on_greetd(resp),
        }
    }

    fn on_submit(&mut self) -> (effects: Vec<Effect>)
        ensures
            final(self)@ == submit_step(old(self)@).0,
            effects_view(effects@) == submit_step(old(self)@).1,
    {
        if self.at_rest() {
            if blank(&self.user) {
                return no_effects();
            }
            self.info = None;
            self.creds_pending = true;
            self.phase = Phase::Creating;
            one_effect(Effect::Send(Request::CreateSession { username: self.user.clone() }))
        } else if let Phase::Prompt { .. } = self.phase {
            let mut taken = String::new();
            std::mem::swap(&mut taken, &mut self.password);
            self.phase = Phase::Authenticating;
            one_effect(Effect::Send(Request::PostAuthMessageResponse { response: Some(taken) }))
        } else {
            no_effects()
        }
    }

    fn on_cancel(&mut self) -> (effects: Vec<Effect>)
        ensures
            final(self)@ == cancel_step(old(self)@).0,
            effects_view(effects@) == cancel_step(old(self)@).1,
    {
        if self.in_auth_chain() {
            self.reset_to_idle();
            return one_effect(Effect::Send(Request::CancelSession));
        }
        // Only demo may leave; the real greeter must never exit without a session.
        if self.demo {
            one_effect(Effect::Quit)
        } else {
            no_effects()
        }
    }

    fn reset_to_idle(&mut self)
        ensures
            final(self)@ == reset_spec(old(self)@),
    {
        self.phase = Phase::Idle;
        self.password = String::new();
        self.creds_pending = false;
        self.focus = Field::Password;
    }

    fn on_greetd(&mut self, resp: Response) -> (effects: Vec<Effect>)
        ensures
            final(self)@ == greetd_step(old(self)@, resp@).0,
            effects_view(effects@) == greetd_step(old(self)@, resp@).1,
    {
        match resp {
            Response::AuthMessage { auth_message_type, auth_message } => self.on_auth_message(
                auth_message_type,
                auth_message,
            ),
            Response::Success => self.on_success(),
            Response::Error { error_type, description } => self.on_error(error_type, description),
        }
    }

    fn on_auth_message(&mut self, kind: AuthMessageType, message: String) -> (effects: Vec<Effect>)
        ensures
            final(self)@ == auth_message_step(old(self)@, kind, message@).0,
            effects_view(effects@) == auth_message_step(old(self)@, kind, message@).1,
    {
        if !self.in_auth_chain() {
            return no_effects();
        }
        match kind {
            AuthMessageType::Secret | AuthMessageType::Visible => {
                let secret = match kind {
                    AuthMessageType::Secret => true,
                    _ => false,
                };
                // Auto-feed the pre-typed password to the first secret prompt.
                if secret && self.creds_pending {
                    self.creds_pending = false;
                    let response = Some(self.password.clone());
                    self.phase = Phase::Authenticating;
                    one_effect(Effect::Send(Request::PostAuthMessageResponse { response }))
                } else {
                    self.password = String::new();
                    self.focus = Field::Password;
                    self.phase = Phase::Prompt { secret, message };
                    no_effects()
                }
            },
            AuthMessageType::Info | AuthMessageType::Error => {
                // Not a prompt; acknowledge with an empty response to advance.
                self.info = Some(message);
                one_effect(Effect::Send(Request::PostAuthMessageResponse { response: None }))
            },
        }
    }

    fn on_success(&mut self) -> (effects: Vec<Effect>)
        ensures
            final(self)@ == success_step(old(self)@).0,
            effects_view(effects@) == success_step(old(self)@).1,
    {
        if let Phase::Starting = self.phase {
            self.phase = Phase::Done;
            one_effect(Effect::LaunchAndExit)
        } else if self.in_auth_chain() {
            self.phase = Phase::Starting;
            self.info = None;
            let cmd = clone_strings(&self.session_cmd);
            let env: Vec<String> = Vec::new();
            proof {
                assert(env.deep_view() =~= Seq::<Seq<char>>::empty());
            }
            one_effect(Effect::Send(Request::StartSession { cmd, env }))
        } else {
            no_effects()
        }
    }

    fn on_error(&mut self, kind: ErrorType, description: String) -> (effects: Vec<Effect>)
        ensures
            final(self)@ == error_step(old(self)@, kind, description@).0,
            effects_view(effects@) == error_step(old(self)@, kind, description@).1,
    {
        self.creds_pending = false;
        self.password = String::new();
        self.focus = Field::Password;
        let msg = match kind {
            ErrorType::AuthError => {
                if description.as_str().is_empty() {
                    String::from_str("access denied")
                } else {
                    description
                }
            },
            ErrorType::Error => {
                let mut m = String::from_str("error: ");
                m.append(description.as_str());
                m
            },
        };
        self.phase = Phase::Failed(msg);
        no_effects()
    }
}

} // verus!
