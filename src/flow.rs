use vstd::prelude::*;
use vstd::multiset::Multiset;
use crate::options::Opts;
use crate::text::{is_substring, str_contains};

verus! {

/// A page element that the run works with.
#[derive(Clone, Copy, Debug, PartialEq, Eq, Hash, Structural)]
pub enum Target {
    /// The login form.
    Form,
    /// The username field, inside the form.
    Username,
    /// The password field, inside the form.
    Password,
    /// The form's submit button.
    Submit,
    /// The "Sent and pending" tab.
    Tab,
}

/// How an element is found.
#[derive(Debug, PartialEq, Eq)]
pub enum Locator {
    Tag(String),
    Id(String),
    XPath(String),
}

/// A locator as the characters it holds.
pub enum LocatorView {
    Tag(Seq<char>),
    Id(Seq<char>),
    XPath(Seq<char>),
}

impl View for Locator {
    type V = LocatorView;

    open spec fn view(&self) -> LocatorView {
        match self {
            Locator::Tag(s) => LocatorView::Tag(s@),
            Locator::Id(s) => LocatorView::Id(s@),
            Locator::XPath(s) => LocatorView::XPath(s@),
        }
    }
}

/// The locator of each page element.
pub open spec fn locator_of(t: Target) -> LocatorView {
    match t {
        Target::Form => LocatorView::Tag("form"@),
        Target::Username => LocatorView::Id("username"@),
        Target::Password => LocatorView::Id("password"@),
        Target::Submit => LocatorView::Tag("button[type=\"submit\"]"@),
        Target::Tab => LocatorView::XPath("//span[contains(text(), \"Sent and pending\")]/.."@),
    }
}

/// The elements that are looked up inside the login form.
pub open spec fn found_in_form(t: Target) -> bool {
    t == Target::Username || t == Target::Password || t == Target::Submit
}

impl Target {
    /// The locator that finds this element.
    pub fn locator(self) -> (r: Locator)
        ensures
            r@ == locator_of(self),
    {
        proof {
            reveal_strlit("form");
            reveal_strlit("username");
            reveal_strlit("password");
            reveal_strlit("button[type=\"submit\"]");
            reveal_strlit("//span[contains(text(), \"Sent and pending\")]/..");
        }
        match self {
            Target::Form => Locator::Tag("form".to_string()),
            Target::Username => Locator::Id("username".to_string()),
            Target::Password => Locator::Id("password".to_string()),
            Target::Submit => Locator::Tag("button[type=\"submit\"]".to_string()),
            Target::Tab => Locator::XPath(
                "//span[contains(text(), \"Sent and pending\")]/..".to_string(),
            ),
        }
    }

    /// Whether this element is looked up inside the login form rather than
    /// on the whole page.
    pub fn in_form(self) -> (r: bool)
        ensures
            r == found_in_form(self),
    {
        match self {
            Target::Username | Target::Password | Target::Submit => true,
            _ => false,
        }
    }
}

/// A progress line shown to the person running the program.
#[derive(Clone, Copy, Debug, PartialEq, Eq, Structural)]
pub enum Notice {
    NotLoggedIn,
    AlreadyLoggedIn,
    LoggingIn,
    SwitchingTab,
}

/// The words of each progress line.
pub open spec fn notice_text(n: Notice) -> Seq<char> {
    match n {
        Notice::NotLoggedIn => "not logged in!"@,
        Notice::AlreadyLoggedIn => "already logged in!"@,
        Notice::LoggingIn => "logging in..."@,
        Notice::SwitchingTab => "switching to correct tab..."@,
    }
}

impl Notice {
    /// The line's words.
    pub fn text(self) -> (r: String)
        ensures
            r@ == notice_text(self),
    {
        proof {
            reveal_strlit("not logged in!");
            reveal_strlit("already logged in!");
            reveal_strlit("logging in...");
            reveal_strlit("switching to correct tab...");
        }
        match self {
            Notice::NotLoggedIn => "not logged in!".to_string(),
            Notice::AlreadyLoggedIn => "already logged in!".to_string(),
            Notice::LoggingIn => "logging in...".to_string(),
            Notice::SwitchingTab => "switching to correct tab...".to_string(),
        }
    }
}

/// One thing for the browser side to do next.
#[derive(Debug, PartialEq, Eq)]
pub enum Action {
    /// Load the page at this address.
    Navigate(String),
    /// Report the address the session is on now.
    ReadCurrentUrl,
    /// Show a progress line.
    Announce(Notice),
    /// Look the element up (see `Target::locator` and `Target::in_form`).
    Find(Target),
    /// Empty the element's input.
    Clear(Target),
    /// Type this text into the element.
    Type(Target, String),
    /// Click the element.
    Click(Target),
    /// The run is over and succeeded.
    Finish,
    /// The run is over and failed.
    Abort,
}

/// An action with its text as characters.
pub enum ActionView {
    Navigate(Seq<char>),
    ReadCurrentUrl,
    Announce(Notice),
    Find(Target),
    Clear(Target),
    Type(Target, Seq<char>),
    Click(Target),
    Finish,
    Abort,
}

impl View for Action {
    type V = ActionView;

    open spec fn view(&self) -> ActionView {
        match self {
            Action::Navigate(u) => ActionView::Navigate(u@),
            Action::ReadCurrentUrl => ActionView::ReadCurrentUrl,
            Action::Announce(n) => ActionView::Announce(*n),
            Action::Find(t) => ActionView::Find(*t),
            Action::Clear(t) => ActionView::Clear(*t),
            Action::Type(t, s) => ActionView::Type(*t, s@),
            Action::Click(t) => ActionView::Click(*t),
            Action::Finish => ActionView::Finish,
            Action::Abort => ActionView::Abort,
        }
    }
}

impl Action {
    /// An equal copy of this action.
    pub fn duplicate(&self) -> (r: Action)
        ensures
            r@ == self@,
    {
        match self {
            Action::Navigate(u) => Action::Navigate(u.clone()),
            Action::ReadCurrentUrl => Action::ReadCurrentUrl,
            Action::Announce(n) => Action::Announce(*n),
            Action::Find(t) => Action::Find(*t),
            Action::Clear(t) => Action::Clear(*t),
            Action::Type(t, s) => Action::Type(*t, s.clone()),
            Action::Click(t) => Action::Click(*t),
            Action::Finish => Action::Finish,
            Action::Abort => Action::Abort,
        }
    }
}

/// Each action with its text as characters.
pub open spec fn actions_view(v: Seq<Action>) -> Seq<ActionView> {
    v.map_values(|a: Action| a@)
}

/// Replacing what an input holds: empty it, then type the text.
pub open spec fn write_script(t: Target, text: Seq<char>) -> Seq<ActionView> {
    seq![ActionView::Clear(t), ActionView::Type(t, text)]
}

/// Filling in and sending the login form.
pub open spec fn login_script(username: Seq<char>, password: Seq<char>) -> Seq<ActionView> {
    seq![
        ActionView::Announce(Notice::LoggingIn),
        ActionView::Find(Target::Form),
        ActionView::Find(Target::Username),
        ActionView::Find(Target::Password),
        ActionView::Find(Target::Submit),
    ] + write_script(Target::Username, username) + write_script(Target::Password, password)
        + seq![ActionView::Click(Target::Submit)]
}

/// Selecting the "Sent and pending" tab.
pub open spec fn tab_script() -> Seq<ActionView> {
    seq![
        ActionView::Announce(Notice::SwitchingTab),
        ActionView::Find(Target::Tab),
        ActionView::Click(Target::Tab),
    ]
}

/// A session counts as logged in when its address contains the site's base
/// address.
pub open spec fn logged_in(current_url: Seq<char>, base_url: Seq<char>) -> bool {
    is_substring(current_url, base_url)
}

/// Everything done once the session's address is known.
pub open spec fn auth_script(
    base_url: Seq<char>,
    username: Seq<char>,
    password: Seq<char>,
    current_url: Seq<char>,
) -> Seq<ActionView> {
    if logged_in(current_url, base_url) {
        seq![ActionView::Announce(Notice::AlreadyLoggedIn)] + tab_script()
    } else {
        seq![ActionView::Announce(Notice::NotLoggedIn)] + login_script(username, password)
            + tab_script()
    }
}

/// Whether the session at `current_url` is already logged in to the site.
pub fn is_logged_in(opts: &Opts, current_url: &str) -> (r: bool)
    ensures
        r == logged_in(current_url@, opts.base_url@),
{
    str_contains(current_url, opts.base_url.as_str())
}

/// Clears the input `t` and types `text` into it.
pub fn write(t: Target, text: &String) -> (r: Vec<Action>)
    ensures
        actions_view(r@) == write_script(t, text@),
{
    let r = vec![Action::Clear(t), Action::Type(t, text.clone())];
    assert(actions_view(r@) =~= write_script(t, text@));
    r
}

/// Logs in with the configured username and password.
pub fn login(opts: &Opts) -> (r: Vec<Action>)
    ensures
        actions_view(r@) == login_script(opts.username@, opts.password@),
{
    let mut r = vec![
        Action::Announce(Notice::LoggingIn),
        Action::Find(Target::Form),
        Action::Find(Target::Username),
        Action::Find(Target::Password),
        Action::Find(Target::Submit),
    ];
    let mut user = write(Target::Username, &opts.username);
    let mut pass = write(Target::Password, &opts.password);
    r.append(&mut user);
    r.append(&mut pass);
    r.push(Action::Click(Target::Submit));
    assert(actions_view(r@) =~= login_script(opts.username@, opts.password@));
    r
}

/// Selects the "Sent and pending" tab.
pub fn switch_tab() -> (r: Vec<Action>)
    ensures
        actions_view(r@) == tab_script(),
{
    let r = vec![
        Action::Announce(Notice::SwitchingTab),
        Action::Find(Target::Tab),
        Action::Click(Target::Tab),
    ];
    assert(actions_view(r@) =~= tab_script());
    r
}

/// What to do once the session's address is known: log in unless already
/// logged in, then select the tab.
pub fn auth_actions(opts: &Opts, current_url: &str) -> (r: Vec<Action>)
    ensures
        actions_view(r@) == auth_script(
            opts.base_url@,
            opts.username@,
            opts.password@,
            current_url@,
        ),
{
    let mut r: Vec<Action> = Vec::new();
    if is_logged_in(opts, current_url) {
        r.push(Action::Announce(Notice::AlreadyLoggedIn));
    } else {
        r.push(Action::Announce(Notice::NotLoggedIn));
        let mut steps = login(opts);
        r.append(&mut steps);
    }
    let mut tab = switch_tab();
    r.append(&mut tab);
    assert(actions_view(r@) =~= auth_script(
        opts.base_url@,
        opts.username@,
        opts.password@,
        current_url@,
    ));
    r
}

/// What the browser side reports back after carrying out an action.
#[derive(Debug, PartialEq, Eq)]
pub enum Event {
    /// The action succeeded.
    Done,
    /// The session's current address, in answer to `Action::ReadCurrentUrl`.
    CurrentUrl(String),
    /// The action failed.
    Failed,
}

/// An event with its text as characters.
pub enum EventView {
    Done,
    CurrentUrl(Seq<char>),
    Failed,
}

impl View for Event {
    type V = EventView;

    open spec fn view(&self) -> EventView {
        match self {
            Event::Done => EventView::Done,
            Event::CurrentUrl(u) => EventView::CurrentUrl(u@),
            Event::Failed => EventView::Failed,
        }
    }
}

/// How far a run has come.
#[derive(Clone, Copy, Debug, PartialEq, Eq, Structural)]
pub enum Phase {
    NotNavigated,
    Navigated,
    NeedsLogin,
    LoggedIn,
    TabSelected,
    Aborted,
}

/// A run of the navigate, log in, select tab sequence.
pub struct Flow {
    opts: Opts,
    phase: Phase,
    script: Vec<Action>,
    pos: usize,
}

/// A run as its settings, phase, planned actions and progress through them.
pub struct FlowView {
    pub base_url: Seq<char>,
    pub username: Seq<char>,
    pub password: Seq<char>,
    pub phase: Phase,
    /// Every action planned so far.
    pub script: Seq<ActionView>,
    /// How many of them have been handed out.
    pub pos: nat,
}

impl View for Flow {
    type V = FlowView;

    closed spec fn view(&self) -> FlowView {
        FlowView {
            base_url: self.opts.base_url@,
            username: self.opts.username@,
            password: self.opts.password@,
            phase: self.phase,
            script: actions_view(self.script@),
            pos: self.pos as nat,
        }
    }
}

/// The state of a run that has not begun.
pub open spec fn start_view(base_url: Seq<char>, username: Seq<char>, password: Seq<char>) -> FlowView {
    FlowView {
        base_url,
        username,
        password,
        phase: Phase::NotNavigated,
        script: seq![ActionView::Navigate(base_url), ActionView::ReadCurrentUrl],
        pos: 0,
    }
}

/// The run gives up: it stays aborted and asks for nothing more.
pub open spec fn aborted(s: FlowView) -> (FlowView, ActionView) {
    (FlowView { phase: Phase::Aborted, ..s }, ActionView::Abort)
}

/// One move of a run: the state it leaves and the action it asks for, given
/// what the last action came to.
pub open spec fn step_spec(s: FlowView, e: EventView) -> (FlowView, ActionView) {
    if s.phase == Phase::Aborted {
        (s, ActionView::Abort)
    } else if s.phase == Phase::TabSelected {
        (s, ActionView::Finish)
    } else {
        match e {
            EventView::Failed => aborted(s),
            EventView::CurrentUrl(u) => {
                if s.phase == Phase::Navigated && s.pos == s.script.len() {
                    let script = s.script + auth_script(s.base_url, s.username, s.password, u);
                    let phase = if logged_in(u, s.base_url) {
                        Phase::LoggedIn
                    } else {
                        Phase::NeedsLogin
                    };
                    (FlowView { phase, script, pos: s.pos + 1, ..s }, script[s.pos as int])
                } else {
                    aborted(s)
                }
            },
            EventView::Done => {
                let phase = if s.phase == Phase::NotNavigated && s.pos == 1 {
                    Phase::Navigated
                } else {
                    s.phase
                };
                if s.pos < s.script.len() {
                    (FlowView { phase, pos: s.pos + 1, ..s }, s.script[s.pos as int])
                } else if phase == Phase::LoggedIn || phase == Phase::NeedsLogin {
                    (FlowView { phase: Phase::TabSelected, ..s }, ActionView::Finish)
                } else {
                    aborted(s)
                }
            },
        }
    }
}

impl Flow {
    /// Progress stays within the plan, and the plan grows only once, when
    /// the session's address comes in.
    pub closed spec fn wf(&self) -> bool {
        &&& self.pos <= self.script.len()
        &&& self.script.len() <= 16
        &&& (self.phase == Phase::NotNavigated || self.phase == Phase::Navigated)
            ==> self.script.len() == 2
    }

    /// A run that has not begun. Its first action comes from `step(Event::Done)`.
    pub fn new(opts: Opts) -> (r: Flow)
        ensures
            r.wf(),
            r@ == start_view(opts.base_url@, opts.username@, opts.password@),
    {
        let script = vec![Action::Navigate(opts.base_url.clone()), Action::ReadCurrentUrl];
        let r = Flow { opts, phase: Phase::NotNavigated, script, pos: 0 };
        assert(r@.script =~= seq![ActionView::Navigate(r@.base_url), ActionView::ReadCurrentUrl]);
        r
    }

    /// How far the run has come.
    pub fn phase(&self) -> (r: Phase)
        ensures
            r == self@.phase,
    {
        self.phase
    }

    /// Takes in what the last action came to and returns the next action.
    pub fn step(&mut self, event: Event) -> (r: Action)
        requires
            old(self).wf(),
        ensures
            final(self).wf(),
            (final(self)@, r@) == step_spec(old(self)@, event@),
    {
        if self.phase == Phase::Aborted {
            return Action::Abort;
        }
        if self.phase == Phase::TabSelected {
            return Action::Finish;
        }
        match event {
            Event::Failed => {
                self.phase = Phase::Aborted;
                Action::Abort
            },
            Event::CurrentUrl(u) => {
                if self.phase == Phase::Navigated && self.pos == self.script.len() {
                    let ghost before = actions_view(self.script@);
                    let logged = is_logged_in(&self.opts, u.as_str());
                    let mut more = auth_actions(&self.opts, u.as_str());
                    self.script.append(&mut more);
                    assert(actions_view(self.script@) =~= before + auth_script(
                        self.opts.base_url@,
                        self.opts.username@,
                        self.opts.password@,
                        u@,
                    ));
                    self.phase = if logged {
                        Phase::LoggedIn
                    } else {
                        Phase::NeedsLogin
                    };
                    let r = self.script[self.pos].duplicate();
                    self.pos = self.pos + 1;
                    r
                } else {
                    self.phase = Phase::Aborted;
                    Action::Abort
                }
            },
            Event::Done => {
                if self.phase == Phase::NotNavigated && self.pos == 1 {
                    self.phase = Phase::Navigated;
                }
                if self.pos < self.script.len() {
                    let r = self.script[self.pos].duplicate();
                    self.pos = self.pos + 1;
                    r
                } else if self.phase == Phase::LoggedIn || self.phase == Phase::NeedsLogin {
                    self.phase = Phase::TabSelected;
                    Action::Finish
                } else {
                    self.phase = Phase::Aborted;
                    Action::Abort
                }
            },
        }
    }
}

/// The actions that a run asks for, and the state it ends in, when the
/// events come in the given order.
pub open spec fn run(s: FlowView, events: Seq<EventView>) -> (FlowView, Seq<ActionView>)
    decreases events.len(),
{
    if events.len() == 0 {
        (s, Seq::empty())
    } else {
        let (t, a) = step_spec(s, events[0]);
        let (end, rest) = run(t, events.drop_first());
        (end, seq![a] + rest)
    }
}

/// `k` reports of success in a row.
pub open spec fn successes(k: nat) -> Seq<EventView> {
    Seq::new(k, |i: int| EventView::Done)
}

/// How many times `a` occurs in `s`.
pub open spec fn times(s: Seq<ActionView>, a: ActionView) -> nat {
    s.to_multiset().count(a)
}

/// Whether the action reads or changes the login form or one of its parts.
pub open spec fn touches_form(a: ActionView) -> bool {
    match a {
        ActionView::Find(t) => t != Target::Tab,
        ActionView::Clear(t) => t != Target::Tab,
        ActionView::Type(t, _) => t != Target::Tab,
        ActionView::Click(t) => t != Target::Tab,
        _ => false,
    }
}

/// The actions planned when the session's address comes in.
pub open spec fn planned_after(s: FlowView, current_url: Seq<char>) -> Seq<ActionView> {
    let t = step_spec(s, EventView::CurrentUrl(current_url)).0;
    t.script.subrange(s.pos as int, t.script.len() as int)
}

proof fn lemma_run_first(s: FlowView, e: EventView, rest: Seq<EventView>)
    ensures
        run(s, seq![e] + rest) == ({
            let (t, a) = step_spec(s, e);
            (run(t, rest).0, seq![a] + run(t, rest).1)
        }),
{
    assert((seq![e] + rest).drop_first() =~= rest);
    assert((seq![e] + rest)[0] == e);
}

proof fn lemma_run_rest(t: FlowView, k: nat)
    requires
        t.phase == Phase::LoggedIn || t.phase == Phase::NeedsLogin,
        t.pos + k == t.script.len(),
    ensures
        run(t, successes(k + 1)) == (
            FlowView { phase: Phase::TabSelected, pos: t.script.len(), ..t },
            t.script.subrange(t.pos as int, t.script.len() as int) + seq![ActionView::Finish],
        ),
    decreases k,
{
    let evs = successes(k + 1);
    assert(evs =~= seq![EventView::Done] + successes(k));
    lemma_run_first(t, EventView::Done, successes(k));
    if k == 0 {
        assert(successes(0) =~= Seq::<EventView>::empty());
        assert(t.script.subrange(t.pos as int, t.script.len() as int) =~= Seq::<ActionView>::empty());
    } else {
        let t2 = FlowView { pos: t.pos + 1, ..t };
        assert(successes(k) =~= successes((k - 1) as nat + 1));
        lemma_run_rest(t2, (k - 1) as nat);
        assert(t.script.subrange(t.pos as int, t.script.len() as int) =~= seq![t.script[t.pos as int]]
            + t.script.subrange(t.pos + 1 as int, t.script.len() as int));
    }
}

/// A session whose address contains the base address is taken as logged in:
/// the run announces so and plans nothing that touches the login form.
pub proof fn lemma_logged_in_skips_login(s: FlowView, current_url: Seq<char>)
    requires
        s.phase == Phase::Navigated,
        s.pos == s.script.len(),
        logged_in(current_url, s.base_url),
    ensures
        step_spec(s, EventView::CurrentUrl(current_url)).0.phase == Phase::LoggedIn,
        step_spec(s, EventView::CurrentUrl(current_url)).1 == ActionView::Announce(
            Notice::AlreadyLoggedIn,
        ),
        forall|i: int|
            0 <= i < planned_after(s, current_url).len() ==> !touches_form(
                #[trigger] planned_after(s, current_url)[i],
            ),
{
    let planned = planned_after(s, current_url);
    let auth = auth_script(s.base_url, s.username, s.password, current_url);
    assert(planned =~= auth);
    assert(auth =~= seq![
        ActionView::Announce(Notice::AlreadyLoggedIn),
        ActionView::Announce(Notice::SwitchingTab),
        ActionView::Find(Target::Tab),
        ActionView::Click(Target::Tab),
    ]);
}

/// A session whose address lacks the base address logs in: the username
/// field gets the configured username, the password field the configured
/// password, nothing else is typed, and submit is clicked exactly once.
pub proof fn lemma_not_logged_in_logs_in(s: FlowView, current_url: Seq<char>)
    requires
        s.phase == Phase::Navigated,
        s.pos == s.script.len(),
        !logged_in(current_url, s.base_url),
    ensures
        step_spec(s, EventView::CurrentUrl(current_url)).0.phase == Phase::NeedsLogin,
        step_spec(s, EventView::CurrentUrl(current_url)).1 == ActionView::Announce(
            Notice::NotLoggedIn,
        ),
        times(planned_after(s, current_url), ActionView::Type(Target::Username, s.username))
            == 1,
        times(planned_after(s, current_url), ActionView::Type(Target::Password, s.password))
            == 1,
        times(planned_after(s, current_url), ActionView::Click(Target::Submit)) == 1,
        forall|i: int|
            0 <= i < planned_after(s, current_url).len() && (#[trigger] planned_after(
                s,
                current_url,
            )[i] is Type) ==> planned_after(s, current_url)[i] == ActionView::Type(
                Target::Username,
                s.username,
            ) || planned_after(s, current_url)[i] == ActionView::Type(
                Target::Password,
                s.password,
            ),
{
    broadcast use vstd::seq_lib::group_to_multiset_ensures, vstd::multiset::group_multiset_axioms;

    let planned = planned_after(s, current_url);
    let auth = auth_script(s.base_url, s.username, s.password, current_url);
    assert(planned =~= auth);
    let u = ActionView::Type(Target::Username, s.username);
    let p = ActionView::Type(Target::Password, s.password);
    let c = ActionView::Click(Target::Submit);
    assert(auth =~= Seq::<ActionView>::empty()
        .push(ActionView::Announce(Notice::NotLoggedIn))
        .push(ActionView::Announce(Notice::LoggingIn))
        .push(ActionView::Find(Target::Form))
        .push(ActionView::Find(Target::Username))
        .push(ActionView::Find(Target::Password))
        .push(ActionView::Find(Target::Submit))
        .push(ActionView::Clear(Target::Username))
        .push(u)
        .push(ActionView::Clear(Target::Password))
        .push(p)
        .push(c)
        .push(ActionView::Announce(Notice::SwitchingTab))
        .push(ActionView::Find(Target::Tab))
        .push(ActionView::Click(Target::Tab)));
    assert(Seq::<ActionView>::empty().to_multiset() =~= Multiset::empty());
}

/// Whatever the session's address, the tab is clicked exactly once, and as
/// the last planned action.
pub proof fn lemma_one_tab_click(s: FlowView, current_url: Seq<char>)
    requires
        s.phase == Phase::Navigated,
        s.pos == s.script.len(),
    ensures
        times(planned_after(s, current_url), ActionView::Click(Target::Tab)) == 1,
        planned_after(s, current_url).last() == ActionView::Click(Target::Tab),
{
    broadcast use vstd::seq_lib::group_to_multiset_ensures, vstd::multiset::group_multiset_axioms;

    let planned = planned_after(s, current_url);
    let auth = auth_script(s.base_url, s.username, s.password, current_url);
    assert(planned =~= auth);
    let tab = Seq::<ActionView>::empty()
        .push(ActionView::Announce(Notice::SwitchingTab))
        .push(ActionView::Find(Target::Tab))
        .push(ActionView::Click(Target::Tab));
    assert(Seq::<ActionView>::empty().to_multiset() =~= Multiset::empty());
    if logged_in(current_url, s.base_url) {
        assert(auth =~= Seq::<ActionView>::empty()
            .push(ActionView::Announce(Notice::AlreadyLoggedIn))
            .push(ActionView::Announce(Notice::SwitchingTab))
            .push(ActionView::Find(Target::Tab))
            .push(ActionView::Click(Target::Tab)));
    } else {
        assert(auth =~= Seq::<ActionView>::empty()
            .push(ActionView::Announce(Notice::NotLoggedIn))
            .push(ActionView::Announce(Notice::LoggingIn))
            .push(ActionView::Find(Target::Form))
            .push(ActionView::Find(Target::Username))
            .push(ActionView::Find(Target::Password))
            .push(ActionView::Find(Target::Submit))
            .push(ActionView::Clear(Target::Username))
            .push(ActionView::Type(Target::Username, s.username))
            .push(ActionView::Clear(Target::Password))
            .push(ActionView::Type(Target::Password, s.password))
            .push(ActionView::Click(Target::Submit))
            .push(ActionView::Announce(Notice::SwitchingTab))
            .push(ActionView::Find(Target::Tab))
            .push(ActionView::Click(Target::Tab)));
    }
}

/// When every action succeeds, a run navigates to the base address, reads
/// the session's address, carries out the plan for that address and then
/// finishes with the tab selected.
pub proof fn lemma_successful_run(
    base_url: Seq<char>,
    username: Seq<char>,
    password: Seq<char>,
    current_url: Seq<char>,
)
    ensures
        ({
            let plan = auth_script(base_url, username, password, current_url);
            let events = seq![EventView::Done, EventView::Done, EventView::CurrentUrl(current_url)]
                + successes(plan.len());
            let (end, actions) = run(start_view(base_url, username, password), events);
            &&& end.phase == Phase::TabSelected
            &&& actions == seq![ActionView::Navigate(base_url), ActionView::ReadCurrentUrl] + plan
                + seq![ActionView::Finish]
        }),
{
    let plan = auth_script(base_url, username, password, current_url);
    let s0 = start_view(base_url, username, password);
    let rest = successes(plan.len());
    let e2 = seq![EventView::CurrentUrl(current_url)] + rest;
    let e1 = seq![EventView::Done] + e2;
    let e0 = seq![EventView::Done] + e1;
    assert(seq![EventView::Done, EventView::Done, EventView::CurrentUrl(current_url)] + rest
        =~= e0);
    lemma_run_first(s0, EventView::Done, e1);
    let s1 = step_spec(s0, EventView::Done).0;
    lemma_run_first(s1, EventView::Done, e2);
    let s2 = step_spec(s1, EventView::Done).0;
    lemma_run_first(s2, EventView::CurrentUrl(current_url), rest);
    let s3 = step_spec(s2, EventView::CurrentUrl(current_url)).0;
    assert(plan.len() > 0) by {
        if logged_in(current_url, base_url) {
            assert(plan[0] == ActionView::Announce(Notice::AlreadyLoggedIn));
        } else {
            assert(plan[0] == ActionView::Announce(Notice::NotLoggedIn));
        }
    }
    assert(rest =~= successes((plan.len() - 1) as nat + 1));
    lemma_run_rest(s3, (plan.len() - 1) as nat);
    assert(s3.script =~= s2.script + plan);
    assert(s3.script.subrange(s3.pos as int, s3.script.len() as int) =~= plan.drop_first());
    assert(plan =~= seq![plan[0]] + plan.drop_first());
    assert(run(s0, e0).1 =~= seq![ActionView::Navigate(base_url), ActionView::ReadCurrentUrl]
        + plan + seq![ActionView::Finish]);
}

} // verus!
