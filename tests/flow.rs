use tab_pilot::flow::{
    auth_actions, is_logged_in, login, switch_tab, Action, Event, Flow, Locator, Notice,
    Phase, Target,
};
use tab_pilot::options::Opts;

fn example_opts() -> Opts {
    Opts::new(
        "default".to_string(),
        "https://example.com".to_string(),
        "u".to_string(),
        "p".to_string(),
        "data/items.csv".to_string(),
        "failed".to_string(),
        vec![],
    )
}

/// Drives a run in which every action succeeds and the session reports
/// `current_url`; returns every action asked for and the final phase.
fn succeed_all(current_url: &str) -> (Vec<Action>, Phase) {
    let mut flow = Flow::new(example_opts());
    let mut actions = Vec::new();
    let mut action = flow.step(Event::Done);
    for _ in 0..40 {
        let done = matches!(action, Action::Finish | Action::Abort);
        let event = match action {
            Action::ReadCurrentUrl => Event::CurrentUrl(current_url.to_string()),
            _ => Event::Done,
        };
        actions.push(action);
        if done {
            break;
        }
        action = flow.step(event);
    }
    (actions, flow.phase())
}

fn touches_form(a: &Action) -> bool {
    match a {
        Action::Find(t) | Action::Clear(t) | Action::Type(t, _) | Action::Click(t) => {
            *t != Target::Tab
        }
        _ => false,
    }
}

#[test]
fn already_logged_in_goes_straight_to_tab() {
    let (actions, phase) = succeed_all("https://example.com/inbox");
    assert_eq!(
        actions,
        vec![
            Action::Navigate("https://example.com".to_string()),
            Action::ReadCurrentUrl,
            Action::Announce(Notice::AlreadyLoggedIn),
            Action::Announce(Notice::SwitchingTab),
            Action::Find(Target::Tab),
            Action::Click(Target::Tab),
            Action::Finish,
        ]
    );
    assert_eq!(Notice::AlreadyLoggedIn.text(), "already logged in!");
    assert!(!actions.iter().any(touches_form));
    assert_eq!(phase, Phase::TabSelected);
}

#[test]
fn redirected_session_logs_in_then_selects_tab() {
    let (actions, phase) = succeed_all("https://login.auth0.com/authorize?client=x");
    assert_eq!(
        actions,
        vec![
            Action::Navigate("https://example.com".to_string()),
            Action::ReadCurrentUrl,
            Action::Announce(Notice::NotLoggedIn),
            Action::Announce(Notice::LoggingIn),
            Action::Find(Target::Form),
            Action::Find(Target::Username),
            Action::Find(Target::Password),
            Action::Find(Target::Submit),
            Action::Clear(Target::Username),
            Action::Type(Target::Username, "u".to_string()),
            Action::Clear(Target::Password),
            Action::Type(Target::Password, "p".to_string()),
            Action::Click(Target::Submit),
            Action::Announce(Notice::SwitchingTab),
            Action::Find(Target::Tab),
            Action::Click(Target::Tab),
            Action::Finish,
        ]
    );
    assert_eq!(phase, Phase::TabSelected);
}

#[test]
fn submit_and_tab_each_clicked_once() {
    let (actions, _) = succeed_all("https://login.auth0.com/");
    let submits = actions.iter().filter(|a| **a == Action::Click(Target::Submit)).count();
    let tabs = actions.iter().filter(|a| **a == Action::Click(Target::Tab)).count();
    assert_eq!(submits, 1);
    assert_eq!(tabs, 1);
    let (actions, _) = succeed_all("https://example.com/");
    let tabs = actions.iter().filter(|a| **a == Action::Click(Target::Tab)).count();
    assert_eq!(tabs, 1);
}

#[test]
fn phases_follow_the_run() {
    let mut flow = Flow::new(example_opts());
    assert_eq!(flow.phase(), Phase::NotNavigated);
    assert_eq!(flow.step(Event::Done), Action::Navigate("https://example.com".to_string()));
    assert_eq!(flow.phase(), Phase::NotNavigated);
    assert_eq!(flow.step(Event::Done), Action::ReadCurrentUrl);
    assert_eq!(flow.phase(), Phase::Navigated);
    flow.step(Event::CurrentUrl("https://other.org/".to_string()));
    assert_eq!(flow.phase(), Phase::NeedsLogin);
}

#[test]
fn failure_aborts_and_stays_aborted() {
    let mut flow = Flow::new(example_opts());
    flow.step(Event::Done);
    assert_eq!(flow.step(Event::Failed), Action::Abort);
    assert_eq!(flow.phase(), Phase::Aborted);
    assert_eq!(flow.step(Event::Done), Action::Abort);
    assert_eq!(flow.phase(), Phase::Aborted);
}

#[test]
fn failed_tab_click_aborts() {
    let mut flow = Flow::new(example_opts());
    flow.step(Event::Done);
    flow.step(Event::Done);
    flow.step(Event::CurrentUrl("https://example.com/inbox".to_string()));
    flow.step(Event::Done);
    assert_eq!(flow.step(Event::Done), Action::Find(Target::Tab));
    assert_eq!(flow.step(Event::Done), Action::Click(Target::Tab));
    assert_eq!(flow.step(Event::Failed), Action::Abort);
    assert_eq!(flow.phase(), Phase::Aborted);
}

#[test]
fn missing_address_report_aborts() {
    let mut flow = Flow::new(example_opts());
    flow.step(Event::Done);
    assert_eq!(flow.step(Event::Done), Action::ReadCurrentUrl);
    assert_eq!(flow.step(Event::Done), Action::Abort);
    assert_eq!(flow.phase(), Phase::Aborted);
}

#[test]
fn early_address_report_aborts() {
    let mut flow = Flow::new(example_opts());
    flow.step(Event::Done);
    assert_eq!(flow.step(Event::CurrentUrl("https://example.com".to_string())), Action::Abort);
    assert_eq!(flow.phase(), Phase::Aborted);
}

#[test]
fn finished_run_keeps_finishing() {
    let (_, phase) = succeed_all("https://example.com/");
    assert_eq!(phase, Phase::TabSelected);
    let mut flow = Flow::new(example_opts());
    flow.step(Event::Done);
    flow.step(Event::Done);
    flow.step(Event::CurrentUrl("https://example.com".to_string()));
    for _ in 0..3 {
        flow.step(Event::Done);
    }
    assert_eq!(flow.step(Event::Done), Action::Finish);
    assert_eq!(flow.step(Event::Done), Action::Finish);
    assert_eq!(flow.phase(), Phase::TabSelected);
}

#[test]
fn logged_in_when_address_contains_base() {
    let o = example_opts();
    assert!(is_logged_in(&o, "https://example.com/inbox"));
    assert!(is_logged_in(&o, "https://example.com"));
    assert!(!is_logged_in(&o, "https://example.co"));
    assert!(!is_logged_in(&o, "https://auth.example.org/login"));
    assert!(!is_logged_in(&o, ""));
}

#[test]
fn write_clears_then_types() {
    assert_eq!(
        tab_pilot::flow::write(Target::Password, &"secret".to_string()),
        vec![Action::Clear(Target::Password), Action::Type(Target::Password, "secret".to_string())]
    );
}

#[test]
fn login_fills_form_and_submits() {
    let a = login(&example_opts());
    assert_eq!(a.len(), 10);
    assert_eq!(a[0], Action::Announce(Notice::LoggingIn));
    assert_eq!(a[6], Action::Type(Target::Username, "u".to_string()));
    assert_eq!(a[8], Action::Type(Target::Password, "p".to_string()));
    assert_eq!(a[9], Action::Click(Target::Submit));
}

#[test]
fn tab_switch_finds_then_clicks() {
    assert_eq!(
        switch_tab(),
        vec![
            Action::Announce(Notice::SwitchingTab),
            Action::Find(Target::Tab),
            Action::Click(Target::Tab),
        ]
    );
}

#[test]
fn auth_actions_follow_address() {
    let o = example_opts();
    assert_eq!(auth_actions(&o, "https://example.com/x").len(), 4);
    assert_eq!(auth_actions(&o, "https://elsewhere.net/").len(), 14);
}

#[test]
fn locators_match_page() {
    assert_eq!(Target::Form.locator(), Locator::Tag("form".to_string()));
    assert_eq!(Target::Username.locator(), Locator::Id("username".to_string()));
    assert_eq!(Target::Password.locator(), Locator::Id("password".to_string()));
    assert_eq!(
        Target::Submit.locator(),
        Locator::Tag("button[type=\"submit\"]".to_string())
    );
    assert_eq!(
        Target::Tab.locator(),
        Locator::XPath("//span[contains(text(), \"Sent and pending\")]/..".to_string())
    );
    assert!(Target::Username.in_form());
    assert!(Target::Submit.in_form());
    assert!(!Target::Form.in_form());
    assert!(!Target::Tab.in_form());
}

#[test]
fn notices_read_as_shown() {
    assert_eq!(Notice::NotLoggedIn.text(), "not logged in!");
    assert_eq!(Notice::LoggingIn.text(), "logging in...");
    assert_eq!(Notice::SwitchingTab.text(), "switching to correct tab...");
}
