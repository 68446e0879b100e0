use tab_pilot::caps::load_caps;
use tab_pilot::options::Opts;
use thirtyfour::BrowserCapabilitiesHelper;

fn opts_with_args(args: &[&str]) -> Opts {
    Opts::new(
        "work".to_string(),
        "https://example.com".to_string(),
        "u".to_string(),
        "p".to_string(),
        "data/out.csv".to_string(),
        "oops".to_string(),
        args.iter().map(|a| a.to_string()).collect(),
    )
}

#[test]
fn flags_reach_capabilities_in_order() {
    let caps = load_caps(&opts_with_args(&["--headless", "--no-sandbox"]));
    assert_eq!(caps.args(), vec!["--headless".to_string(), "--no-sandbox".to_string()]);
}

#[test]
fn flags_in_reverse_order_stay_reversed() {
    let caps = load_caps(&opts_with_args(&["--no-sandbox", "--headless"]));
    assert_eq!(caps.args(), vec!["--no-sandbox".to_string(), "--headless".to_string()]);
}

#[test]
fn no_flags_gives_no_args() {
    let caps = load_caps(&opts_with_args(&[]));
    assert!(caps.args().is_empty());
}

#[test]
fn repeated_flag_is_kept_once() {
    let caps = load_caps(&opts_with_args(&["--headless", "--mute-audio", "--headless"]));
    assert_eq!(caps.args(), vec!["--headless".to_string(), "--mute-audio".to_string()]);
}

#[test]
fn options_keep_every_field() {
    let o = opts_with_args(&["--headless"]);
    assert_eq!(o.profile, "work");
    assert_eq!(o.base_url, "https://example.com");
    assert_eq!(o.username, "u");
    assert_eq!(o.password, "p");
    assert_eq!(o.csv_file_path, "data/out.csv");
    assert_eq!(o.error_message, "oops");
    assert_eq!(o.driver_args, vec!["--headless".to_string()]);
}

#[test]
fn appended_flags_come_last() {
    let short = load_caps(&opts_with_args(&["--headless"]));
    let long = load_caps(&opts_with_args(&["--headless", "--no-sandbox", "--mute-audio"]));
    let mut expected = short.args();
    expected.push("--no-sandbox".to_string());
    expected.push("--mute-audio".to_string());
    assert_eq!(long.args(), expected);
}
