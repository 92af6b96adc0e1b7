use channel_report::config::{channel_config, run_options};
use channel_report::error::ReportError;

fn words(list: &[&str]) -> Vec<String> {
    list.iter().map(|s| s.to_string()).collect()
}

#[test]
fn no_argument_switches_nothing_on() {
    let options = run_options(&words(&["prog"]));
    assert!(!options.save_log);
    assert!(!options.debug);
    let none = run_options(&Vec::new());
    assert!(!none.save_log);
    assert!(!none.debug);
}

#[test]
fn first_argument_true_enables_the_log() {
    assert!(run_options(&words(&["prog", "true"])).save_log);
    assert!(!run_options(&words(&["prog", "false"])).save_log);
    assert!(!run_options(&words(&["prog", "True"])).save_log);
    assert!(!run_options(&words(&["prog", "true "])).save_log);
    assert!(!run_options(&words(&["prog", "--debug"])).debug);
}

#[test]
fn second_argument_enables_debug() {
    let short = run_options(&words(&["prog", "true", "--d"]));
    assert!(short.save_log);
    assert!(short.debug);
    let long = run_options(&words(&["prog", "no", "--debug"]));
    assert!(!long.save_log);
    assert!(long.debug);
    assert!(!run_options(&words(&["prog", "true", "-d"])).debug);
    assert!(!run_options(&words(&["prog", "true", "debug"])).debug);
}

#[test]
fn configuration_of_three_lines() {
    let by_id = channel_config(&words(&["UC123", "KEY", "true"])).unwrap();
    assert_eq!(by_id.identifier, "UC123");
    assert_eq!(by_id.api_key, "KEY");
    assert!(by_id.use_id);
    let by_name = channel_config(&words(&["someuser", "KEY", "false", "ignored"])).unwrap();
    assert_eq!(by_name.identifier, "someuser");
    assert!(!by_name.use_id);
    assert!(!channel_config(&words(&["someuser", "KEY", ""])).unwrap().use_id);
}

#[test]
fn short_configuration_is_refused() {
    assert_eq!(channel_config(&Vec::new()).unwrap_err(), ReportError::ShortConfig);
    assert_eq!(channel_config(&words(&["UC123", "KEY"])).unwrap_err(), ReportError::ShortConfig);
    assert_eq!(ReportError::ShortConfig.message(), "Configuration needs three lines");
}
