use profile_switcher::bootstrap::ConfirmAction;
use profile_switcher::config::ApiKey;
use profile_switcher::bootstrap::confirm_decision;
use profile_switcher::config::AuthInfo;
use profile_switcher::config::Config;
use profile_switcher::config::Profile;
use profile_switcher::config::Property;
use profile_switcher::errors::ConfigurationError;
use profile_switcher::errors::TwitterAccessError;
use profile_switcher::errors::TwitterDataError;
use profile_switcher::errors::ValidationError;
use profile_switcher::errors::status_is_failure;
use profile_switcher::supervisor::WatchDecision;
use profile_switcher::supervisor::WatchEvent;
use profile_switcher::supervisor::classify_watch_event;
use profile_switcher::supervisor::reload_step;

fn rule(key: &str, derive: Option<&str>) -> Profile {
    Profile {
        key: key.to_owned(),
        matches: Vec::new(),
        triggers: Vec::new(),
        derive: derive.map(|d| d.to_owned()),
        name: None,
        url: None,
        location: None,
        description: None,
        image: None,
        banner: None,
        intro: None,
        match_instances: Vec::new(),
    }
}

fn store(user_id: u64, profiles: Vec<Profile>) -> Config {
    Config::new(
        AuthInfo::new(user_id, "t".to_owned(), "s".to_owned()),
        Property {
            trigger_retweet: false,
            trigger_quote: false,
            trigger_reply: false,
            trigger_direct_messages: false,
        },
        profiles,
    )
}

#[test]
fn invalid_candidate_keeps_the_active_store() {
    let mut current = store(1, vec![rule("keep", None)]);
    current.validate().expect("current store should validate");
    let candidate = store(2, vec![rule("a", None), rule("a", None)]);

    let (active, err) = reload_step(current, candidate);

    // the active store is unchanged, and the fault is reported, not thrown
    assert_eq!(active.auth_info().user_id, 1);
    assert_eq!(active.profiles().len(), 1);
    assert_eq!(active.profiles()[0].key, "keep");
    assert!(matches!(err, Some(ValidationError::DuplicateKey { .. })));
}

#[test]
fn valid_candidate_replaces_the_store_whole() {
    let current = store(1, vec![rule("old", None)]);
    let mut fresh = rule("fresh", None);
    fresh.matches.push("^go$".to_owned());
    let candidate = store(2, vec![fresh]);

    let (active, err) = reload_step(current, candidate);

    assert!(err.is_none());
    assert_eq!(active.auth_info().user_id, 2);
    assert_eq!(active.profiles().len(), 1);
    assert_eq!(active.profiles()[0].key, "fresh");
    // the replacement arrives validated: patterns are compiled
    assert_eq!(active.profiles()[0].match_instances.len(), 1);
}

#[test]
fn cyclic_candidate_is_rejected_not_looped_over() {
    let current = store(1, vec![rule("keep", None)]);
    let candidate = store(2, vec![rule("a", Some("b")), rule("b", Some("a"))]);
    let (active, err) = reload_step(current, candidate);
    assert_eq!(active.profiles()[0].key, "keep");
    assert!(matches!(err, Some(ValidationError::CycleDetected { .. })));
}

#[test]
fn removal_signals_are_fatal_and_writes_reload() {
    assert!(matches!(classify_watch_event(&WatchEvent::Remove), WatchDecision::Fatal));
    assert!(matches!(classify_watch_event(&WatchEvent::NoticeRemove), WatchDecision::Fatal));
    assert!(matches!(classify_watch_event(&WatchEvent::Rename), WatchDecision::Fatal));
    assert!(matches!(classify_watch_event(&WatchEvent::Error), WatchDecision::Fatal));
    assert!(matches!(classify_watch_event(&WatchEvent::Write), WatchDecision::Reload));
    assert!(matches!(classify_watch_event(&WatchEvent::NoticeWrite), WatchDecision::Reload));
    assert!(matches!(classify_watch_event(&WatchEvent::Create), WatchDecision::Reload));
    assert!(matches!(classify_watch_event(&WatchEvent::Chmod), WatchDecision::Reload));
    assert!(matches!(classify_watch_event(&WatchEvent::Rescan), WatchDecision::Reload));
}

#[test]
fn confirmation_keystrokes_map_to_their_actions() {
    assert!(matches!(confirm_decision('Y'), ConfirmAction::Accept));
    assert!(matches!(confirm_decision('y'), ConfirmAction::Accept));
    assert!(matches!(confirm_decision('\n'), ConfirmAction::Accept));
    assert!(matches!(confirm_decision('N'), ConfirmAction::Reinput));
    assert!(matches!(confirm_decision('n'), ConfirmAction::Reinput));
    assert!(matches!(confirm_decision('C'), ConfirmAction::Cancel));
    assert!(matches!(confirm_decision('c'), ConfirmAction::Cancel));
    assert!(matches!(confirm_decision('q'), ConfirmAction::Unknown));
    assert!(matches!(confirm_decision(' '), ConfirmAction::Unknown));
}

#[test]
fn failure_statuses_are_the_client_and_server_error_ranges() {
    assert!(!status_is_failure(200));
    assert!(!status_is_failure(304));
    assert!(!status_is_failure(399));
    assert!(status_is_failure(400));
    assert!(status_is_failure(404));
    assert!(status_is_failure(500));
    assert!(status_is_failure(599));
    assert!(!status_is_failure(600));
}

#[test]
fn error_values_keep_what_they_were_built_from() {
    let c = ConfigurationError::new("something is off".to_owned());
    assert_eq!(c.message(), "something is off");
    let d = TwitterDataError::new("field".to_owned(), "body".to_owned());
    assert_eq!(d.field, "field");
    assert_eq!(d.body, "body");
    let a = TwitterAccessError { code: 404, message: "gone".to_owned() };
    assert!(status_is_failure(a.code));
}

#[test]
fn key_pairs_keep_their_fields() {
    let k = ApiKey::new("ck".to_owned(), "cs".to_owned());
    assert_eq!(k.consumer_key, "ck");
    assert_eq!(k.consumer_secret, "cs");
    let a = AuthInfo::new(5, "tok".to_owned(), "sec".to_owned());
    assert_eq!(a.user_id, 5);
    assert_eq!(a.token, "tok");
    assert_eq!(a.secret, "sec");
}
