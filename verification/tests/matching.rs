use profile_switcher::config::AuthInfo;
use profile_switcher::config::Config;
use profile_switcher::config::Profile;
use profile_switcher::config::Property;
use profile_switcher::matcher::check_match;
use profile_switcher::matcher::check_trigger;
use profile_switcher::matcher::check_triggered_profile;
use profile_switcher::matcher::check_with_patterns;
use profile_switcher::matcher::check_with_status;
use profile_switcher::models::Status;
use profile_switcher::models::StatusType;
use profile_switcher::models::User;
use profile_switcher::pattern::CompiledPattern;

fn rule(key: &str) -> Profile {
    Profile {
        key: key.to_owned(),
        matches: Vec::new(),
        triggers: Vec::new(),
        derive: None,
        name: None,
        url: None,
        location: None,
        description: None,
        image: None,
        banner: None,
        intro: None,
        match_instances: Vec::new(),
    }
}

fn flags() -> Property {
    Property {
        trigger_retweet: true,
        trigger_quote: true,
        trigger_reply: true,
        trigger_direct_messages: true,
    }
}

fn author() -> User {
    User {
        id: 9,
        screen_name: "who".to_owned(),
        name: "Who".to_owned(),
        description: String::new(),
        is_protected: false,
    }
}

fn entry(id: u64, text: &str) -> Status {
    Status {
        status_type: StatusType::PublicStatus,
        id,
        user: author(),
        text: text.to_owned(),
        in_reply_to_status_id: None,
        retweeted_status: None,
        quoted_status: None,
    }
}

fn validated(profiles: Vec<Profile>, property: Property) -> Config {
    let mut cfg = Config::new(
        AuthInfo::new(1, "t".to_owned(), "s".to_owned()),
        property,
        profiles,
    );
    cfg.validate().expect("store should validate");
    cfg
}

#[test]
fn trigger_is_exact_match_only() {
    let t = "swap".to_owned();
    assert!(check_trigger(&t, "swap"));
    assert!(!check_trigger(&t, "swap!"));
    assert!(!check_trigger(&t, "Swap"));
}

#[test]
fn pattern_match_follows_the_compiled_pattern() {
    let p = CompiledPattern::new(".*change.*sample").unwrap();
    assert!(check_match(&p, "please change to sample"));
    assert!(!check_match(&p, "nothing relevant"));
    assert!(CompiledPattern::new("(").is_none());
}

#[test]
fn list_checks_answer_whether_any_entry_fires() {
    let triggers = vec!["a".to_owned(), "b".to_owned()];
    assert!(check_with_status(&triggers, "b"));
    assert!(!check_with_status(&triggers, "c"));
    let patterns = vec![CompiledPattern::new("^x$").unwrap()];
    assert!(check_with_patterns(&patterns, "x"));
    assert!(!check_with_patterns(&patterns, "xx"));
}

#[test]
fn store_order_wins_on_tie() {
    // R1 fires by trigger, R2 by pattern, on the same text: R1 wins
    let mut r1 = rule("r1");
    r1.triggers.push("x".to_owned());
    let mut r2 = rule("r2");
    r2.matches.push("^x$".to_owned());
    let cfg = validated(vec![r1, r2], flags());
    let got = check_triggered_profile(&entry(1, "x"), &cfg);
    assert_eq!(got, Some(0));
}

#[test]
fn later_rule_fires_when_earlier_does_not() {
    let mut r1 = rule("r1");
    r1.triggers.push("something else".to_owned());
    let mut r2 = rule("r2");
    r2.matches.push("^x$".to_owned());
    let cfg = validated(vec![r1, r2], flags());
    assert_eq!(check_triggered_profile(&entry(1, "x"), &cfg), Some(1));
}

#[test]
fn no_rule_fires_on_unrelated_text() {
    let mut r1 = rule("r1");
    r1.triggers.push("x".to_owned());
    let cfg = validated(vec![r1], flags());
    assert_eq!(check_triggered_profile(&entry(1, "y"), &cfg), None);
}

#[test]
fn disabled_retweet_flag_gates_reshares_whatever_the_text() {
    let mut r1 = rule("r1");
    r1.triggers.push("x".to_owned());
    let mut property = flags();
    property.trigger_retweet = false;
    let cfg = validated(vec![r1], property);
    let mut reshare = entry(1, "x");
    reshare.retweeted_status = Some(Box::new(entry(0, "x")));
    assert_eq!(check_triggered_profile(&reshare, &cfg), None);
    // the same entry without the reshare marker fires
    assert_eq!(check_triggered_profile(&entry(1, "x"), &cfg), Some(0));
}

#[test]
fn disabled_quote_flag_gates_quote_posts() {
    let mut r1 = rule("r1");
    r1.triggers.push("x".to_owned());
    let mut property = flags();
    property.trigger_quote = false;
    let cfg = validated(vec![r1], property);
    let mut quoted = entry(1, "x");
    quoted.quoted_status = Some(Box::new(entry(0, "x")));
    assert_eq!(check_triggered_profile(&quoted, &cfg), None);
}

#[test]
fn disabled_reply_flag_gates_replies() {
    let mut r1 = rule("r1");
    r1.triggers.push("x".to_owned());
    let mut property = flags();
    property.trigger_reply = false;
    let cfg = validated(vec![r1], property);
    let mut reply = entry(1, "x");
    reply.in_reply_to_status_id = Some(77);
    assert_eq!(check_triggered_profile(&reply, &cfg), None);
}

#[test]
fn derived_rules_contribute_no_trigger_conditions() {
    // base would fire on "x", but the derived rule is the one with no triggers
    let mut base = rule("base");
    base.triggers.push("x".to_owned());
    let mut derived = rule("derived");
    derived.derive = Some("base".to_owned());
    let cfg = validated(vec![derived, base], flags());
    // base itself still fires, at its own position
    assert_eq!(check_triggered_profile(&entry(1, "x"), &cfg), Some(1));
}
