use profile_switcher::config::AuthInfo;
use profile_switcher::config::Config;
use profile_switcher::config::Profile;
use profile_switcher::config::Property;
use profile_switcher::cycle::run_once;
use profile_switcher::models::Status;
use profile_switcher::models::StatusType;
use profile_switcher::models::User;

fn rule(key: &str) -> Profile {
    Profile {
        key: key.to_owned(),
        matches: Vec::new(),
        triggers: Vec::new(),
        derive: None,
        name: None,
        url: None,
        location: None,
        description: None,
        image: None,
        banner: None,
        intro: None,
        match_instances: Vec::new(),
    }
}

fn flags() -> Property {
    Property {
        trigger_retweet: false,
        trigger_quote: false,
        trigger_reply: false,
        trigger_direct_messages: false,
    }
}

fn entry(id: u64, text: &str) -> Status {
    Status {
        status_type: StatusType::PublicStatus,
        id,
        user: User {
            id: 9,
            screen_name: "who".to_owned(),
            name: "Who".to_owned(),
            description: String::new(),
            is_protected: false,
        },
        text: text.to_owned(),
        in_reply_to_status_id: None,
        retweeted_status: None,
        quoted_status: None,
    }
}

fn validated(profiles: Vec<Profile>) -> Config {
    let mut cfg = Config::new(
        AuthInfo::new(1, "t".to_owned(), "s".to_owned()),
        flags(),
        profiles,
    );
    cfg.validate().expect("store should validate");
    cfg
}

#[test]
fn first_cycle_is_a_dry_run() {
    let mut r = rule("r");
    r.triggers.push("x".to_owned());
    r.name = Some("alt".to_owned());
    let cfg = validated(vec![r]);
    let entries = vec![entry(5, "x"), entry(9, "quiet")];
    let out = run_once(None, &entries, &cfg);
    // the match is found but deliberately not applied
    assert_eq!(out.matched_entry, Some(0));
    assert!(out.apply.is_none());
    // and the greatest observed identifier is returned
    assert_eq!(out.new_watermark, Some(9));
}

#[test]
fn watermark_never_recedes() {
    let cfg = validated(vec![rule("r")]);
    // everything fetched is older than the watermark
    let entries = vec![entry(3, "a"), entry(4, "b")];
    let out = run_once(Some(10), &entries, &cfg);
    assert_eq!(out.new_watermark, Some(10));
    assert!(out.matched_entry.is_none());
}

#[test]
fn empty_fetch_keeps_the_watermark() {
    let cfg = validated(vec![rule("r")]);
    let entries: Vec<Status> = Vec::new();
    assert_eq!(run_once(Some(42), &entries, &cfg).new_watermark, Some(42));
    assert_eq!(run_once(None, &entries, &cfg).new_watermark, None);
}

#[test]
fn entries_at_or_below_the_watermark_never_fire() {
    let mut r = rule("r");
    r.triggers.push("x".to_owned());
    let cfg = validated(vec![r]);
    let entries = vec![entry(10, "x"), entry(11, "x")];
    let out = run_once(Some(10), &entries, &cfg);
    // only the strictly newer entry counts
    assert_eq!(out.matched_entry, Some(1));
    assert_eq!(out.new_watermark, Some(11));
}

#[test]
fn oldest_matching_entry_wins_the_cycle() {
    let mut r = rule("r");
    r.triggers.push("x".to_owned());
    let cfg = validated(vec![r]);
    // fetched out of order: the entry with the least identifier wins
    let entries = vec![entry(30, "x"), entry(20, "x"), entry(25, "x")];
    let out = run_once(Some(10), &entries, &cfg);
    assert_eq!(out.matched_entry, Some(1));
    assert_eq!(out.new_watermark, Some(30));
    assert!(out.apply.is_some());
}

#[test]
fn end_to_end_sample_cycle() {
    let mut sample = rule("sample");
    sample.matches.push(".*change.*sample".to_owned());
    sample.name = Some("sample profile".to_owned());
    sample.url = Some("example.com".to_owned());
    let mut other = rule("other");
    other.derive = Some("sample".to_owned());
    other.name = Some("Bob".to_owned());
    let cfg = validated(vec![sample, other]);

    let entries = vec![entry(101, "please change to sample")];
    let out = run_once(Some(100), &entries, &cfg);

    // the matcher selects `sample`, never the derived rule
    assert_eq!(out.matched_rule, Some(0));
    assert_eq!(out.matched_entry, Some(0));
    // the resolver yields sample's own attributes verbatim
    let resolved = out.apply.expect("the apply action is invoked exactly once");
    assert_eq!(resolved.name.as_deref(), Some("sample profile"));
    assert_eq!(resolved.url.as_deref(), Some("example.com"));
    assert_eq!(resolved.location, None);
    assert!(out.resolve_error.is_none());
    // progress is retained
    assert_eq!(out.new_watermark, Some(101));
}

#[test]
fn ineligible_kinds_never_win_a_cycle() {
    let mut r = rule("r");
    r.triggers.push("x".to_owned());
    let cfg = validated(vec![r]);
    let mut reshare = entry(50, "x");
    reshare.retweeted_status = Some(Box::new(entry(1, "x")));
    let entries = vec![reshare];
    let out = run_once(Some(10), &entries, &cfg);
    assert!(out.matched_entry.is_none());
    assert!(out.apply.is_none());
    assert_eq!(out.new_watermark, Some(50));
}
