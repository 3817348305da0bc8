use profile_switcher::config::AuthInfo;
use profile_switcher::config::Config;
use profile_switcher::config::Profile;
use profile_switcher::config::Property;
use profile_switcher::errors::ResolveError;

fn rule(key: &str, derive: Option<&str>) -> Profile {
    Profile {
        key: key.to_owned(),
        matches: Vec::new(),
        triggers: Vec::new(),
        derive: derive.map(|d| d.to_owned()),
        name: None,
        url: None,
        location: None,
        description: None,
        image: None,
        banner: None,
        intro: None,
        match_instances: Vec::new(),
    }
}

fn flags() -> Property {
    Property {
        trigger_retweet: false,
        trigger_quote: false,
        trigger_reply: false,
        trigger_direct_messages: false,
    }
}

#[test]
fn resolve_prefers_own_value_over_inherited() {
    let mut child = rule("child", Some("base"));
    child.name = Some("child name".to_owned());
    let mut base = rule("base", None);
    base.name = Some("base name".to_owned());
    base.url = Some("base url".to_owned());
    let profiles = vec![child, base];
    let resolved = profiles[0].resolve(&profiles).unwrap();
    assert_eq!(resolved.name.as_deref(), Some("child name"));
    assert_eq!(resolved.url.as_deref(), Some("base url"));
    assert_eq!(resolved.location, None);
}

#[test]
fn resolve_walks_three_link_chain_in_order() {
    let mut a = rule("a", Some("b"));
    a.name = Some("a".to_owned());
    let mut b = rule("b", Some("c"));
    b.url = Some("b".to_owned());
    b.name = Some("hidden".to_owned());
    let mut c = rule("c", None);
    c.location = Some("c".to_owned());
    c.url = Some("hidden".to_owned());
    let profiles = vec![a, b, c];
    let resolved = profiles[0].resolve(&profiles).unwrap();
    assert_eq!(resolved.name.as_deref(), Some("a"));
    assert_eq!(resolved.url.as_deref(), Some("b"));
    assert_eq!(resolved.location.as_deref(), Some("c"));
}

#[test]
fn resolve_distinguishes_empty_string_from_absent() {
    let mut child = rule("child", Some("base"));
    child.name = Some(String::new());
    let mut base = rule("base", None);
    base.name = Some("base name".to_owned());
    let profiles = vec![child, base];
    let resolved = profiles[0].resolve(&profiles).unwrap();
    // an explicitly empty value is a value, not "inherit"
    assert_eq!(resolved.name.as_deref(), Some(""));
}

#[test]
fn resolve_unknown_start_key_fails() {
    let orphan = rule("orphan", None);
    let profiles = vec![rule("a", None)];
    let r = orphan.resolve(&profiles);
    match r {
        Err(ResolveError::UnknownKey { key }) => assert_eq!(key, "orphan"),
        other => panic!("expected UnknownKey, got {:?}", other),
    }
}

#[test]
fn resolve_dangling_link_fails_with_unknown_key() {
    let profiles = vec![rule("a", Some("ghost"))];
    let r = profiles[0].resolve(&profiles);
    match r {
        Err(ResolveError::UnknownKey { key }) => assert_eq!(key, "ghost"),
        other => panic!("expected UnknownKey, got {:?}", other),
    }
}

#[test]
fn resolve_bounds_a_cyclic_chain() {
    // an unvalidated, cyclic store must not loop forever
    let profiles = vec![rule("a", Some("b")), rule("b", Some("a"))];
    let r = profiles[0].resolve(&profiles);
    assert!(matches!(r, Err(ResolveError::CycleDetected { .. })));
}

#[test]
fn resolve_on_validated_store_always_succeeds() {
    let mut a = rule("a", Some("b"));
    a.banner = Some("banner".to_owned());
    let mut b = rule("b", None);
    b.intro = Some("intro".to_owned());
    let mut cfg = Config::new(AuthInfo::new(1, "t".to_owned(), "s".to_owned()), flags(), vec![a, b]);
    assert!(cfg.validate().is_ok());
    for p in cfg.profiles() {
        assert!(p.resolve(cfg.profiles()).is_ok());
    }
    let resolved = cfg.profiles()[0].resolve(cfg.profiles()).unwrap();
    assert_eq!(resolved.banner.as_deref(), Some("banner"));
    assert_eq!(resolved.intro.as_deref(), Some("intro"));
}
