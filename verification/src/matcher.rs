use vstd::prelude::*;

use crate::config::Config;
use crate::config::Profile;
use crate::config::Property;
use crate::models::Status;
use crate::pattern::CompiledPattern;
use crate::pattern::regex_match;

verus! {

/// The entry's text exactly equals the trigger string.
pub fn check_trigger(trigger: &String, text: &str) -> (r: bool)
    ensures
        r <==> trigger@ == text@,
{
    *trigger == text.to_owned()
}

/// The compiled pattern matches the entry's text.
pub fn check_match(pattern: &CompiledPattern, text: &str) -> (r: bool)
    ensures
        r == regex_match(pattern.spec_pattern(), text@),
{
    pattern.is_match(text)
}

/// Some trigger string in the list equals the text.
pub fn check_with_status(candidates: &Vec<String>, text: &str) -> (r: bool)
    ensures
        r <==> exists|i: int|
            0 <= i < candidates@.len() && (#[trigger] candidates@[i])@ == text@,
{
    let n = candidates.len();
    for i in 0..n
        invariant
            n == candidates@.len(),
            forall|a: int| 0 <= a < i ==> (#[trigger] candidates@[a])@ != text@,
    {
        if check_trigger(&candidates[i], text) {
            return true;
        }
    }
    false
}

/// Some pattern in the list matches the text.
pub fn check_with_patterns(candidates: &Vec<CompiledPattern>, text: &str) -> (r: bool)
    ensures
        r <==> exists|i: int|
            0 <= i < candidates@.len() && regex_match(
                (#[trigger] candidates@[i]).spec_pattern(),
                text@,
            ),
{
    let n = candidates.len();
    for i in 0..n
        invariant
            n == candidates@.len(),
            forall|a: int|
                0 <= a < i ==> !regex_match((#[trigger] candidates@[a]).spec_pattern(), text@),
    {
        if check_match(&candidates[i], text) {
            return true;
        }
    }
    false
}

/// A rule fires on a text when the text equals one of its trigger strings or
/// satisfies one of its compiled patterns. Derived rules contribute attribute
/// values only, never trigger conditions, so nothing here follows `derive`.
pub open spec fn profile_matches(p: Profile, text: Seq<char>) -> bool {
    (exists|i: int| 0 <= i < p.triggers@.len() && (#[trigger] p.triggers@[i])@ == text) || (exists|
        i: int,
    |
        0 <= i < p.match_instances@.len() && regex_match(
            (#[trigger] p.match_instances@[i]).spec_pattern(),
            text,
        ))
}

/// A public-feed entry may trigger at all only if its kind is enabled by the
/// store's flags. Direct-message eligibility is the caller's business, judged
/// by `trigger_direct_messages` on the DM channel.
pub open spec fn eligible(status: Status, property: Property) -> bool {
    &&& status.retweeted_status is Some ==> property.trigger_retweet
    &&& status.quoted_status is Some ==> property.trigger_quote
    &&& status.in_reply_to_status_id is Some ==> property.trigger_reply
}

/// An ineligible kind of entry never matches, whatever its text: a reshare
/// with `trigger_retweet` off, a quote-post with `trigger_quote` off, a reply
/// with `trigger_reply` off.
pub proof fn lemma_eligibility_gating(status: Status, property: Property)
    ensures
        status.retweeted_status is Some && !property.trigger_retweet ==> !eligible(
            status,
            property,
        ),
        status.quoted_status is Some && !property.trigger_quote ==> !eligible(status, property),
        status.in_reply_to_status_id is Some && !property.trigger_reply ==> !eligible(
            status,
            property,
        ),
{
}

/// Decide whether any rule of the store fires on this entry, and which one
/// wins: the first rule in store order, ineligible entries matching nothing.
pub fn check_triggered_profile(status: &Status, config: &Config) -> (r: Option<usize>)
    ensures
        match r {
            Some(i) => eligible(*status, config.property) && 0 <= i < config.profiles@.len()
                && profile_matches(config.profiles@[i as int], status.text@) && (forall|j: int|
                0 <= j < i ==> !profile_matches(config.profiles@[j], status.text@)),
            None => !eligible(*status, config.property) || (forall|j: int|
                0 <= j < config.profiles@.len() ==> !profile_matches(
                    config.profiles@[j],
                    status.text@,
                )),
        },
{
    if status.retweeted_status.is_some() && !config.property.trigger_retweet {
        return None;
    }
    if status.quoted_status.is_some() && !config.property.trigger_quote {
        return None;
    }
    if status.in_reply_to_status_id.is_some() && !config.property.trigger_reply {
        return None;
    }
    let n = config.profiles.len();
    for i in 0..n
        invariant
            n == config.profiles@.len(),
            eligible(*status, config.property),
            forall|j: int| 0 <= j < i ==> !profile_matches(config.profiles@[j], status.text@),
    {
        let profile = &config.profiles[i];
        if check_with_status(&profile.triggers, status.text.as_str()) || check_with_patterns(
            &profile.match_instances,
            status.text.as_str(),
        ) {
            return Some(i);
        }
    }
    None
}

} // verus!
