use vstd::prelude::*;

use crate::config::Attribute;
use crate::config::Config;
use crate::config::ResolvedProfile;
use crate::config::chain_ends;
use crate::config::opt_view;
use crate::config::spec_resolve_attr;
use crate::errors::ResolveError;
use crate::matcher::check_triggered_profile;
use crate::matcher::eligible;
use crate::matcher::profile_matches;
use crate::models::Status;

verus! {

/// What one polling cycle decided: the watermark to carry forward, which
/// entry and rule won (if any), and the resolved profile to hand to the apply
/// action (absent on the dry-run first cycle and on resolution failure).
pub struct CycleOutcome {
    pub new_watermark: Option<u64>,
    pub matched_entry: Option<usize>,
    pub matched_rule: Option<usize>,
    pub apply: Option<ResolvedProfile>,
    pub resolve_error: Option<ResolveError>,
}

/// The greatest identifier among the first `k` entries, or -1 if `k` is 0.
pub open spec fn spec_max_id(entries: Seq<Status>, k: int) -> int
    decreases k,
{
    if k <= 0 {
        -1
    } else {
        let rest = spec_max_id(entries, k - 1);
        if entries[k - 1].id > rest {
            entries[k - 1].id as int
        } else {
            rest
        }
    }
}

/// The watermark one cycle hands forward: unchanged when nothing was fetched,
/// else the greatest identifier observed, never receding below the old value.
pub open spec fn spec_new_watermark(last: Option<u64>, entries: Seq<Status>) -> Option<u64> {
    if entries.len() == 0 {
        last
    } else {
        let m = spec_max_id(entries, entries.len() as int);
        match last {
            Some(w) => if w as int >= m {
                Some(w)
            } else {
                Some(m as u64)
            },
            None => Some(m as u64),
        }
    }
}

/// Some rule of the store fires on this entry.
pub open spec fn entry_triggers(entry: Status, config: Config) -> bool {
    eligible(entry, config.property) && exists|p: int|
        0 <= p < config.profiles@.len() && profile_matches(
            #[trigger] config.profiles@[p],
            entry.text@,
        )
}

/// The entry at `k` is strictly newer than the watermark and fires some rule.
pub open spec fn is_candidate(entries: Seq<Status>, last: Option<u64>, config: Config, k: int) -> bool {
    &&& 0 <= k < entries.len()
    &&& (last matches Some(w) ==> entries[k].id > w)
    &&& entry_triggers(entries[k], config)
}

/// The entry at `k` is the candidate with the least identifier, earliest
/// fetched position breaking ties — exactly the first match when the fetched
/// page is sorted ascending by identifier (stably) and scanned in order.
pub open spec fn is_winner(entries: Seq<Status>, last: Option<u64>, config: Config, k: int) -> bool {
    &&& is_candidate(entries, last, config, k)
    &&& forall|j: int|
        #[trigger] is_candidate(entries, last, config, j) ==> (entries[k].id < entries[j].id || (
        entries[k].id == entries[j].id && k <= j))
}

/// The rule at `p` is the first in store order that fires on this text.
pub open spec fn first_matching_rule(config: Config, text: Seq<char>, p: int) -> bool {
    &&& 0 <= p < config.profiles@.len()
    &&& profile_matches(config.profiles@[p], text)
    &&& forall|j: int| 0 <= j < p ==> !profile_matches(config.profiles@[j], text)
}

/// Run one polling cycle over entries already fetched from the timeline.
///
/// Processes entries in ascending identifier order, finds the first entry
/// strictly newer than the watermark on which a rule fires, resolves that
/// rule's derive chain, and hands the result out for the apply action —
/// unless the watermark was absent (the process's first cycle), which is a
/// dry run that only establishes the watermark. The returned watermark never
/// recedes. A fetch failure is the caller's: it keeps its watermark and does
/// not call this at all, so failed cycles retry the same range.
pub fn run_once(last_received: Option<u64>, statuses: &Vec<Status>, config: &Config) -> (r:
    CycleOutcome)
    ensures
        r.new_watermark == spec_new_watermark(last_received, statuses@),
        last_received matches Some(w) ==> (r.new_watermark matches Some(v) && v >= w),
        match r.matched_entry {
            Some(b) => is_winner(statuses@, last_received, *config, b as int),
            None => forall|j: int| !is_candidate(statuses@, last_received, *config, j),
        },
        match (r.matched_entry, r.matched_rule) {
            (Some(b), Some(p)) => first_matching_rule(*config, statuses@[b as int].text@, p as int),
            (None, None) => true,
            _ => false,
        },
        last_received is None ==> r.apply is None && r.resolve_error is None,
        r.apply is Some <==> (last_received is Some && (r.matched_rule matches Some(p)
            && chain_ends(
            config.profiles@,
            config.profiles@[p as int].key@,
            (config.profiles@.len() + 1) as nat,
        ))),
        r.resolve_error is Some <==> (last_received is Some && (r.matched_rule matches Some(p)
            && !chain_ends(
            config.profiles@,
            config.profiles@[p as int].key@,
            (config.profiles@.len() + 1) as nat,
        ))),
        match (r.apply, r.matched_rule) {
            (Some(res), Some(p)) => {
                &&& opt_view(res.name) == spec_resolve_attr(
                    config.profiles@,
                    config.profiles@[p as int].key@,
                    Attribute::Name,
                    (config.profiles@.len() + 1) as nat,
                )
                &&& opt_view(res.url) == spec_resolve_attr(
                    config.profiles@,
                    config.profiles@[p as int].key@,
                    Attribute::Url,
                    (config.profiles@.len() + 1) as nat,
                )
                &&& opt_view(res.location) == spec_resolve_attr(
                    config.profiles@,
                    config.profiles@[p as int].key@,
                    Attribute::Location,
                    (config.profiles@.len() + 1) as nat,
                )
                &&& opt_view(res.description) == spec_resolve_attr(
                    config.profiles@,
                    config.profiles@[p as int].key@,
                    Attribute::Description,
                    (config.profiles@.len() + 1) as nat,
                )
                &&& opt_view(res.image) == spec_resolve_attr(
                    config.profiles@,
                    config.profiles@[p as int].key@,
                    Attribute::Image,
                    (config.profiles@.len() + 1) as nat,
                )
                &&& opt_view(res.banner) == spec_resolve_attr(
                    config.profiles@,
                    config.profiles@[p as int].key@,
                    Attribute::Banner,
                    (config.profiles@.len() + 1) as nat,
                )
                &&& opt_view(res.intro) == spec_resolve_attr(
                    config.profiles@,
                    config.profiles@[p as int].key@,
                    Attribute::Intro,
                    (config.profiles@.len() + 1) as nat,
                )
            },
            (Some(_), None) => false,
            _ => true,
        },
{
    let n = statuses.len();
    // greatest identifier observed, folded left to right
    let new_watermark: Option<u64> = if n == 0 {
        last_received
    } else {
        let mut m: u64 = statuses[0].id;
        let mut i: usize = 1;
        proof {
            assert(spec_max_id(statuses@, 0) == -1);
        }
        while i < n
            invariant
                1 <= i <= n,
                n == statuses@.len(),
                m as int == spec_max_id(statuses@, i as int),
            decreases n - i,
        {
            if statuses[i].id > m {
                m = statuses[i].id;
            }
            i = i + 1;
        }
        match last_received {
            Some(w) => if w >= m {
                Some(w)
            } else {
                Some(m)
            },
            None => Some(m),
        }
    };
    // the candidate with the least identifier, earliest position on ties
    let mut best_entry: Option<usize> = None;
    let mut best_rule: usize = 0;
    for i in 0..n
        invariant
            n == statuses@.len(),
            match best_entry {
                Some(b) => is_candidate(statuses@, last_received, *config, b as int) && b < i
                    && first_matching_rule(*config, statuses@[b as int].text@, best_rule as int)
                    && (forall|j: int|
                    0 <= j < i && #[trigger] is_candidate(statuses@, last_received, *config, j)
                        ==> (statuses@[b as int].id < statuses@[j].id || (statuses@[b as int].id
                        == statuses@[j].id && b <= j))),
                None => forall|j: int| 0 <= j < i ==> !is_candidate(
                    statuses@,
                    last_received,
                    *config,
                    j,
                ),
            },
    {
        let newer = match last_received {
            Some(w) => statuses[i].id > w,
            None => true,
        };
        if newer {
            match check_triggered_profile(&statuses[i], config) {
                Some(p) => {
                    let replace = match best_entry {
                        Some(b) => statuses[i].id < statuses[b].id,
                        None => true,
                    };
                    if replace {
                        best_entry = Some(i);
                        best_rule = p;
                    }
                },
                None => {},
            }
        }
    }
    match best_entry {
        None => CycleOutcome {
            new_watermark,
            matched_entry: None,
            matched_rule: None,
            apply: None,
            resolve_error: None,
        },
        Some(b) => {
            match last_received {
                None => CycleOutcome {
                    new_watermark,
                    matched_entry: Some(b),
                    matched_rule: Some(best_rule),
                    apply: None,
                    resolve_error: None,
                },
                Some(_) => {
                    match config.profiles[best_rule].resolve(&config.profiles) {
                        Ok(res) => CycleOutcome {
                            new_watermark,
                            matched_entry: Some(b),
                            matched_rule: Some(best_rule),
                            apply: Some(res),
                            resolve_error: None,
                        },
                        Err(e) => CycleOutcome {
                            new_watermark,
                            matched_entry: Some(b),
                            matched_rule: Some(best_rule),
                            apply: None,
                            resolve_error: Some(e),
                        },
                    }
                },
            }
        },
    }
}

} // verus!
