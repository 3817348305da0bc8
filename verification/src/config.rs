use vstd::prelude::*;

use crate::errors::ResolveError;
use crate::errors::ValidationError;
use crate::pattern::CompiledPattern;
use crate::pattern::regex_valid;

verus! {

/// The application-level key pair used to authenticate all API calls.
/// Immutable after load.
pub struct ApiKey {
    pub consumer_key: String,
    pub consumer_secret: String,
}

impl ApiKey {
    pub fn new(consumer_key: String, consumer_secret: String) -> (r: ApiKey)
        ensures
            r.consumer_key == consumer_key,
            r.consumer_secret == consumer_secret,
    {
        ApiKey { consumer_key, consumer_secret }
    }
}

/// A user identifier plus a token/secret pair authorizing actions on one
/// social account. Immutable after load.
pub struct AuthInfo {
    pub user_id: u64,
    pub token: String,
    pub secret: String,
}

impl AuthInfo {
    pub fn new(user_id: u64, token: String, secret: String) -> (r: AuthInfo)
        ensures
            r.user_id == user_id,
            r.token == token,
            r.secret == secret,
    {
        AuthInfo { user_id, token, secret }
    }
}

/// Feature flags controlling which kinds of timeline entries are eligible to
/// trigger matching.
pub struct Property {
    pub trigger_retweet: bool,
    pub trigger_quote: bool,
    pub trigger_reply: bool,
    pub trigger_direct_messages: bool,
}

impl Property {
    pub fn create_sample() -> (r: Property)
        ensures
            !r.trigger_retweet,
            !r.trigger_quote,
            !r.trigger_reply,
            !r.trigger_direct_messages,
    {
        Property {
            trigger_retweet: false,
            trigger_quote: false,
            trigger_reply: false,
            trigger_direct_messages: false,
        }
    }
}

/// One named rule set: trigger conditions plus the attribute values to apply,
/// with an optional `derive` link to another rule for attribute inheritance.
pub struct Profile {
    pub key: String,
    pub matches: Vec<String>,
    pub triggers: Vec<String>,
    pub derive: Option<String>,
    pub name: Option<String>,
    pub url: Option<String>,
    pub location: Option<String>,
    pub description: Option<String>,
    pub image: Option<String>,
    pub banner: Option<String>,
    pub intro: Option<String>,
    /// The compiled forms of `matches`, filled by validation.
    pub match_instances: Vec<CompiledPattern>,
}

/// The flattened attribute set produced by walking a derive chain to the end.
#[derive(Debug)]
pub struct ResolvedProfile {
    pub name: Option<String>,
    pub url: Option<String>,
    pub location: Option<String>,
    pub description: Option<String>,
    pub image: Option<String>,
    pub banner: Option<String>,
    pub intro: Option<String>,
}

/// Names one of the inheritable attribute fields of a rule.
pub enum Attribute {
    Name,
    Url,
    Location,
    Description,
    Image,
    Banner,
    Intro,
}

pub open spec fn opt_view(o: Option<String>) -> Option<Seq<char>> {
    match o {
        Some(s) => Some(s@),
        None => None,
    }
}

/// The value a rule itself declares for one attribute.
pub open spec fn attr_of(p: Profile, which: Attribute) -> Option<Seq<char>> {
    match which {
        Attribute::Name => opt_view(p.name),
        Attribute::Url => opt_view(p.url),
        Attribute::Location => opt_view(p.location),
        Attribute::Description => opt_view(p.description),
        Attribute::Image => opt_view(p.image),
        Attribute::Banner => opt_view(p.banner),
        Attribute::Intro => opt_view(p.intro),
    }
}

pub open spec fn first_key_index_from(profiles: Seq<Profile>, key: Seq<char>, start: int) -> Option<int>
    decreases profiles.len() - start,
{
    if start < 0 || start >= profiles.len() {
        None
    } else if profiles[start].key@ == key {
        Some(start)
    } else {
        first_key_index_from(profiles, key, start + 1)
    }
}

/// The index of the first rule declared with this key, if any.
pub open spec fn first_key_index(profiles: Seq<Profile>, key: Seq<char>) -> Option<int> {
    first_key_index_from(profiles, key, 0)
}

pub open spec fn has_key(profiles: Seq<Profile>, key: Seq<char>) -> bool {
    first_key_index(profiles, key) is Some
}

pub proof fn lemma_first_key_index_from(profiles: Seq<Profile>, key: Seq<char>, start: int)
    requires
        0 <= start <= profiles.len(),
    ensures
        match first_key_index_from(profiles, key, start) {
            Some(i) => start <= i < profiles.len() && profiles[i].key@ == key
                && (forall|j: int| start <= j < i ==> profiles[j].key@ != key),
            None => forall|j: int| start <= j < profiles.len() ==> profiles[j].key@ != key,
        },
    decreases profiles.len() - start,
{
    if start < profiles.len() && profiles[start].key@ != key {
        lemma_first_key_index_from(profiles, key, start + 1);
    }
}

/// The index of the first rule with this key, with what that means spelled out.
pub proof fn lemma_first_key_index(profiles: Seq<Profile>, key: Seq<char>)
    ensures
        match first_key_index(profiles, key) {
            Some(i) => 0 <= i < profiles.len() && profiles[i].key@ == key
                && (forall|j: int| 0 <= j < i ==> profiles[j].key@ != key),
            None => forall|j: int| 0 <= j < profiles.len() ==> profiles[j].key@ != key,
        },
{
    lemma_first_key_index_from(profiles, key, 0);
}

/// Following `derive` links from `key`, a rule without `derive` is reached
/// within `fuel` lookups.
pub open spec fn chain_ends(profiles: Seq<Profile>, key: Seq<char>, fuel: nat) -> bool
    decreases fuel,
{
    if fuel == 0 {
        false
    } else {
        match first_key_index(profiles, key) {
            None => false,
            Some(i) => match profiles[i].derive {
                None => true,
                Some(d) => chain_ends(profiles, d@, (fuel - 1) as nat),
            },
        }
    }
}

/// Following `derive` links from `key`, a key that no rule declares is reached
/// within `fuel` lookups.
pub open spec fn chain_missing(profiles: Seq<Profile>, key: Seq<char>, fuel: nat) -> bool
    decreases fuel,
{
    if fuel == 0 {
        false
    } else {
        match first_key_index(profiles, key) {
            None => true,
            Some(i) => match profiles[i].derive {
                None => false,
                Some(d) => chain_missing(profiles, d@, (fuel - 1) as nat),
            },
        }
    }
}

/// The first non-absent value for `which`, walking from the rule named `key`
/// outward along `derive` links in chain order; absent if no rule within
/// `fuel` lookups declares it.
pub open spec fn spec_resolve_attr(
    profiles: Seq<Profile>,
    key: Seq<char>,
    which: Attribute,
    fuel: nat,
) -> Option<Seq<char>>
    decreases fuel,
{
    if fuel == 0 {
        None
    } else {
        match first_key_index(profiles, key) {
            None => None,
            Some(i) => match attr_of(profiles[i], which) {
                Some(v) => Some(v),
                None => match profiles[i].derive {
                    None => None,
                    Some(d) => spec_resolve_attr(profiles, d@, which, (fuel - 1) as nat),
                },
            },
        }
    }
}

fn clone_opt(o: &Option<String>) -> (r: Option<String>)
    ensures
        r == *o,
{
    match o {
        Some(s) => Some(s.clone()),
        None => None,
    }
}

/// Find the first rule declared with this key.
pub fn find_profile(profiles: &Vec<Profile>, key: &String) -> (r: Option<usize>)
    ensures
        match r {
            Some(i) => first_key_index(profiles@, key@) == Some(i as int),
            None => first_key_index(profiles@, key@) is None,
        },
{
    let n = profiles.len();
    for i in 0..n
        invariant
            n == profiles@.len(),
            first_key_index(profiles@, key@) == first_key_index_from(profiles@, key@, i as int),
    {
        if profiles[i].key == *key {
            return Some(i);
        }
    }
    None
}

/// Invariant 1: all keys are pairwise distinct.
pub open spec fn keys_unique(profiles: Seq<Profile>) -> bool {
    forall|i: int, j: int| 0 <= i < j < profiles.len() ==> profiles[i].key@ != profiles[j].key@
}

pub open spec fn derive_known_at(profiles: Seq<Profile>, i: int) -> bool {
    match profiles[i].derive {
        Some(d) => has_key(profiles, d@),
        None => true,
    }
}

/// Invariant 2: every `derive` reference names a declared key.
pub open spec fn derives_known(profiles: Seq<Profile>) -> bool {
    forall|i: int| 0 <= i < profiles.len() ==> #[trigger] derive_known_at(profiles, i)
}

/// Invariant 3: every rule's derive chain ends within the rule count, so the
/// derive relation is acyclic.
pub open spec fn chains_end(profiles: Seq<Profile>) -> bool {
    forall|i: int| 0 <= i < profiles.len() ==> chain_ends(
        profiles,
        #[trigger] profiles[i].key@,
        (profiles.len() + 1) as nat,
    )
}

pub open spec fn patterns_valid_at(profiles: Seq<Profile>, i: int) -> bool {
    forall|j: int| 0 <= j < profiles[i].matches@.len() ==> regex_valid(
        #[trigger] profiles[i].matches@[j]@,
    )
}

/// Invariant 4: every pattern in every `matches` list compiles.
pub open spec fn patterns_valid(profiles: Seq<Profile>) -> bool {
    forall|i: int| 0 <= i < profiles.len() ==> #[trigger] patterns_valid_at(profiles, i)
}

/// All four construction-time invariants of a store document.
pub open spec fn acceptable(profiles: Seq<Profile>) -> bool {
    keys_unique(profiles) && derives_known(profiles) && chains_end(profiles) && patterns_valid(
        profiles,
    )
}

/// The rule's compiled patterns mirror its `matches` list one for one.
pub open spec fn patterns_compiled(p: Profile) -> bool {
    p.match_instances@.len() == p.matches@.len() && forall|j: int|
        0 <= j < p.matches@.len() ==> (#[trigger] p.match_instances@[j]).spec_pattern()
            == p.matches@[j]@
}

/// The two rules carry the same document fields; only `match_instances` may differ.
pub open spec fn same_document(a: Profile, b: Profile) -> bool {
    a.key == b.key && a.matches == b.matches && a.triggers == b.triggers && a.derive == b.derive
        && a.name == b.name && a.url == b.url && a.location == b.location && a.description
        == b.description && a.image == b.image && a.banner == b.banner && a.intro == b.intro
}

pub open spec fn same_documents(a: Seq<Profile>, b: Seq<Profile>) -> bool {
    a.len() == b.len() && forall|i: int| 0 <= i < a.len() ==> same_document(
        #[trigger] a[i],
        b[i],
    )
}

pub proof fn lemma_first_key_index_same(a: Seq<Profile>, b: Seq<Profile>, key: Seq<char>, start: int)
    requires
        same_documents(a, b),
        0 <= start,
    ensures
        first_key_index_from(a, key, start) == first_key_index_from(b, key, start),
    decreases a.len() - start,
{
    if start < a.len() && a[start].key@ != key {
        lemma_first_key_index_same(a, b, key, start + 1);
    }
}

pub proof fn lemma_chain_same(a: Seq<Profile>, b: Seq<Profile>, key: Seq<char>, fuel: nat)
    requires
        same_documents(a, b),
    ensures
        chain_ends(a, key, fuel) == chain_ends(b, key, fuel),
        chain_missing(a, key, fuel) == chain_missing(b, key, fuel),
    decreases fuel,
{
    if fuel > 0 {
        lemma_first_key_index_same(a, b, key, 0);
        match first_key_index(a, key) {
            Some(i) => {
                lemma_first_key_index_from(a, key, 0);
                match a[i].derive {
                    Some(d) => lemma_chain_same(a, b, d@, (fuel - 1) as nat),
                    None => {},
                }
            },
            None => {},
        }
    }
}

/// An immutable, validated snapshot of all rules plus global settings and the
/// account authorization. Any change is a whole-store replacement.
pub struct Config {
    pub auth_info: AuthInfo,
    pub property: Property,
    pub profiles: Vec<Profile>,
}

impl Config {
    /// The store invariant: established by `validate`, relied on by the
    /// matcher and the resolver.
    pub open spec fn valid(&self) -> bool {
        acceptable(self.profiles@) && forall|i: int|
            0 <= i < self.profiles@.len() ==> patterns_compiled(#[trigger] self.profiles@[i])
    }

    pub fn new(auth_info: AuthInfo, property: Property, profiles: Vec<Profile>) -> (r: Config)
        ensures
            r.auth_info == auth_info,
            r.property == property,
            r.profiles == profiles,
    {
        Config { auth_info, property, profiles }
    }

    pub fn auth_info(&self) -> (r: &AuthInfo)
        ensures
            r == self.auth_info,
    {
        &self.auth_info
    }

    pub fn profiles(&self) -> (r: &Vec<Profile>)
        ensures
            r == self.profiles,
    {
        &self.profiles
    }

    pub fn property(&self) -> (r: &Property)
        ensures
            r == self.property,
    {
        &self.property
    }
}

spec fn compiled_for(c: Seq<CompiledPattern>, p: Profile) -> bool {
    c.len() == p.matches@.len() && forall|j: int|
        0 <= j < c.len() ==> (#[trigger] c[j]).spec_pattern() == p.matches@[j]@
}

impl Config {
    /// Check the construction-time invariants in order — duplicate keys,
    /// dangling derive references, derive cycles, invalid patterns — and
    /// compile every pattern. On success the store satisfies `valid`; on
    /// failure it is left exactly as it was.
    pub fn validate(&mut self) -> (r: Result<(), ValidationError>)
        ensures
            r is Ok <==> acceptable(old(self).profiles@),
            r is Ok ==> final(self).valid(),
            r is Ok ==> final(self).auth_info == old(self).auth_info && final(self).property
                == old(self).property && same_documents(final(self).profiles@, old(self).profiles@),
            r is Err ==> *final(self) == *old(self),
            r matches Err(ValidationError::DuplicateKey { .. }) <==> !keys_unique(
                old(self).profiles@,
            ),
            r matches Err(ValidationError::UnknownDeriveKey { .. }) <==> (keys_unique(
                old(self).profiles@,
            ) && !derives_known(old(self).profiles@)),
            r matches Err(ValidationError::CycleDetected { .. }) <==> (keys_unique(
                old(self).profiles@,
            ) && derives_known(old(self).profiles@) && !chains_end(old(self).profiles@)),
            r matches Err(ValidationError::InvalidPattern { .. }) <==> (keys_unique(
                old(self).profiles@,
            ) && derives_known(old(self).profiles@) && chains_end(old(self).profiles@)
                && !patterns_valid(old(self).profiles@)),
    {
        let n = self.profiles.len();
        // 1. all keys pairwise distinct
        for i in 0..n
            invariant
                n == self.profiles@.len(),
                *self == *old(self),
                forall|a: int, b: int|
                    0 <= a < b < n && a < i ==> self.profiles@[a].key@ != self.profiles@[b].key@,
        {
            for j in (i + 1)..n
                invariant
                    n == self.profiles@.len(),
                    *self == *old(self),
                    i < n,
                    forall|a: int, b: int|
                        0 <= a < b < n && a < i ==> self.profiles@[a].key@ != self.profiles@[b].key@,
                    forall|b: int|
                        i < b < j ==> self.profiles@[i as int].key@ != self.profiles@[b].key@,
            {
                if self.profiles[i].key == self.profiles[j].key {
                    return Err(ValidationError::DuplicateKey {
                        key: self.profiles[j].key.clone(),
                    });
                }
            }
        }
        // 2. every derive names a declared key
        for i in 0..n
            invariant
                n == self.profiles@.len(),
                *self == *old(self),
                keys_unique(self.profiles@),
                forall|a: int| 0 <= a < i ==> #[trigger] derive_known_at(self.profiles@, a),
        {
            match &self.profiles[i].derive {
                Some(d) => {
                    if find_profile(&self.profiles, d).is_none() {
                        let missing = d.clone();
                        proof {
                            assert(!derive_known_at(self.profiles@, i as int));
                        }
                        return Err(ValidationError::UnknownDeriveKey {
                            profile: self.profiles[i].key.clone(),
                            missing,
                        });
                    }
                    proof {
                        assert(derive_known_at(self.profiles@, i as int));
                    }
                },
                None => {
                    proof {
                        assert(derive_known_at(self.profiles@, i as int));
                    }
                },
            }
        }
        // 3. every derive chain ends within the rule count
        for i in 0..n
            invariant
                n == self.profiles@.len(),
                *self == *old(self),
                keys_unique(self.profiles@),
                derives_known(self.profiles@),
                forall|a: int|
                    0 <= a < i ==> chain_ends(
                        self.profiles@,
                        #[trigger] self.profiles@[a].key@,
                        (n + 1) as nat,
                    ),
        {
            let mut current: String = self.profiles[i].key.clone();
            let mut remaining: usize = n;
            proof {
                lemma_first_key_index(self.profiles@, current@);
            }
            loop
                invariant
                    n == self.profiles@.len(),
                    *self == *old(self),
                    keys_unique(self.profiles@),
                    derives_known(self.profiles@),
                    i < n,
                    remaining <= n,
                    has_key(self.profiles@, current@),
                    chain_ends(self.profiles@, self.profiles@[i as int].key@, (n + 1) as nat)
                        == chain_ends(self.profiles@, current@, (remaining + 1) as nat),
                ensures
                    chain_ends(self.profiles@, self.profiles@[i as int].key@, (n + 1) as nat),
                decreases remaining,
            {
                match find_profile(&self.profiles, &current) {
                    None => {
                        // phase 2 guarantees every key reached here is declared
                        proof {
                            assert(false);
                        }
                        return Err(ValidationError::CycleDetected { key: current });
                    },
                    Some(pi) => {
                        proof {
                            lemma_first_key_index(self.profiles@, current@);
                        }
                        match &self.profiles[pi].derive {
                            None => {
                                break ;
                            },
                            Some(d) => {
                                proof {
                                    assert(derive_known_at(self.profiles@, pi as int));
                                }
                                if remaining == 0 {
                                    proof {
                                        assert(!chain_ends(self.profiles@, d@, 0));
                                    }
                                    return Err(ValidationError::CycleDetected {
                                        key: self.profiles[i].key.clone(),
                                    });
                                }
                                remaining = remaining - 1;
                                current = d.clone();
                            },
                        }
                    },
                }
            }
        }
        // 4. every pattern compiles; keep the compiled lists aside
        let mut all: Vec<Vec<CompiledPattern>> = Vec::new();
        for i in 0..n
            invariant
                n == self.profiles@.len(),
                *self == *old(self),
                keys_unique(self.profiles@),
                derives_known(self.profiles@),
                chains_end(self.profiles@),
                all@.len() == i,
                forall|a: int| 0 <= a < i ==> compiled_for((#[trigger] all@[a])@, self.profiles@[a]),
                forall|a: int| 0 <= a < i ==> #[trigger] patterns_valid_at(self.profiles@, a),
        {
            let m = self.profiles[i].matches.len();
            let mut compiled: Vec<CompiledPattern> = Vec::new();
            for j in 0..m
                invariant
                    n == self.profiles@.len(),
                    *self == *old(self),
                    keys_unique(self.profiles@),
                    derives_known(self.profiles@),
                    chains_end(self.profiles@),
                    i < n,
                    m == self.profiles@[i as int].matches@.len(),
                    all@.len() == i,
                    forall|a: int|
                        0 <= a < i ==> compiled_for((#[trigger] all@[a])@, self.profiles@[a]),
                    forall|a: int| 0 <= a < i ==> #[trigger] patterns_valid_at(self.profiles@, a),
                    compiled@.len() == j,
                    forall|b: int|
                        0 <= b < j ==> (#[trigger] compiled@[b]).spec_pattern()
                            == self.profiles@[i as int].matches@[b]@,
                    forall|b: int|
                        0 <= b < j ==> regex_valid(#[trigger] self.profiles@[i as int].matches@[b]@),
            {
                match CompiledPattern::new(self.profiles[i].matches[j].as_str()) {
                    Some(c) => {
                        compiled.push(c);
                    },
                    None => {
                        proof {
                            assert(!patterns_valid_at(self.profiles@, i as int));
                        }
                        return Err(ValidationError::InvalidPattern {
                            key: self.profiles[i].key.clone(),
                            pattern: self.profiles[i].matches[j].clone(),
                        });
                    },
                }
            }
            proof {
                assert(patterns_valid_at(self.profiles@, i as int));
            }
            all.push(compiled);
        }
        // install the compiled lists; document fields stay untouched
        let ghost orig = self.profiles@;
        let mut idx: usize = n;
        while idx > 0
            invariant
                n == self.profiles@.len(),
                orig == old(self).profiles@,
                orig.len() == n,
                all@.len() == idx,
                idx <= n,
                self.auth_info == old(self).auth_info,
                self.property == old(self).property,
                forall|a: int| 0 <= a < idx ==> self.profiles@[a] == orig[a],
                forall|a: int|
                    idx <= a < n ==> same_document(#[trigger] self.profiles@[a], orig[a]),
                forall|a: int| idx <= a < n ==> patterns_compiled(#[trigger] self.profiles@[a]),
                forall|a: int| 0 <= a < idx ==> compiled_for((#[trigger] all@[a])@, orig[a]),
                keys_unique(orig),
                derives_known(orig),
                chains_end(orig),
                patterns_valid(orig),
            decreases idx,
        {
            idx = idx - 1;
            let compiled = all.pop().unwrap();
            self.profiles[idx].match_instances = compiled;
        }
        proof {
            assert(same_documents(self.profiles@, orig));
            assert forall|a: int| 0 <= a < self.profiles@.len() implies #[trigger] derive_known_at(
                self.profiles@,
                a,
            ) by {
                assert(derive_known_at(orig, a));
                match orig[a].derive {
                    Some(d) => lemma_first_key_index_same(self.profiles@, orig, d@, 0),
                    None => {},
                }
            }
            assert forall|a: int| 0 <= a < self.profiles@.len() implies chain_ends(
                self.profiles@,
                #[trigger] self.profiles@[a].key@,
                (self.profiles@.len() + 1) as nat,
            ) by {
                lemma_chain_same(self.profiles@, orig, self.profiles@[a].key@, (orig.len() + 1) as nat);
            }
            assert forall|a: int| 0 <= a < self.profiles@.len() implies #[trigger] patterns_valid_at(
                self.profiles@,
                a,
            ) by {
                assert(patterns_valid_at(orig, a));
            }
        }
        Ok(())
    }
}

impl Profile {
    /// Walk this rule's derive chain and flatten it: for each attribute the
    /// first non-absent value in chain order wins. The walk is bounded by the
    /// store's rule count; a chain that cannot end within that bound is
    /// reported as a cycle, and a chain that reaches an undeclared key as an
    /// unknown key.
    pub fn resolve(&self, profiles: &Vec<Profile>) -> (r: Result<ResolvedProfile, ResolveError>)
        ensures
            r is Ok <==> chain_ends(profiles@, self.key@, (profiles@.len() + 1) as nat),
            r matches Err(ResolveError::UnknownKey { .. }) <==> chain_missing(
                profiles@,
                self.key@,
                (profiles@.len() + 1) as nat,
            ),
            r matches Err(ResolveError::CycleDetected { .. }) <==> (!chain_ends(
                profiles@,
                self.key@,
                (profiles@.len() + 1) as nat,
            ) && !chain_missing(profiles@, self.key@, (profiles@.len() + 1) as nat)),
            r matches Ok(res) ==> {
                &&& opt_view(res.name) == spec_resolve_attr(
                    profiles@,
                    self.key@,
                    Attribute::Name,
                    (profiles@.len() + 1) as nat,
                )
                &&& opt_view(res.url) == spec_resolve_attr(
                    profiles@,
                    self.key@,
                    Attribute::Url,
                    (profiles@.len() + 1) as nat,
                )
                &&& opt_view(res.location) == spec_resolve_attr(
                    profiles@,
                    self.key@,
                    Attribute::Location,
                    (profiles@.len() + 1) as nat,
                )
                &&& opt_view(res.description) == spec_resolve_attr(
                    profiles@,
                    self.key@,
                    Attribute::Description,
                    (profiles@.len() + 1) as nat,
                )
                &&& opt_view(res.image) == spec_resolve_attr(
                    profiles@,
                    self.key@,
                    Attribute::Image,
                    (profiles@.len() + 1) as nat,
                )
                &&& opt_view(res.banner) == spec_resolve_attr(
                    profiles@,
                    self.key@,
                    Attribute::Banner,
                    (profiles@.len() + 1) as nat,
                )
                &&& opt_view(res.intro) == spec_resolve_attr(
                    profiles@,
                    self.key@,
                    Attribute::Intro,
                    (profiles@.len() + 1) as nat,
                )
            },
    {
        let mut resolved = ResolvedProfile {
            name: None,
            url: None,
            location: None,
            description: None,
            image: None,
            banner: None,
            intro: None,
        };
        let mut current: String = self.key.clone();
        let mut remaining: usize = profiles.len();
        loop
            invariant
                remaining <= profiles@.len(),
                chain_ends(profiles@, self.key@, (profiles@.len() + 1) as nat) == chain_ends(
                    profiles@,
                    current@,
                    (remaining + 1) as nat,
                ),
                chain_missing(profiles@, self.key@, (profiles@.len() + 1) as nat) == chain_missing(
                    profiles@,
                    current@,
                    (remaining + 1) as nat,
                ),
                spec_resolve_attr(profiles@, self.key@, Attribute::Name, (profiles@.len() + 1) as nat)
                    == (match resolved.name {
                    Some(v) => Some(v@),
                    None => spec_resolve_attr(profiles@, current@, Attribute::Name, (remaining + 1) as nat),
                }),
                spec_resolve_attr(profiles@, self.key@, Attribute::Url, (profiles@.len() + 1) as nat)
                    == (match resolved.url {
                    Some(v) => Some(v@),
                    None => spec_resolve_attr(profiles@, current@, Attribute::Url, (remaining + 1) as nat),
                }),
                spec_resolve_attr(profiles@, self.key@, Attribute::Location, (profiles@.len() + 1) as nat)
                    == (match resolved.location {
                    Some(v) => Some(v@),
                    None => spec_resolve_attr(profiles@, current@, Attribute::Location, (remaining + 1) as nat),
                }),
                spec_resolve_attr(profiles@, self.key@, Attribute::Description, (profiles@.len() + 1) as nat)
                    == (match resolved.description {
                    Some(v) => Some(v@),
                    None => spec_resolve_attr(profiles@, current@, Attribute::Description, (remaining + 1) as nat),
                }),
                spec_resolve_attr(profiles@, self.key@, Attribute::Image, (profiles@.len() + 1) as nat)
                    == (match resolved.image {
                    Some(v) => Some(v@),
                    None => spec_resolve_attr(profiles@, current@, Attribute::Image, (remaining + 1) as nat),
                }),
                spec_resolve_attr(profiles@, self.key@, Attribute::Banner, (profiles@.len() + 1) as nat)
                    == (match resolved.banner {
                    Some(v) => Some(v@),
                    None => spec_resolve_attr(profiles@, current@, Attribute::Banner, (remaining + 1) as nat),
                }),
                spec_resolve_attr(profiles@, self.key@, Attribute::Intro, (profiles@.len() + 1) as nat)
                    == (match resolved.intro {
                    Some(v) => Some(v@),
                    None => spec_resolve_attr(profiles@, current@, Attribute::Intro, (remaining + 1) as nat),
                }),
            decreases remaining,
        {
            match find_profile(profiles, &current) {
                None => {
                    return Err(ResolveError::UnknownKey { key: current });
                },
                Some(i) => {
                    proof {
                        lemma_first_key_index(profiles@, current@);
                    }
                    let p = &profiles[i];
                    if resolved.name.is_none() {
                        resolved.name = clone_opt(&p.name);
                    }
                    if resolved.url.is_none() {
                        resolved.url = clone_opt(&p.url);
                    }
                    if resolved.location.is_none() {
                        resolved.location = clone_opt(&p.location);
                    }
                    if resolved.description.is_none() {
                        resolved.description = clone_opt(&p.description);
                    }
                    if resolved.image.is_none() {
                        resolved.image = clone_opt(&p.image);
                    }
                    if resolved.banner.is_none() {
                        resolved.banner = clone_opt(&p.banner);
                    }
                    if resolved.intro.is_none() {
                        resolved.intro = clone_opt(&p.intro);
                    }
                    match &p.derive {
                        None => {
                            return Ok(resolved);
                        },
                        Some(d) => {
                            if remaining == 0 {
                                proof {
                                    assert(!chain_ends(profiles@, d@, 0));
                                    assert(!chain_missing(profiles@, d@, 0));
                                }
                                return Err(ResolveError::CycleDetected { key: d.clone() });
                            }
                            remaining = remaining - 1;
                            current = d.clone();
                        },
                    }
                },
            }
        }
    }
}

/// What `Profile::create_sample` builds, spelled out field by field.
pub open spec fn is_sample_profile(p: Profile) -> bool {
    &&& p.key@ == "sample"@
    &&& p.matches@.len() == 1
    &&& p.matches@[0]@ == ".*change.*sample"@
    &&& p.triggers@.len() == 1
    &&& p.triggers@[0]@ == "sample"@
    &&& p.derive is None
    &&& opt_view(p.name) == Some("sample profile"@)
    &&& opt_view(p.url) == Some("example.com"@)
    &&& opt_view(p.location) == Some("sample location"@)
    &&& opt_view(p.description) == Some("this is sample profile."@)
    &&& opt_view(p.image) == Some("~/profile_image.png"@)
    &&& opt_view(p.banner) == Some("~/banner_image.png"@)
    &&& opt_view(p.intro) == Some("Hello, I'm a example profile!"@)
    &&& regex_valid(".*change.*sample"@) ==> (p.match_instances@.len() == 1
        && p.match_instances@[0].spec_pattern() == ".*change.*sample"@)
    &&& !regex_valid(".*change.*sample"@) ==> p.match_instances@.len() == 0
}

impl Profile {
    pub fn create_sample() -> (r: Profile)
        ensures
            is_sample_profile(r),
    {
        let mut matches: Vec<String> = Vec::new();
        matches.push(".*change.*sample".to_owned());
        let mut triggers: Vec<String> = Vec::new();
        triggers.push("sample".to_owned());
        let mut match_instances: Vec<CompiledPattern> = Vec::new();
        match CompiledPattern::new(".*change.*sample") {
            Some(c) => {
                match_instances.push(c);
            },
            None => {},
        }
        Profile {
            key: "sample".to_owned(),
            matches,
            triggers,
            derive: None,
            name: Some("sample profile".to_owned()),
            url: Some("example.com".to_owned()),
            location: Some("sample location".to_owned()),
            description: Some("this is sample profile.".to_owned()),
            image: Some("~/profile_image.png".to_owned()),
            banner: Some("~/banner_image.png".to_owned()),
            intro: Some("Hello, I'm a example profile!".to_owned()),
            match_instances,
        }
    }
}

impl Config {
    pub fn new_example(auth_info: AuthInfo) -> (r: Config)
        ensures
            r.auth_info == auth_info,
            !r.property.trigger_retweet,
            !r.property.trigger_quote,
            !r.property.trigger_reply,
            !r.property.trigger_direct_messages,
            r.profiles@.len() == 1,
            is_sample_profile(r.profiles@[0]),
    {
        let mut profiles: Vec<Profile> = Vec::new();
        profiles.push(Profile::create_sample());
        Config { auth_info, property: Property::create_sample(), profiles }
    }
}

/// On a store that satisfies the construction-time invariants, every rule's
/// derive chain ends within the rule count, so `Profile::resolve` returns `Ok`
/// for every rule of the store and each attribute of its result is the first
/// non-absent value found walking the chain in order (`Profile::resolve`'s
/// contract ties its result to `spec_resolve_attr`).
pub proof fn lemma_resolve_total_on_valid(profiles: Seq<Profile>, i: int)
    requires
        acceptable(profiles),
        0 <= i < profiles.len(),
    ensures
        chain_ends(profiles, profiles[i].key@, (profiles.len() + 1) as nat),
{
}

} // verus!
