//! The allow-list gate: which organizations and repositories the bot acts on,
//! and which app installation serves each organization.

use vstd::prelude::*;
use crate::text::push_char;

verus! {

/// The characters of `s` before its first `/`, or all of `s` when it has none.
pub open spec fn before_slash(s: Seq<char>) -> Seq<char>
    decreases s.len(),
{
    if s.len() == 0 || s[0] == '/' {
        Seq::empty()
    } else {
        seq![s[0]] + before_slash(s.drop_first())
    }
}

/// The characters of `s` after its first `/`, or nothing when it has none.
pub open spec fn after_slash(s: Seq<char>) -> Seq<char>
    decreases s.len(),
{
    if s.len() == 0 {
        Seq::empty()
    } else if s[0] == '/' {
        s.drop_first()
    } else {
        after_slash(s.drop_first())
    }
}

/// The organization part of an `org/repo` full name.
pub open spec fn org_of(full_name: Seq<char>) -> Seq<char> {
    before_slash(full_name)
}

/// The repository part of an `org/repo` full name; empty without a `/`.
pub open spec fn repo_of(full_name: Seq<char>) -> Seq<char> {
    before_slash(after_slash(full_name))
}

/// Whether some entry of `names` spells exactly `x`.
pub open spec fn lists(names: Seq<String>, x: Seq<char>) -> bool {
    exists|i: int| 0 <= i < names.len() && #[trigger] names[i]@ == x
}

/// The installation registered for `org` in `entries` (the first match), or 0.
pub open spec fn installation_in(entries: Seq<(String, i64)>, org: Seq<char>) -> i64
    decreases entries.len(),
{
    if entries.len() == 0 {
        0
    } else if entries[0].0@ == org {
        entries[0].1
    } else {
        installation_in(entries.drop_first(), org)
    }
}

/// The organizations and repositories that the bot serves.
pub struct AllowList {
    pub orgs: Vec<String>,
    pub repos: Vec<String>,
    pub installations: Vec<(String, i64)>,
}

impl AllowList {
    /// Whether the allow-list lets events about `repo` in `org` through: both are
    /// non-empty and listed, compared character by character.
    pub open spec fn admits(&self, org: Seq<char>, repo: Seq<char>) -> bool {
        &&& org.len() > 0
        &&& repo.len() > 0
        &&& lists(self.orgs@, org)
        &&& lists(self.repos@, repo)
    }

    /// The allow-list this bot is deployed with.
    pub fn standard() -> (r: AllowList)
        ensures
            r.orgs@.len() == 1,
            r.orgs@[0]@ == "flashsoft-eu"@,
            r.repos@.len() == 1,
            r.repos@[0]@ == "access-to-private-repos"@,
            r.installations@.len() == 1,
            r.installations@[0].0@ == "flashsoft-eu"@,
            r.installations@[0].1 == 40959841,
    {
        let orgs = vec![String::from_str("flashsoft-eu")];
        let repos = vec![String::from_str("access-to-private-repos")];
        let installations = vec![(String::from_str("flashsoft-eu"), 40959841i64)];
        AllowList { orgs, repos, installations }
    }

    /// The organization that the bot acts in: the first one listed.
    pub fn home_org(&self) -> (r: &String)
        requires
            self.orgs@.len() > 0,
        ensures
            r == self.orgs@[0],
    {
        &self.orgs[0]
    }
}

fn listed(names: &Vec<String>, x: &str) -> (r: bool)
    ensures
        r == lists(names@, x@),
{
    let target = String::from_str(x);
    let mut i: usize = 0;
    while i < names.len()
        invariant
            0 <= i <= names@.len(),
            target@ == x@,
            forall|j: int| 0 <= j < i ==> #[trigger] names@[j]@ != x@,
        decreases names@.len() - i,
    {
        if names[i] == target {
            return true;
        }
        i = i + 1;
    }
    false
}

/// The allow-list check: true exactly when `org` and `repo` are both non-empty and both
/// appear, with the same characters, in the configured lists.
pub fn is_allowed(gate: &AllowList, org: &str, repo: &str) -> (r: bool)
    ensures
        r == gate.admits(org@, repo@),
{
    if org.unicode_len() == 0 || repo.unicode_len() == 0 {
        return false;
    }
    listed(&gate.orgs, org) && listed(&gate.repos, repo)
}

/// The organization part of an `org/repo` full name: what comes before the
/// first `/`, or the whole name when there is none.
pub fn get_org_from_fn(full_name: String) -> (r: String)
    ensures
        r@ == org_of(full_name@),
{
    let s = full_name.as_str();
    let n = s.unicode_len();
    let mut out = String::new();
    let mut i: usize = 0;
    assert(s@.subrange(0, n as int) =~= s@);
    assert(out@ + before_slash(s@.subrange(0, n as int)) =~= before_slash(s@));
    while i < n && s.get_char(i) != '/'
        invariant
            n == s@.len(),
            0 <= i <= n,
            before_slash(s@) == out@ + before_slash(s@.subrange(i as int, n as int)),
        decreases n - i,
    {
        let c = s.get_char(i);
        proof {
            assert(s@.subrange(i as int, n as int).drop_first() =~= s@.subrange(i + 1, n as int));
        }
        push_char(&mut out, c);
        i = i + 1;
        proof {
            assert(before_slash(s@) =~= out@ + before_slash(s@.subrange(i as int, n as int)));
        }
    }
    proof {
        assert(s@.subrange(0, n as int) =~= s@);
    }
    out
}

proof fn lemma_after_slash_suffix(s: Seq<char>, i: int)
    requires
        0 <= i <= s.len(),
        forall|j: int| 0 <= j < i ==> s[j] != '/',
    ensures
        after_slash(s) == after_slash(s.subrange(i, s.len() as int)),
    decreases i,
{
    if i > 0 {
        assert(s.drop_first().subrange(i - 1, s.drop_first().len() as int) =~= s.subrange(i, s.len() as int));
        lemma_after_slash_suffix(s.drop_first(), i - 1);
    } else {
        assert(s.subrange(0, s.len() as int) =~= s);
    }
}

/// The repository part of an `org/repo` full name: what lies between the first
/// `/` and the next one (or the end); empty when the name has no `/`.
pub fn get_repo_from_fn(full_name: String) -> (r: String)
    ensures
        r@ == repo_of(full_name@),
{
    let s = full_name.as_str();
    let n = s.unicode_len();
    let mut i: usize = 0;
    while i < n && s.get_char(i) != '/'
        invariant
            n == s@.len(),
            0 <= i <= n,
            forall|j: int| 0 <= j < i ==> s@[j] != '/',
        decreases n - i,
    {
        i = i + 1;
    }
    proof {
        lemma_after_slash_suffix(s@, i as int);
    }
    if i == n {
        return String::new();
    }
    let rest = s.substring_char(i + 1, n);
    proof {
        assert(s@.subrange(i as int, n as int).drop_first() =~= rest@);
    }
    get_org_from_fn(String::from_str(rest))
}

/// The allow-list check applied to a repository's `org/repo` full name.
pub fn check_repo_and_org_allowed(gate: &AllowList, full_name: &str) -> (r: bool)
    ensures
        r == gate.admits(org_of(full_name@), repo_of(full_name@)),
{
    let org = get_org_from_fn(String::from_str(full_name));
    let repo = get_repo_from_fn(String::from_str(full_name));
    is_allowed(gate, org.as_str(), repo.as_str())
}

/// The installation that serves `org`, or 0 when none is registered.
pub fn installation_for(gate: &AllowList, org: &str) -> (r: i64)
    ensures
        r == installation_in(gate.installations@, org@),
{
    let target = String::from_str(org);
    let mut i: usize = 0;
    assert(gate.installations@.subrange(0, gate.installations@.len() as int) =~= gate.installations@);
    while i < gate.installations.len()
        invariant
            0 <= i <= gate.installations@.len(),
            target@ == org@,
            installation_in(gate.installations@, org@) == installation_in(
                gate.installations@.subrange(i as int, gate.installations@.len() as int),
                org@,
            ),
        decreases gate.installations@.len() - i,
    {
        let ghost rest = gate.installations@.subrange(i as int, gate.installations@.len() as int);
        proof {
            assert(rest.drop_first() =~= gate.installations@.subrange(i + 1, gate.installations@.len() as int));
        }
        if gate.installations[i].0 == target {
            return gate.installations[i].1;
        }
        i = i + 1;
    }
    0
}

/// The allow-list admits a pair only when both names are non-empty and each is
/// listed exactly; with the deployed lists that is the single pair
/// `flashsoft-eu` / `access-to-private-repos`.
pub proof fn lemma_gate_exact(gate: AllowList, org: Seq<char>, repo: Seq<char>)
    ensures
        gate.admits(org, repo) ==> org.len() > 0 && repo.len() > 0 && lists(gate.orgs@, org)
            && lists(gate.repos@, repo),
        org.len() == 0 || repo.len() == 0 ==> !gate.admits(org, repo),
        gate.orgs@ == seq![gate.orgs@[0]] && gate.repos@ == seq![gate.repos@[0]]
            ==> (gate.admits(org, repo) <==> org.len() > 0 && repo.len() > 0
            && org == gate.orgs@[0]@ && repo == gate.repos@[0]@),
{
    if gate.orgs@ == seq![gate.orgs@[0]] && gate.repos@ == seq![gate.repos@[0]] {
        if org == gate.orgs@[0]@ && repo == gate.repos@[0]@ {
            assert(gate.orgs@[0]@ == org);
            assert(gate.repos@[0]@ == repo);
        }
    }
}

} // verus!
