//! The configured accounts: a name for each Apify account, with the identity
//! its token resolved to, kept in the order of their names.

use vstd::prelude::*;
use crate::text::{lex_lt, lemma_lex_irreflexive, lemma_lex_total, lemma_lex_transitive, str_lt};

verus! {

/// What is remembered of an account besides its token.
#[derive(Debug)]
pub struct AccountConfig {
    /// The user name (or e-mail, name, id) that the token belongs to.
    pub identity: String,
    /// The Apify user id that the token belongs to.
    pub user_id: String,
}

/// The content of an [`AccountConfig`].
pub struct AccountV {
    pub identity: Seq<char>,
    pub user_id: Seq<char>,
}

impl View for AccountConfig {
    type V = AccountV;

    open spec fn view(&self) -> AccountV {
        AccountV { identity: self.identity@, user_id: self.user_id@ }
    }
}

impl AccountConfig {
    /// A copy of this account's record.
    pub fn duplicate(&self) -> (r: AccountConfig)
        ensures
            r@ == self@,
    {
        AccountConfig { identity: self.identity.clone(), user_id: self.user_id.clone() }
    }
}

/// The views of named accounts.
pub open spec fn entries_view(s: Seq<(String, AccountConfig)>) -> Seq<(Seq<char>, AccountV)> {
    s.map_values(|e: (String, AccountConfig)| (e.0@, e.1@))
}

/// The names are in strictly increasing order (hence each occurs once).
pub open spec fn sorted_names(s: Seq<(Seq<char>, AccountV)>) -> bool {
    forall|i: int, j: int| 0 <= i < j < s.len() ==> lex_lt(#[trigger] s[i].0, #[trigger] s[j].0)
}

/// The account stored under `name`, if any.
pub open spec fn lookup(s: Seq<(Seq<char>, AccountV)>, name: Seq<char>) -> Option<AccountV>
    decreases s.len(),
{
    if s.len() == 0 {
        None
    } else if s[0].0 == name {
        Some(s[0].1)
    } else {
        lookup(s.subrange(1, s.len() as int), name)
    }
}

/// In a sorted sequence, the account stored under a name is the one at its index.
pub proof fn lemma_lookup_at(s: Seq<(Seq<char>, AccountV)>, name: Seq<char>, i: int)
    requires
        sorted_names(s),
        0 <= i < s.len(),
        s[i].0 == name,
    ensures
        lookup(s, name) == Some(s[i].1),
    decreases i,
{
    if i > 0 {
        assert(lex_lt(s[0].0, s[i].0));
        lemma_lex_irreflexive(name);
        let t = s.subrange(1, s.len() as int);
        assert(t[i - 1] == s[i]);
        assert forall|a: int, b: int| 0 <= a < b < t.len() implies lex_lt(
            #[trigger] t[a].0,
            #[trigger] t[b].0,
        ) by {
            assert(t[a] == s[a + 1] && t[b] == s[b + 1]);
        }
        lemma_lookup_at(t, name, i - 1);
    }
}

/// A name that no entry has is not found.
pub proof fn lemma_lookup_absent(s: Seq<(Seq<char>, AccountV)>, name: Seq<char>)
    requires
        forall|i: int| 0 <= i < s.len() ==> (#[trigger] s[i]).0 != name,
    ensures
        lookup(s, name) is None,
    decreases s.len(),
{
    if s.len() > 0 {
        let t = s.subrange(1, s.len() as int);
        assert forall|i: int| 0 <= i < t.len() implies (#[trigger] t[i]).0 != name by {
            assert(t[i] == s[i + 1]);
        }
        lemma_lookup_absent(t, name);
    }
}

/// What `lookup` finds is an entry of that name, and it finds one whenever
/// such an entry exists.
pub proof fn lemma_lookup_entry(s: Seq<(Seq<char>, AccountV)>, name: Seq<char>)
    ensures
        lookup(s, name) matches Some(a) ==> exists|i: int| 0 <= i < s.len() && #[trigger] s[i] == (name, a),
        (exists|i: int| 0 <= i < s.len() && (#[trigger] s[i]).0 == name) ==> lookup(s, name) is Some,
    decreases s.len(),
{
    if s.len() > 0 {
        let t = s.subrange(1, s.len() as int);
        lemma_lookup_entry(t, name);
        if s[0].0 != name {
            if lookup(s, name) is Some {
                let a = lookup(s, name)->0;
                let i = choose|i: int| 0 <= i < t.len() && #[trigger] t[i] == (name, a);
                assert(s[i + 1] == (name, a));
            }
            if exists|i: int| 0 <= i < s.len() && (#[trigger] s[i]).0 == name {
                let i = choose|i: int| 0 <= i < s.len() && (#[trigger] s[i]).0 == name;
                assert(t[i - 1] == s[i]);
            }
        } else {
            assert(s[0] == (name, s[0].1));
        }
    }
}

/// The configured accounts, ordered by name.
#[derive(Debug)]
pub struct Config {
    accounts: Vec<(String, AccountConfig)>,
}

impl View for Config {
    type V = Seq<(Seq<char>, AccountV)>;

    closed spec fn view(&self) -> Seq<(Seq<char>, AccountV)> {
        entries_view(self.accounts@)
    }
}

impl Config {
    #[verifier::type_invariant]
    spec fn names_in_order(self) -> bool {
        sorted_names(entries_view(self.accounts@))
    }

    /// No account configured.
    pub fn new() -> (r: Config)
        ensures
            r@.len() == 0,
    {
        let r = Config { accounts: Vec::new() };
        assert(r@ =~= Seq::empty());
        r
    }

    /// The number of configured accounts.
    pub fn len(&self) -> (r: usize)
        ensures
            r == self@.len(),
    {
        self.accounts.len()
    }

    /// No account is configured.
    pub fn is_empty(&self) -> (r: bool)
        ensures
            r == (self@.len() == 0),
    {
        self.accounts.len() == 0
    }

    /// The accounts in the order of their names.
    pub fn sorted(&self) -> (r: &Vec<(String, AccountConfig)>)
        ensures
            entries_view(r@) == self@,
            sorted_names(self@),
    {
        proof {
            use_type_invariant(self);
        }
        &self.accounts
    }

    /// The account configured under `name`, with the name as stored.
    pub fn find(&self, name: &str) -> (r: Option<(&String, &AccountConfig)>)
        ensures
            match r {
                Some((n, a)) => n@ == name@ && lookup(self@, name@) == Some(a@),
                None => lookup(self@, name@) is None,
            },
    {
        proof {
            use_type_invariant(self);
        }
        let key = String::from_str(name);
        let mut i: usize = 0;
        while i < self.accounts.len()
            invariant
                i <= self@.len(),
                self@ == entries_view(self.accounts@),
                sorted_names(self@),
                key@ == name@,
                forall|k: int| 0 <= k < i ==> (#[trigger] self@[k]).0 != name@,
            decreases self.accounts.len() - i,
        {
            if self.accounts[i].0 == key {
                proof {
                    lemma_lookup_at(self@, name@, i as int);
                }
                return Some((&self.accounts[i].0, &self.accounts[i].1));
            }
            i = i + 1;
        }
        proof {
            lemma_lookup_absent(self@, name@);
        }
        None
    }

    /// Adds the account `name`, or replaces what is stored under it; every
    /// other account stays as it was.
    pub fn insert(&mut self, name: &str, account: AccountConfig)
        ensures
            lookup(final(self)@, name@) == Some(account@),
            forall|k: Seq<char>| k != name@ ==> lookup(final(self)@, k) == lookup(old(self)@, k),
            sorted_names(final(self)@),
    {
        proof {
            use_type_invariant(&*self);
        }
        let ghost s = self@;
        let mut v: Vec<(String, AccountConfig)> = Vec::new();
        std::mem::swap(&mut v, &mut self.accounts);
        assert(entries_view(v@) == s);
        let mut p: usize = 0;
        while p < v.len() && str_lt(v[p].0.as_str(), name)
            invariant
                p <= v@.len(),
                entries_view(v@) == s,
                forall|k: int| 0 <= k < p ==> lex_lt((#[trigger] s[k]).0, name@),
            decreases v.len() - p,
        {
            p = p + 1;
        }
        let entry = (String::from_str(name), account);
        let ghost ev = (name@, account@);
        if p < v.len() && !str_lt(name, v[p].0.as_str()) {
            proof {
                lemma_lex_total(s[p as int].0, name@);
            }
            v.set(p, entry);
            let ghost t = s.update(p as int, ev);
            assert(entries_view(v@) =~= t);
            proof {
                assert(s[p as int].0 == name@);
                self.lemma_replace_keeps(s, p as int, ev);
            }
            self.accounts = v;
        } else {
            proof {
                if p < s.len() {
                    lemma_lex_total(s[p as int].0, name@);
                }
            }
            v.insert(p, entry);
            let ghost t = s.insert(p as int, ev);
            assert(entries_view(v@) =~= t);
            proof {
                self.lemma_insert_keeps(s, p as int, ev);
            }
            self.accounts = v;
        }
    }

    /// Removes the account `name`; tells whether it was configured. Every
    /// other account stays as it was.
    pub fn remove(&mut self, name: &str) -> (r: bool)
        ensures
            r == (lookup(old(self)@, name@) is Some),
            lookup(final(self)@, name@) is None,
            forall|k: Seq<char>| k != name@ ==> lookup(final(self)@, k) == lookup(old(self)@, k),
            sorted_names(final(self)@),
    {
        proof {
            use_type_invariant(&*self);
        }
        let ghost s = self@;
        let key = String::from_str(name);
        let mut i: usize = 0;
        while i < self.accounts.len()
            invariant
                i <= s.len(),
                s == self@,
                s == old(self)@,
                s == entries_view(self.accounts@),
                sorted_names(s),
                key@ == name@,
                forall|k: int| 0 <= k < i ==> (#[trigger] s[k]).0 != name@,
            decreases self.accounts.len() - i,
        {
            if self.accounts[i].0 == key {
                let mut v: Vec<(String, AccountConfig)> = Vec::new();
                std::mem::swap(&mut v, &mut self.accounts);
                let _ = v.remove(i);
                let ghost t = s.remove(i as int);
                assert(entries_view(v@) =~= t);
                proof {
                    lemma_lookup_at(s, name@, i as int);
                    self.lemma_remove_keeps(s, i as int);
                }
                self.accounts = v;
                return true;
            }
            i = i + 1;
        }
        proof {
            lemma_lookup_absent(s, name@);
        }
        false
    }

    proof fn lemma_remove_keeps(&self, s: Seq<(Seq<char>, AccountV)>, p: int)
        requires
            sorted_names(s),
            0 <= p < s.len(),
        ensures
            sorted_names(s.remove(p)),
            lookup(s.remove(p), s[p].0) is None,
            forall|k: Seq<char>| k != s[p].0 ==> lookup(s.remove(p), k) == lookup(s, k),
    {
        let t = s.remove(p);
        assert forall|i: int, j: int| 0 <= i < j < t.len() implies lex_lt(
            #[trigger] t[i].0,
            #[trigger] t[j].0,
        ) by {
            let (a, b) = (if i < p { i } else { i + 1 }, if j < p { j } else { j + 1 });
            assert(t[i] == s[a] && t[j] == s[b]);
        }
        assert forall|i: int| 0 <= i < t.len() implies (#[trigger] t[i]).0 != s[p].0 by {
            if i < p {
                assert(t[i] == s[i]);
            } else {
                assert(t[i] == s[i + 1]);
                lemma_lex_irreflexive(s[p].0);
            }
            lemma_lex_irreflexive(s[p].0);
        }
        lemma_lookup_absent(t, s[p].0);
        assert forall|k: Seq<char>| k != s[p].0 implies lookup(t, k) == lookup(s, k) by {
            if exists|i: int| 0 <= i < s.len() && s[i].0 == k {
                let i = choose|i: int| 0 <= i < s.len() && s[i].0 == k;
                lemma_lookup_at(s, k, i);
                if i < p {
                    assert(t[i] == s[i]);
                    lemma_lookup_at(t, k, i);
                } else {
                    assert(t[i - 1] == s[i]);
                    lemma_lookup_at(t, k, i - 1);
                }
            } else {
                lemma_lookup_absent(s, k);
                assert forall|i: int| 0 <= i < t.len() implies (#[trigger] t[i]).0 != k by {
                    if i < p {
                        assert(t[i] == s[i]);
                    } else {
                        assert(t[i] == s[i + 1]);
                    }
                }
                lemma_lookup_absent(t, k);
            }
        }
    }

    proof fn lemma_replace_keeps(&self, s: Seq<(Seq<char>, AccountV)>, p: int, ev: (Seq<char>, AccountV))
        requires
            sorted_names(s),
            0 <= p < s.len(),
            s[p].0 == ev.0,
        ensures
            sorted_names(s.update(p, ev)),
            lookup(s.update(p, ev), ev.0) == Some(ev.1),
            forall|k: Seq<char>| k != ev.0 ==> lookup(s.update(p, ev), k) == lookup(s, k),
    {
        let t = s.update(p, ev);
        assert forall|i: int, j: int| 0 <= i < j < t.len() implies lex_lt(
            #[trigger] t[i].0,
            #[trigger] t[j].0,
        ) by {
            assert(t[i].0 == s[i].0 && t[j].0 == s[j].0);
        }
        lemma_lookup_at(t, ev.0, p);
        assert forall|k: Seq<char>| k != ev.0 implies lookup(t, k) == lookup(s, k) by {
            if exists|i: int| 0 <= i < s.len() && s[i].0 == k {
                let i = choose|i: int| 0 <= i < s.len() && s[i].0 == k;
                lemma_lookup_at(s, k, i);
                lemma_lookup_at(t, k, i);
            } else {
                lemma_lookup_absent(s, k);
                assert forall|i: int| 0 <= i < t.len() implies (#[trigger] t[i]).0 != k by {
                    if i != p {
                        assert(t[i] == s[i]);
                    }
                }
                lemma_lookup_absent(t, k);
            }
        }
    }

    proof fn lemma_insert_keeps(&self, s: Seq<(Seq<char>, AccountV)>, p: int, ev: (Seq<char>, AccountV))
        requires
            sorted_names(s),
            0 <= p <= s.len(),
            forall|k: int| 0 <= k < p ==> lex_lt((#[trigger] s[k]).0, ev.0),
            p < s.len() ==> lex_lt(ev.0, s[p].0),
        ensures
            sorted_names(s.insert(p, ev)),
            lookup(s.insert(p, ev), ev.0) == Some(ev.1),
            forall|k: Seq<char>| k != ev.0 ==> lookup(s.insert(p, ev), k) == lookup(s, k),
    {
        let t = s.insert(p, ev);
        assert forall|i: int| p < i < t.len() implies lex_lt(ev.0, #[trigger] t[i].0) by {
            assert(t[i] == s[i - 1]);
            if i - 1 > p {
                lemma_lex_transitive(ev.0, s[p].0, s[i - 1].0);
            }
        }
        assert forall|i: int, j: int| 0 <= i < j < t.len() implies lex_lt(
            #[trigger] t[i].0,
            #[trigger] t[j].0,
        ) by {
            if j < p {
                assert(t[i] == s[i] && t[j] == s[j]);
            } else if j == p {
                assert(t[i] == s[i]);
            } else if i == p {
            } else if i < p {
                assert(t[i] == s[i] && t[j] == s[j - 1]);
                lemma_lex_transitive(s[i].0, ev.0, t[j].0);
            } else {
                assert(t[i] == s[i - 1] && t[j] == s[j - 1]);
            }
        }
        lemma_lookup_at(t, ev.0, p);
        assert forall|k: Seq<char>| k != ev.0 implies lookup(t, k) == lookup(s, k) by {
            if exists|i: int| 0 <= i < s.len() && s[i].0 == k {
                let i = choose|i: int| 0 <= i < s.len() && s[i].0 == k;
                lemma_lookup_at(s, k, i);
                if i < p {
                    assert(t[i] == s[i]);
                    lemma_lookup_at(t, k, i);
                } else {
                    assert(t[i + 1] == s[i]);
                    lemma_lookup_at(t, k, i + 1);
                }
            } else {
                lemma_lookup_absent(s, k);
                assert forall|i: int| 0 <= i < t.len() implies (#[trigger] t[i]).0 != k by {
                    if i < p {
                        assert(t[i] == s[i]);
                    } else if i > p {
                        assert(t[i] == s[i - 1]);
                    }
                }
                lemma_lookup_absent(t, k);
            }
        }
    }
}

} // verus!
