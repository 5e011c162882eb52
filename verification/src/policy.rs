use vstd::prelude::*;
use crate::tags::{Tags, TagsView};

verus! {

/// The set of identity names denoted by a sequence of identity strings.
pub open spec fn names_of(s: Seq<String>) -> Set<Seq<char>> {
    Set::new(|n: Seq<char>| exists|i: int| 0 <= i < s.len() && #[trigger] s[i]@ == n)
}

/// No two entries of the sequence denote the same identity.
pub open spec fn distinct_names(s: Seq<String>) -> bool {
    forall|i: int, j: int| 0 <= i < j < s.len() ==> s[i]@ != s[j]@
}

/// The gateway's policy store: two blanket flags and the allowlist of target
/// identities approved to receive forwarded calls.
///
/// Writes to this state are privileged: the host environment admits the
/// administrative entry points below only for the gateway's own controlling
/// identity, and no other code path mutates the store.
pub struct NearApps {
    pub any_contracts: bool,
    pub any_tags: bool,
    pub approved_contracts: Vec<String>,
}

impl NearApps {
    /// The allowlist entries denote pairwise-distinct identities, so the
    /// vector faithfully represents a set.
    pub open spec fn wf(self) -> bool {
        distinct_names(self.approved_contracts@)
    }

    /// The allowlist, as the set of approved identity names.
    pub open spec fn approved(self) -> Set<Seq<char>> {
        names_of(self.approved_contracts@)
    }

    /// The target policy: a target passes when blanket target permission is
    /// on, or the target is approved.
    pub open spec fn target_permitted(self, name: Seq<char>) -> bool {
        self.any_contracts || self.approved().contains(name)
    }

    /// The tag policy: a request's tags pass when blanket tag permission is
    /// on, or tags are present.
    pub open spec fn tags_permitted(self, tags: Option<TagsView>) -> bool {
        self.any_tags || tags is Some
    }

    fn contains_name(&self, name: &String) -> (r: bool)
        ensures
            r == self.approved().contains(name@),
    {
        let n = self.approved_contracts.len();
        let mut i: usize = 0;
        while i < n
            invariant
                n == self.approved_contracts@.len(),
                i <= n,
                forall|k: int| 0 <= k < i ==> self.approved_contracts@[k]@ != name@,
            decreases n - i,
        {
            if self.approved_contracts[i].eq(name) {
                return true;
            }
            i += 1;
        }
        false
    }

    /// Decides whether a forwarded call to the named target is permitted
    /// under the current policy. A negative answer is not an error: the
    /// coordinator treats such a target as nothing to do.
    pub fn verify_contract(&self, contract_name: &String) -> (r: bool)
        ensures
            r == self.target_permitted(contract_name@),
    {
        match self.any_contracts {
            true => true,
            false => self.contains_name(contract_name),
        }
    }

    /// Decides whether a request's tags satisfy the current tag policy: only
    /// presence is ever checked, never content.
    pub fn verify_tags(&self, tags: &Option<Tags>) -> (r: bool)
        ensures
            r == self.tags_permitted(crate::tags::opt_tags_view(*tags)),
    {
        if self.any_tags {
            true
        } else {
            tags.is_some()
        }
    }

    /// Approves a target. Inserting an already-approved target is a no-op,
    /// not an error. Privileged: the host admits only the gateway's own
    /// identity here.
    pub fn add_contract(&mut self, contract_name: String)
        requires
            old(self).wf(),
        ensures
            final(self).wf(),
            final(self).approved() == old(self).approved().insert(contract_name@),
            final(self).any_contracts == old(self).any_contracts,
            final(self).any_tags == old(self).any_tags,
    {
        if !self.contains_name(&contract_name) {
            let ghost s = self.approved_contracts@;
            self.approved_contracts.push(contract_name);
            proof {
                lemma_names_of_push(s, contract_name);
            }
        } else {
            proof {
                assert(old(self).approved().insert(contract_name@) =~= old(self).approved());
            }
        }
    }

    /// Withdraws approval from a target. Removing an absent target is a
    /// no-op, not an error. Privileged: the host admits only the gateway's
    /// own identity here.
    pub fn remove_contract(&mut self, contract_name: String)
        requires
            old(self).wf(),
        ensures
            final(self).wf(),
            final(self).approved() == old(self).approved().remove(contract_name@),
            final(self).any_contracts == old(self).any_contracts,
            final(self).any_tags == old(self).any_tags,
    {
        let n = self.approved_contracts.len();
        let mut i: usize = 0;
        while i < n
            invariant
                *self == *old(self),
                old(self).wf(),
                n == self.approved_contracts@.len(),
                i <= n,
                forall|k: int| 0 <= k < i ==> self.approved_contracts@[k]@ != contract_name@,
            decreases n - i,
        {
            if self.approved_contracts[i].eq(&contract_name) {
                let ghost s = self.approved_contracts@;
                self.approved_contracts.remove(i);
                proof {
                    lemma_names_of_remove(s, i as int);
                }
                return;
            }
            i += 1;
        }
        proof {
            assert(old(self).approved().remove(contract_name@) =~= old(self).approved());
        }
    }

    /// Sets the blanket target-permission flag. Privileged.
    pub fn any_contracts_allowed(&mut self, any: bool)
        ensures
            final(self).any_contracts == any,
            final(self).any_tags == old(self).any_tags,
            final(self).approved_contracts == old(self).approved_contracts,
    {
        self.any_contracts = any;
    }

    /// Sets the blanket tag-permission flag. Privileged.
    pub fn any_tags_allowed(&mut self, any: bool)
        ensures
            final(self).any_tags == any,
            final(self).any_contracts == old(self).any_contracts,
            final(self).approved_contracts == old(self).approved_contracts,
    {
        self.any_tags = any;
    }
}

impl Default for NearApps {
    /// A fresh policy store: both blanket flags off, no target approved.
    fn default() -> (r: Self)
        ensures
            r.wf(),
            !r.any_contracts,
            !r.any_tags,
            r.approved() == Set::<Seq<char>>::empty(),
    {
        let r = NearApps { any_contracts: false, any_tags: false, approved_contracts: Vec::new() };
        proof {
            assert(r.approved() =~= Set::<Seq<char>>::empty());
        }
        r
    }
}

/// Appending one identity string adds exactly its name to the denoted set,
/// and keeps the entries distinct when the name was not there before.
proof fn lemma_names_of_push(s: Seq<String>, x: String)
    ensures
        names_of(s.push(x)) == names_of(s).insert(x@),
        distinct_names(s) && !names_of(s).contains(x@) ==> distinct_names(s.push(x)),
{
    assert forall|n: Seq<char>| names_of(s.push(x)).contains(n) implies names_of(s).insert(
        x@,
    ).contains(n) by {
        let i = choose|i: int| 0 <= i < s.push(x).len() && #[trigger] s.push(x)[i]@ == n;
        if i < s.len() {
            assert(s[i]@ == n);
        }
    }
    assert forall|n: Seq<char>| names_of(s).insert(x@).contains(n) implies names_of(
        s.push(x),
    ).contains(n) by {
        if n == x@ {
            assert(s.push(x)[s.len() as int]@ == n);
        } else {
            let i = choose|i: int| 0 <= i < s.len() && #[trigger] s[i]@ == n;
            assert(s.push(x)[i]@ == n);
        }
    }
    assert(names_of(s.push(x)) =~= names_of(s).insert(x@));
    if distinct_names(s) && !names_of(s).contains(x@) {
        assert forall|i: int, j: int| 0 <= i < j < s.push(x).len() implies s.push(x)[i]@ != s.push(
            x,
        )[j]@ by {
            if j == s.len() {
                assert(s.push(x)[i]@ == s[i]@);
                assert(!names_of(s).contains(s[i]@) ==> false);
            }
        }
    }
}

/// Removing the entry at a position removes exactly its name from the
/// denoted set, provided the entries are distinct; distinctness is kept.
proof fn lemma_names_of_remove(s: Seq<String>, k: int)
    requires
        0 <= k < s.len(),
        distinct_names(s),
    ensures
        names_of(s.remove(k)) == names_of(s).remove(s[k]@),
        distinct_names(s.remove(k)),
{
    s.remove_ensures(k);
    let t = s.remove(k);
    assert forall|n: Seq<char>| names_of(t).contains(n) implies names_of(s).remove(
        s[k]@,
    ).contains(n) by {
        let i = choose|i: int| 0 <= i < t.len() && #[trigger] t[i]@ == n;
        if i < k {
            assert(s[i]@ == n);
            assert(s[i]@ != s[k]@);
        } else {
            assert(s[i + 1]@ == n);
            assert(s[i + 1]@ != s[k]@);
        }
    }
    assert forall|n: Seq<char>| names_of(s).remove(s[k]@).contains(n) implies names_of(t).contains(
        n,
    ) by {
        let j = choose|j: int| 0 <= j < s.len() && #[trigger] s[j]@ == n;
        if j < k {
            assert(t[j]@ == n);
        } else {
            assert(j != k);
            assert(t[j - 1]@ == n);
        }
    }
    assert(names_of(t) =~= names_of(s).remove(s[k]@));
    assert forall|i: int, j: int| 0 <= i < j < t.len() implies t[i]@ != t[j]@ by {
        if j < k {
        } else if i < k {
            assert(t[i]@ == s[i]@ && t[j]@ == s[j + 1]@);
        } else {
            assert(t[i]@ == s[i + 1]@ && t[j]@ == s[j + 1]@);
        }
    }
}

/// With blanket target permission on, every target passes the target policy,
/// whatever the allowlist holds.
pub proof fn lemma_any_target_permits_all(gw: NearApps, name: Seq<char>)
    requires
        gw.any_contracts,
    ensures
        gw.target_permitted(name),
{
}

/// Approving a target twice leaves the allowlist exactly as approving it
/// once does.
pub proof fn lemma_add_contract_idempotent(approved: Set<Seq<char>>, name: Seq<char>)
    ensures
        approved.insert(name).insert(name) == approved.insert(name),
{
    assert(approved.insert(name).insert(name) =~= approved.insert(name));
}

/// Withdrawing approval from a target that is not approved leaves the
/// allowlist unchanged.
pub proof fn lemma_remove_contract_absent(approved: Set<Seq<char>>, name: Seq<char>)
    requires
        !approved.contains(name),
    ensures
        approved.remove(name) == approved,
{
    assert(approved.remove(name) =~= approved);
}

} // verus!
