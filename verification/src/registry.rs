//! The registry: a durable mapping from owning account to the metadata of
//! its deployed program, with unique keys and no delete path.

use vstd::prelude::*;

use crate::account::AccountId;

verus! {

/// Metadata of one deployed token instance: the instance's identifier and
/// the identifier authorized to administer it. Immutable once written.
#[derive(Debug)]
pub struct ProgramInfo {
    pub ft: AccountId,
    pub manager: AccountId,
}

/// The mathematical content of a `ProgramInfo`.
pub struct ProgramInfoView {
    pub ft: Seq<char>,
    pub manager: Seq<char>,
}

impl View for ProgramInfo {
    type V = ProgramInfoView;

    open spec fn view(&self) -> ProgramInfoView {
        ProgramInfoView { ft: self.ft@, manager: self.manager@ }
    }
}

impl Clone for ProgramInfo {
    fn clone(&self) -> (r: Self)
        ensures
            r == *self,
    {
        ProgramInfo { ft: self.ft.clone(), manager: self.manager.clone() }
    }
}

impl ProgramInfo {
    pub fn new(ft: AccountId, manager: AccountId) -> (r: ProgramInfo)
        ensures
            r@ == (ProgramInfoView { ft: ft@, manager: manager@ }),
    {
        ProgramInfo { ft, manager }
    }
}

/// The mapping a list of entries holds; were an owner listed twice, the
/// later entry would shadow the earlier one.
pub open spec fn map_of(entries: Seq<(AccountId, ProgramInfo)>) -> Map<Seq<char>, ProgramInfoView>
    decreases entries.len(),
{
    if entries.len() == 0 {
        Map::empty()
    } else {
        map_of(entries.drop_last()).insert(entries.last().0@, entries.last().1@)
    }
}

proof fn lemma_map_of_domain(entries: Seq<(AccountId, ProgramInfo)>, k: Seq<char>)
    ensures
        map_of(entries).contains_key(k) <==> exists|i: int|
            0 <= i < entries.len() && entries[i].0@ == k,
    decreases entries.len(),
{
    if entries.len() > 0 {
        let sub = entries.drop_last();
        lemma_map_of_domain(sub, k);
        if map_of(entries).contains_key(k) {
            if k == entries.last().0@ {
                assert(entries[entries.len() - 1].0@ == k);
            } else {
                let i = choose|i: int| 0 <= i < sub.len() && sub[i].0@ == k;
                assert(entries[i].0@ == k);
            }
        }
        if exists|i: int| 0 <= i < entries.len() && entries[i].0@ == k {
            let i = choose|i: int| 0 <= i < entries.len() && entries[i].0@ == k;
            if i < entries.len() - 1 {
                assert(sub[i].0@ == k);
            }
        }
    }
}

proof fn lemma_map_of_last_occurrence(entries: Seq<(AccountId, ProgramInfo)>, i: int)
    requires
        0 <= i < entries.len(),
        forall|j: int| i < j < entries.len() ==> entries[j].0@ != entries[i].0@,
    ensures
        map_of(entries).contains_key(entries[i].0@),
        map_of(entries)[entries[i].0@] == entries[i].1@,
    decreases entries.len(),
{
    if i < entries.len() - 1 {
        let sub = entries.drop_last();
        assert(forall|j: int| i < j < sub.len() ==> sub[j].0@ != sub[i].0@);
        lemma_map_of_last_occurrence(sub, i);
        assert(entries.last().0@ != entries[i].0@);
    }
}

/// The durable owner-to-program mapping. Its contents are the `Map` given by
/// its view; entries are only ever added, never replaced or removed.
pub struct Registry {
    pub entries: Vec<(AccountId, ProgramInfo)>,
}

impl View for Registry {
    type V = Map<Seq<char>, ProgramInfoView>;

    open spec fn view(&self) -> Map<Seq<char>, ProgramInfoView> {
        map_of(self.entries@)
    }
}

impl Registry {
    /// No owner stands in two entries.
    pub open spec fn wf(&self) -> bool {
        forall|i: int, j: int|
            0 <= i < j < self.entries@.len() ==> self.entries@[i].0@ != self.entries@[j].0@
    }

    pub fn new() -> (r: Registry)
        ensures
            r.wf(),
            r@ == Map::<Seq<char>, ProgramInfoView>::empty(),
    {
        Registry { entries: Vec::new() }
    }

    /// Whether the owner holds an entry. Total; never fails.
    pub fn contains(&self, owner: &AccountId) -> (b: bool)
        ensures
            b == self@.contains_key(owner@),
    {
        let n: usize = self.entries.len();
        let mut i: usize = 0;
        while i < n
            invariant
                n == self.entries@.len(),
                i <= n,
                forall|j: int| 0 <= j < i ==> self.entries@[j].0@ != owner@,
            decreases n - i,
        {
            if self.entries[i].0.same_id(owner) {
                proof {
                    lemma_map_of_domain(self.entries@, owner@);
                }
                return true;
            }
            i = i + 1;
        }
        proof {
            lemma_map_of_domain(self.entries@, owner@);
        }
        false
    }

    /// The owner's entry, if one exists.
    pub fn get(&self, owner: &AccountId) -> (r: Option<&ProgramInfo>)
        requires
            self.wf(),
        ensures
            r is Some <==> self@.contains_key(owner@),
            r is Some ==> r->0@ == self@[owner@],
    {
        let n: usize = self.entries.len();
        let mut i: usize = 0;
        while i < n
            invariant
                self.wf(),
                n == self.entries@.len(),
                i <= n,
                forall|j: int| 0 <= j < i ==> self.entries@[j].0@ != owner@,
            decreases n - i,
        {
            if self.entries[i].0.same_id(owner) {
                proof {
                    lemma_map_of_last_occurrence(self.entries@, i as int);
                }
                return Some(&self.entries[i].1);
            }
            i = i + 1;
        }
        proof {
            lemma_map_of_domain(self.entries@, owner@);
        }
        None
    }

    /// Writes the owner's entry unless the owner already holds one: an
    /// entry, once written, is never replaced.
    pub fn record_program(&mut self, owner: AccountId, info: ProgramInfo)
        requires
            old(self).wf(),
        ensures
            final(self).wf(),
            final(self)@ == (if old(self)@.contains_key(owner@) {
                old(self)@
            } else {
                old(self)@.insert(owner@, info@)
            }),
    {
        if !self.contains(&owner) {
            proof {
                lemma_map_of_domain(self.entries@, owner@);
            }
            self.entries.push((owner, info));
            proof {
                assert(self.entries@.drop_last() =~= old(self).entries@);
                assert(map_of(self.entries@) == map_of(old(self).entries@).insert(
                    owner@,
                    info@,
                ));
            }
        }
    }
}

} // verus!
