//! The ordered member lists of lines and zones, with join and leave.

use vstd::prelude::*;

verus! {

/// The ordered members of a line or a zone, by entity id. No id occurs twice.
pub struct MemberList {
    entries: Vec<u64>,
}

impl View for MemberList {
    type V = Seq<u64>;

    closed spec fn view(&self) -> Seq<u64> {
        self.entries@
    }
}

/// The members after `entity` joined: appended at the end, unless it was
/// already a member.
pub open spec fn joined(members: Seq<u64>, entity: u64) -> Seq<u64> {
    if members.contains(entity) {
        members
    } else {
        members.push(entity)
    }
}

/// The members after `entity` left: the others, in their order.
pub open spec fn left(members: Seq<u64>, entity: u64) -> Seq<u64> {
    if members.contains(entity) {
        members.remove(members.index_of(entity))
    } else {
        members
    }
}

/// In a list without repetitions, the member at position `k` leaves by
/// removing position `k`.
pub proof fn lemma_left_at(members: Seq<u64>, entity: u64, k: int)
    requires
        members.no_duplicates(),
        0 <= k < members.len(),
        members[k] == entity,
    ensures
        left(members, entity) == members.remove(k),
{
    assert(members.contains(entity));
    let j = members.index_of(entity);
    assert(members[j] == members[k]);
}

/// The members after each id joined in turn, starting from none.
pub open spec fn joined_all(ids: Seq<u64>) -> Seq<u64>
    decreases ids.len(),
{
    if ids.len() == 0 {
        Seq::empty()
    } else {
        joined(joined_all(ids.drop_last()), ids.last())
    }
}

impl MemberList {
    #[verifier::type_invariant]
    spec fn inv(&self) -> bool {
        self.entries@.no_duplicates()
    }

    pub fn new() -> (r: MemberList)
        ensures
            r@ == Seq::<u64>::empty(),
    {
        MemberList { entries: Vec::new() }
    }

    /// Builds a list by joining each id in turn: later repetitions are dropped.
    pub fn from_ids(ids: &Vec<u64>) -> (r: MemberList)
        ensures
            r@ == joined_all(ids@),
            r@.no_duplicates(),
            forall|x: u64| r@.contains(x) <==> ids@.contains(x),
            ids@.no_duplicates() ==> r@ == ids@,
    {
        let mut r = MemberList::new();
        let mut i: usize = 0;
        while i < ids.len()
            invariant
                i <= ids@.len(),
                r@ == joined_all(ids@.subrange(0, i as int)),
                r@.no_duplicates(),
                forall|x: u64| r@.contains(x) <==> ids@.subrange(0, i as int).contains(x),
                ids@.no_duplicates() ==> r@ == ids@.subrange(0, i as int),
            decreases ids@.len() - i,
        {
            let ghost before = r@;
            r.join(ids[i]);
            proof {
                let e = ids@[i as int];
                assert(ids@.subrange(0, i + 1).drop_last() =~= ids@.subrange(0, i as int));
                assert forall|x: u64| r@.contains(x) <==> (before.contains(x) || x == e) by {
                    if !before.contains(e) {
                        assert(before.push(e)[before.len() as int] == e);
                        if before.contains(x) {
                            let j = choose|j: int| 0 <= j < before.len() && before[j] == x;
                            assert(before.push(e)[j] == x);
                        }
                        if r@.contains(x) && x != e {
                            let j = choose|j: int| 0 <= j < r@.len() && r@[j] == x;
                            assert(before[j] == x);
                        }
                    }
                }
                let p = ids@.subrange(0, i as int);
                assert(ids@.subrange(0, i + 1) =~= p.push(e));
                assert forall|x: u64| p.push(e).contains(x) <==> (p.contains(x) || x == e) by {
                    assert(p.push(e)[p.len() as int] == e);
                    if p.contains(x) {
                        let j = choose|j: int| 0 <= j < p.len() && p[j] == x;
                        assert(p.push(e)[j] == x);
                    }
                    if p.push(e).contains(x) && x != e {
                        let j = choose|j: int| 0 <= j < p.len() + 1 && p.push(e)[j] == x;
                        assert(p[j] == x);
                    }
                }
                assert forall|x: u64| r@.contains(x) <==> ids@.subrange(0, i + 1).contains(x) by {
                    assert(before.contains(x) <==> p.contains(x));
                }
                if ids@.no_duplicates() {
                    assert(!ids@.subrange(0, i as int).contains(ids@[i as int]));
                }
            }
            i = i + 1;
        }
        proof {
            assert(ids@.subrange(0, ids@.len() as int) =~= ids@);
        }
        r
    }

    pub fn len(&self) -> (r: usize)
        ensures
            r == self@.len(),
            self@.no_duplicates(),
    {
        proof {
            use_type_invariant(self);
        }
        self.entries.len()
    }

    pub fn get(&self, index: usize) -> (r: u64)
        requires
            index < self@.len(),
        ensures
            r == self@[index as int],
    {
        self.entries[index]
    }

    pub fn index_of(&self, entity: u64) -> (r: Option<usize>)
        ensures
            self@.no_duplicates(),
            match r {
                Some(k) => k < self@.len() && self@[k as int] == entity,
                None => !self@.contains(entity),
            },
    {
        proof {
            use_type_invariant(self);
        }
        let mut i: usize = 0;
        while i < self.entries.len()
            invariant
                i <= self@.len(),
                self@ == self.entries@,
                self@.no_duplicates(),
                forall|j: int| 0 <= j < i ==> self@[j] != entity,
            decreases self@.len() - i,
        {
            if self.entries[i] == entity {
                return Some(i);
            }
            i = i + 1;
        }
        None
    }

    pub fn contains(&self, entity: u64) -> (r: bool)
        ensures
            r == self@.contains(entity),
    {
        match self.index_of(entity) {
            Some(_) => true,
            None => false,
        }
    }

    /// The member ids, in order.
    pub fn to_vec(&self) -> (r: Vec<u64>)
        ensures
            r@ == self@,
            r@.no_duplicates(),
    {
        proof {
            use_type_invariant(self);
        }
        self.entries.clone()
    }

    /// Appends `entity` unless it is already a member; returns whether it was added.
    pub fn join(&mut self, entity: u64) -> (added: bool)
        ensures
            added == !old(self)@.contains(entity),
            final(self)@ == joined(old(self)@, entity),
            final(self)@.no_duplicates(),
    {
        proof {
            use_type_invariant(&*self);
        }
        if self.contains(entity) {
            false
        } else {
            let mut entries = self.entries.clone();
            entries.push(entity);
            self.entries = entries;
            true
        }
    }

    /// Removes `entity` if it is a member, keeping the others in order;
    /// returns the position it had.
    pub fn leave(&mut self, entity: u64) -> (r: Option<usize>)
        ensures
            final(self)@ == left(old(self)@, entity),
            final(self)@.no_duplicates(),
            !final(self)@.contains(entity),
            match r {
                Some(k) => k < old(self)@.len() && old(self)@[k as int] == entity && final(self)@
                    == old(self)@.remove(k as int),
                None => !old(self)@.contains(entity) && final(self)@ == old(self)@,
            },
    {
        proof {
            use_type_invariant(&*self);
        }
        match self.index_of(entity) {
            Some(k) => {
                proof {
                    lemma_left_at(self@, entity, k as int);
                }
                let mut entries = self.entries.clone();
                entries.remove(k);
                proof {
                    assert(!entries@.contains(entity)) by {
                        if entries@.contains(entity) {
                            let j = choose|j: int| 0 <= j < entries@.len() && entries@[j] == entity;
                            if j < k {
                                assert(old(self)@[j] == old(self)@[k as int]);
                            } else {
                                assert(old(self)@[j + 1] == old(self)@[k as int]);
                            }
                        }
                    }
                    assert(entries@.no_duplicates()) by {
                        assert forall|a: int, b: int|
                            0 <= a < entries@.len() && 0 <= b < entries@.len() && a != b implies
                            entries@[a] != entries@[b] by {
                            let a1 = if a < k { a } else { a + 1 };
                            let b1 = if b < k { b } else { b + 1 };
                            assert(old(self)@[a1] != old(self)@[b1]);
                        }
                    }
                }
                self.entries = entries;
                Some(k)
            },
            None => None,
        }
    }
}

/// Joining twice in a row leaves the member list as one join does, with the
/// entity in it exactly once.
pub proof fn lemma_join_idempotent(members: Seq<u64>, entity: u64)
    requires
        members.no_duplicates(),
    ensures
        joined(joined(members, entity), entity) == joined(members, entity),
        joined(members, entity).contains(entity),
        joined(members, entity).no_duplicates(),
        joined(members, entity).filter(|x: u64| x == entity).len() == 1,
{
    assert(joined(members, entity).contains(entity)) by {
        if !members.contains(entity) {
            assert(members.push(entity)[members.len() as int] == entity);
        }
    }
    let s = joined(members, entity);
    let k = choose|k: int| 0 <= k < s.len() && s[k] == entity;
    lemma_filter_single(s, entity, k);
}

/// An entity that joins and then leaves at once leaves the member list as
/// it was.
pub proof fn lemma_join_then_leave(members: Seq<u64>, entity: u64)
    requires
        members.no_duplicates(),
        !members.contains(entity),
    ensures
        left(joined(members, entity), entity) == members,
{
    let s = members.push(entity);
    assert(s.no_duplicates()) by {
        assert forall|a: int, b: int| 0 <= a < s.len() && 0 <= b < s.len() && a != b implies s[a]
            != s[b] by {
            if a < members.len() && b < members.len() {
            } else if a < members.len() {
                assert(members.contains(s[a]));
            } else {
                assert(members.contains(s[b]));
            }
        }
    }
    lemma_left_at(s, entity, members.len() as int);
    assert(s.remove(members.len() as int) =~= members);
}

/// In a list without repetitions, filtering for one member gives just that member.
proof fn lemma_filter_single(s: Seq<u64>, entity: u64, k: int)
    requires
        s.no_duplicates(),
        0 <= k < s.len(),
        s[k] == entity,
    ensures
        s.filter(|x: u64| x == entity) == seq![entity],
    decreases s.len(),
{
    let f = |x: u64| x == entity;
    reveal(Seq::filter);
    if k == s.len() - 1 {
        let p = s.drop_last();
        assert(!p.contains(entity)) by {
            if p.contains(entity) {
                let j = choose|j: int| 0 <= j < p.len() && p[j] == entity;
                assert(s[j] == s[k]);
            }
        }
        p.lemma_all_neg_filter_empty(f);
        assert(p.filter(f).len() == 0);
    } else {
        let p = s.drop_last();
        assert(p.no_duplicates());
        assert(p[k] == entity);
        lemma_filter_single(p, entity, k);
        assert(s.last() != entity);
    }
}

} // verus!
