//! The running children by their id.

use crate::messages::ProcessSequenceId;
use std::collections::BTreeMap;
use vstd::prelude::*;
use vstd::std_specs::cmp::OrdSpec;
use vstd::std_specs::iter::IteratorSpec;

verus! {

/// The values of a map in the order of their keys.
pub open spec fn in_key_order<C>(map: Map<u32, C>, values: Seq<C>) -> bool {
    exists|keys: Seq<u32>|
        {
            &&& #[trigger] keys.to_set() == map.dom()
            &&& forall|i: int, j: int| 0 <= i < j < keys.len() ==> keys[i] < keys[j]
            &&& values == keys.map_values(|k: u32| map[k])
        }
}

/// The running children, by the number of their id.
#[derive(Debug)]
pub struct Children<C> {
    map: BTreeMap<u32, C>,
}

impl<C> View for Children<C> {
    type V = Map<u32, C>;

    closed spec fn view(&self) -> Map<u32, C> {
        self.map@
    }
}

impl<C> Children<C> {
    /// No children.
    pub fn new() -> (children: Self)
        ensures
            children@ == Map::<u32, C>::empty(),
    {
        Children { map: BTreeMap::new() }
    }

    /// The child with this id.
    pub fn get(&self, psid: ProcessSequenceId) -> (child: Option<&C>)
        ensures
            child == if self@.contains_key(psid.0) {
                Some(&self@[psid.0])
            } else {
                None
            },
    {
        broadcast use {vstd::std_specs::btree::group_btree_axioms, vstd::laws_cmp::group_laws_cmp};

        self.map.get(&psid.0)
    }

    /// Puts a child under this id, and hands out the child whose place it takes.
    pub fn insert(&mut self, psid: ProcessSequenceId, child: C) -> (replaced: Option<C>)
        ensures
            final(self)@ == old(self)@.insert(psid.0, child),
            replaced == if old(self)@.contains_key(psid.0) {
                Some(old(self)@[psid.0])
            } else {
                None
            },
    {
        broadcast use {vstd::std_specs::btree::group_btree_axioms, vstd::laws_cmp::group_laws_cmp};

        self.map.insert(psid.0, child)
    }

    /// Takes out the child with this id.
    pub fn remove(&mut self, psid: ProcessSequenceId) -> (removed: Option<C>)
        ensures
            final(self)@ == old(self)@.remove(psid.0),
            removed == if old(self)@.contains_key(psid.0) {
                Some(old(self)@[psid.0])
            } else {
                None
            },
    {
        broadcast use {vstd::std_specs::btree::group_btree_axioms, vstd::laws_cmp::group_laws_cmp};

        self.map.remove(&psid.0)
    }

    /// The numbers of the ids in increasing order.
    fn ids(&self) -> (ids: Vec<u32>)
        ensures
            ids@.to_set() == self@.dom(),
            forall|i: int, j: int| 0 <= i < j < ids.len() ==> ids[i] < ids[j],
    {
        broadcast use {vstd::std_specs::btree::group_btree_axioms, vstd::laws_cmp::group_laws_cmp};

        let keys = self.map.keys();
        let ghost all = keys.remaining().unref();
        assert(vstd::laws_cmp::obeys_cmp::<&u32>());
        assert forall|i: int, j: int| 0 <= i < j < all.len() implies all[i] < all[j] by {
            let (a, b) = (keys.remaining()[i], keys.remaining()[j]);
            assert(OrdSpec::cmp_spec(&a, &b) is Less);
            assert(OrdSpec::cmp_spec(a, b) is Less);
        }
        let mut ids: Vec<u32> = Vec::new();
        for id in iter: keys
            invariant
                iter.seq().unref() == all,
                ids@ == all.take(iter.index()),
        {
            ids.push(*id);
        }
        assert(ids@ =~= all);
        ids
    }

    /// Takes every child out, in the order of their ids.
    pub fn take_all(&mut self) -> (children: Vec<C>)
        ensures
            in_key_order(old(self)@, children@),
            final(self)@ == Map::<u32, C>::empty(),
    {
        let ghost all = self@;
        let ids = self.ids();
        let mut children: Vec<C> = Vec::new();
        let mut i: usize = 0;
        while i < ids.len()
            invariant
                i <= ids.len(),
                ids@.to_set() == all.dom(),
                forall|j: int, k: int| 0 <= j < k < ids.len() ==> ids[j] < ids[k],
                children.len() == i,
                forall|j: int| 0 <= j < i ==> children[j] == all[#[trigger] ids[j]],
                forall|k: u32| #[trigger]
                    self@.contains_key(k) <==> all.contains_key(k) && !ids@.take(
                        i as int,
                    ).contains(k),
                forall|k: u32| #[trigger] self@.contains_key(k) ==> self@[k] == all[k],
            decreases ids.len() - i,
        {
            let ghost id = ids[i as int];
            proof {
                assert(ids@.to_set().contains(id));
                assert(!ids@.take(i as int).contains(id));
                assert forall|k: u32| #[trigger] ids@.take(i + 1).contains(k) <==> ids@.take(
                    i as int,
                ).contains(k) || k == id by {
                    assert(ids@.take(i + 1) =~= ids@.take(i as int).push(id));
                    if ids@.take(i as int).contains(k) {
                        let j = choose|j: int| 0 <= j < i && ids@.take(i as int)[j] == k;
                        assert(ids@.take(i + 1)[j] == k);
                    }
                    assert(ids@.take(i + 1)[i as int] == id);
                }
            }
            if let Some(child) = self.remove(ProcessSequenceId::new(ids[i])) {
                children.push(child);
            }
            i += 1;
        }
        proof {
            assert(ids@.take(ids.len() as int) =~= ids@);
            assert forall|k: u32| all.contains_key(k) implies ids@.contains(k) by {
                assert(ids@.to_set().contains(k));
            }
            assert(self@ =~= Map::<u32, C>::empty());
            assert(children@ =~= ids@.map_values(|k: u32| all[k]));
        }
        children
    }
}

/// Children are kept by their id: one that was put under an id is found there, one that was taken
/// out is not, the child that was there is handed out, and all others stay as they are.
pub proof fn law_children_are_kept_by_id<C>(psid: ProcessSequenceId)
    ensures
        forall|children: &mut Children<C>, child: C, replaced: Option<C>|
            #[trigger] call_ensures(Children::<C>::insert, (children, psid, child), replaced) ==> {
                &&& (*final(children))@.contains_key(psid.0)
                &&& (*final(children))@[psid.0] == child
                &&& (*final(children))@.remove(psid.0) == (*children)@.remove(psid.0)
                &&& replaced is Some <==> (*children)@.contains_key(psid.0)
                &&& replaced matches Some(old_child) ==> old_child == (*children)@[psid.0]
            },
        forall|children: &mut Children<C>, removed: Option<C>|
            #[trigger] call_ensures(Children::<C>::remove, (children, psid), removed) ==> {
                &&& !(*final(children))@.contains_key(psid.0)
                &&& (*final(children))@ == (*children)@.remove(psid.0)
                &&& removed is Some <==> (*children)@.contains_key(psid.0)
                &&& removed matches Some(child) ==> child == (*children)@[psid.0]
            },
        forall|children: &Children<C>, found: Option<&C>|
            #[trigger] call_ensures(Children::<C>::get, (children, psid), found) ==> {
                &&& found is Some <==> children@.contains_key(psid.0)
                &&& found matches Some(child) ==> *child == children@[psid.0]
            },
{
    assert forall|children: &mut Children<C>, child: C, replaced: Option<C>| #[trigger]
        call_ensures(Children::<C>::insert, (children, psid, child), replaced) implies {
        (*final(children))@.remove(psid.0) == (*children)@.remove(psid.0)
    } by {
        assert((*children)@.insert(psid.0, child).remove(psid.0) =~= (*children)@.remove(psid.0));
    }
}

} // verus!
