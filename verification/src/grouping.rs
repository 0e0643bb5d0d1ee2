//! The grouping index: from a flat list of (key, value) pairs to the values
//! that share each key, in the order in which they came.
//!
//! One pass over the pairs builds the index, and a lookup costs one hash of
//! the key, so attaching children to parents stays linear in the rows
//! fetched.

use vstd::hash_map::StringHashMap;
use vstd::prelude::*;

verus! {

/// Picks the value of a pair filed under `key`.
pub open spec fn under<V>(key: Seq<char>) -> spec_fn((Seq<char>, V)) -> Option<V> {
    |pair: (Seq<char>, V)| if pair.0 == key { Some(pair.1) } else { None }
}

/// The values of the pairs filed under `key`, in the order of the pairs.
pub open spec fn values_under<V>(pairs: Seq<(Seq<char>, V)>, key: Seq<char>) -> Seq<V> {
    pairs.filter_map(under(key))
}

/// The value of the first pair filed under `key`, if there is one.
pub open spec fn first_under<V>(pairs: Seq<(Seq<char>, V)>, key: Seq<char>) -> Option<V> {
    first_of(values_under(pairs, key))
}

/// The first member of a group, if it has one.
pub open spec fn first_of<V>(members: Seq<V>) -> Option<V> {
    if members.len() > 0 {
        Some(members[0])
    } else {
        None
    }
}

/// The mapping from each key that occurs to the values filed under it.
pub open spec fn grouped<V>(pairs: Seq<(Seq<char>, V)>) -> Map<Seq<char>, Seq<V>> {
    Map::new(
        |key: Seq<char>| values_under(pairs, key).len() > 0,
        |key: Seq<char>| values_under(pairs, key),
    )
}

/// The members that a mapping holds under `key`: none for a key that it
/// does not hold.
pub open spec fn members_of<V>(groups: Map<Seq<char>, Seq<V>>, key: Seq<char>) -> Seq<V> {
    if groups.contains_key(key) {
        groups[key]
    } else {
        Seq::empty()
    }
}

/// Pairs with their keys taken by view.
pub open spec fn keyed<T>(pairs: Seq<(String, T)>) -> Seq<(Seq<char>, T)> {
    pairs.map_values(|pair: (String, T)| (pair.0@, pair.1))
}

/// One more pair adds its value to the group of its own key, at the end,
/// and leaves every other group as it was.
pub proof fn lemma_values_under_push<V>(
    pairs: Seq<(Seq<char>, V)>,
    pair: (Seq<char>, V),
    key: Seq<char>,
)
    ensures
        values_under(pairs.push(pair), key) == if pair.0 == key {
            values_under(pairs, key).push(pair.1)
        } else {
            values_under(pairs, key)
        },
{
    let longer = pairs.push(pair);
    assert(longer.drop_last() =~= pairs);
    assert(longer.last() == pair);
    if pair.0 == key {
        assert(values_under(pairs, key) + seq![pair.1] =~= values_under(pairs, key).push(pair.1));
    }
}

/// Every member of a group is the value of a pair filed under the group's
/// key, and the members keep the order of their pairs: there are positions,
/// strictly increasing, one for each member.
pub proof fn lemma_group_members<V>(pairs: Seq<(Seq<char>, V)>, key: Seq<char>) -> (positions: Seq<
    int,
>)
    ensures
        positions.len() == values_under(pairs, key).len(),
        forall|j: int|
            0 <= j < positions.len() ==> 0 <= #[trigger] positions[j] < pairs.len(),
        forall|j: int|
            0 <= j < positions.len() ==> pairs[#[trigger] positions[j]] == (
                key,
                values_under(pairs, key)[j],
            ),
        forall|j: int, k: int|
            0 <= j < k < positions.len() ==> #[trigger] positions[j] < #[trigger] positions[k],
        forall|i: int|
            0 <= i < pairs.len() && (#[trigger] pairs[i]).0 == key ==> positions.contains(i),
    decreases pairs.len(),
{
    if pairs.len() == 0 {
        Seq::empty()
    } else {
        let rest = pairs.drop_last();
        let before = lemma_group_members(rest, key);
        assert(pairs =~= rest.push(pairs.last()));
        lemma_values_under_push(rest, pairs.last(), key);
        if pairs.last().0 == key {
            let positions = before.push(pairs.len() - 1);
            assert forall|i: int|
                0 <= i < pairs.len() && (#[trigger] pairs[i]).0 == key implies positions.contains(
                i,
            ) by {
                if i < rest.len() {
                    assert(rest[i].0 == key);
                    let j = choose|j: int| 0 <= j < before.len() && before[j] == i;
                    assert(positions[j] == i);
                } else {
                    assert(positions[positions.len() - 1] == i);
                }
            }
            positions
        } else {
            assert forall|i: int|
                0 <= i < pairs.len() && (#[trigger] pairs[i]).0 == key implies before.contains(
                i,
            ) by {
                assert(rest[i].0 == key);
            }
            before
        }
    }
}

/// Whether the slots and groups built so far hold, under `key`, what the
/// pairs seen so far file under it.
spec fn consistent<T>(
    slots: Map<Seq<char>, usize>,
    groups: Seq<Vec<T>>,
    seen: Seq<(Seq<char>, T)>,
    key: Seq<char>,
) -> bool {
    if slots.contains_key(key) {
        &&& slots[key] < groups.len()
        &&& groups[slots[key] as int]@ == values_under(seen, key)
        &&& values_under(seen, key).len() > 0
    } else {
        values_under(seen, key).len() == 0
    }
}

/// An index from a key to the values filed under it.
pub struct GroupIndex<T> {
    slots: StringHashMap<usize>,
    groups: Vec<Vec<T>>,
}

impl<T> View for GroupIndex<T> {
    type V = Map<Seq<char>, Seq<T>>;

    closed spec fn view(&self) -> Map<Seq<char>, Seq<T>> {
        Map::new(
            |key: Seq<char>| self.slots@.contains_key(key),
            |key: Seq<char>| self.groups@[self.slots@[key] as int]@,
        )
    }
}

impl<T> GroupIndex<T> {
    #[verifier::type_invariant]
    spec fn slots_in_range(self) -> bool {
        forall|key: Seq<char>| #[trigger]
            self.slots@.contains_key(key) ==> self.slots@[key] < self.groups@.len()
    }

    /// Builds the index of `pairs` in one pass.
    pub fn build(pairs: Vec<(String, T)>) -> (index: GroupIndex<T>)
        ensures
            index@ == grouped(keyed(pairs@)),
    {
        let mut slots: StringHashMap<usize> = StringHashMap::new();
        let mut groups: Vec<Vec<T>> = Vec::new();
        let ghost all = keyed(pairs@);
        assert(all.take(0) =~= Seq::empty());
        for pair in it: pairs
            invariant
                all == keyed(it.seq()),
                forall|key: Seq<char>| #[trigger]
                    slots@.contains_key(key) ==> slots@[key] < groups@.len(),
                forall|key: Seq<char>| #[trigger]
                    consistent(slots@, groups@, all.take(it.index() as int), key),
                forall|a: Seq<char>, b: Seq<char>|
                    slots@.contains_key(a) && slots@.contains_key(b) && a != b ==> slots@[a]
                        != slots@[b],
        {
            let ghost seen = all.take(it.index() as int);
            let ghost next = all.take(it.index() + 1);
            let ghost old_slots = slots@;
            let ghost old_groups = groups@;
            let (key, value) = pair;
            proof {
                assert(all[it.index() as int] == (key@, value));
                assert(next =~= seen.push((key@, value)));
                assert(consistent(old_slots, old_groups, seen, key@));
            }
            match slots.get(key.as_str()) {
                Some(slot) => {
                    let at: usize = *slot;
                    groups[at].push(value);
                    proof {
                        assert(groups@.len() == old_groups.len());
                        assert(groups@[at as int]@ == old_groups[at as int]@.push(value));
                        assert forall|other: Seq<char>| #[trigger]
                            consistent(slots@, groups@, next, other) by {
                            assert(consistent(old_slots, old_groups, seen, other));
                            lemma_values_under_push(seen, (key@, value), other);
                            if slots@.contains_key(other) && other != key@ {
                                assert(slots@[other] != at);
                                assert(groups@[slots@[other] as int] == old_groups[slots@[other] as int]);
                            }
                        }
                    }
                },
                None => {
                    let at: usize = groups.len();
                    let mut group: Vec<T> = Vec::new();
                    group.push(value);
                    groups.push(group);
                    slots.insert(key, at);
                    proof {
                        assert(group@ =~= Seq::<T>::empty().push(value));
                        assert forall|other: Seq<char>| #[trigger]
                            consistent(slots@, groups@, next, other) by {
                            assert(consistent(old_slots, old_groups, seen, other));
                            lemma_values_under_push(seen, (key@, value), other);
                            if other == key@ {
                                assert(values_under(seen, other) =~= Seq::<T>::empty());
                            } else if slots@.contains_key(other) {
                                assert(old_slots.contains_key(other));
                                assert(groups@[slots@[other] as int] == old_groups[slots@[other] as int]);
                            }
                        }
                        assert forall|a: Seq<char>, b: Seq<char>|
                            slots@.contains_key(a) && slots@.contains_key(b) && a != b implies slots@[a]
                                != slots@[b] by {
                            if a != key@ {
                                assert(old_slots.contains_key(a));
                            }
                            if b != key@ {
                                assert(old_slots.contains_key(b));
                            }
                        }
                    }
                },
            }
        }
        let index = GroupIndex { slots, groups };
        proof {
            assert(all.take(all.len() as int) =~= all);
            assert forall|key: Seq<char>| index@.contains_key(key) <==> grouped(all).contains_key(
                key,
            ) by {
                assert(consistent(index.slots@, index.groups@, all, key));
            }
            assert forall|key: Seq<char>| index@.contains_key(key) implies index@[key] == grouped(
                all,
            )[key] by {
                assert(consistent(index.slots@, index.groups@, all, key));
            }
            assert(index@ =~= grouped(all));
        }
        index
    }

    /// The values filed under `key`, in the order in which they came: none
    /// for a key that never occurred.
    pub fn get(&self, key: &str) -> (members: &[T])
        ensures
            members@ == members_of(self@, key@),
    {
        proof {
            use_type_invariant(self);
        }
        match self.slots.get(key) {
            Some(slot) => self.groups[*slot].as_slice(),
            None => &[],
        }
    }

    /// The first value filed under `key`, if any was.
    pub fn first(&self, key: &str) -> (member: Option<&T>)
        ensures
            match member {
                Some(value) => first_of(members_of(self@, key@)) == Some(*value),
                None => first_of(members_of(self@, key@)) is None,
            },
    {
        let members = self.get(key);
        if members.len() > 0 {
            Some(&members[0])
        } else {
            None
        }
    }
}

/// What the index of some pairs holds under a key is what the pairs file
/// under it.
pub proof fn lemma_members_of_grouped<V>(pairs: Seq<(Seq<char>, V)>, key: Seq<char>)
    ensures
        members_of(grouped(pairs), key) == values_under(pairs, key),
{
    assert(members_of(grouped(pairs), key) =~= values_under(pairs, key));
}

} // verus!
