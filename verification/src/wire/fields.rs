//! JSON objects read by their keys.

use crate::json::{members_view, JsonValue, JsonView, Member, MemberView, Number, NumberView};
use vstd::prelude::*;

verus! {

/// The value under `key` in an object: that of the last member with this
/// key, if there is one.
pub open spec fn lookup(members: Seq<MemberView>, key: Seq<char>) -> Option<JsonView>
    decreases members.len(),
{
    if members.len() == 0 {
        None
    } else if members.last().key == key {
        Some(members.last().value)
    } else {
        lookup(members.drop_last(), key)
    }
}

/// Whether an object is made of members under `keys` alone, no key twice.
pub open spec fn keyed_by(members: Seq<MemberView>, keys: Seq<Seq<char>>) -> bool {
    &&& forall|i: int| 0 <= i < members.len() ==> keys.contains(#[trigger] members[i].key)
    &&& forall|i: int, j: int|
        0 <= i < j < members.len() ==> (#[trigger] members[i]).key != (#[trigger] members[j]).key
}

/// The value of a slot that may hold a JSON value.
pub open spec fn slot_view(slot: Option<JsonValue>) -> Option<JsonView> {
    match slot {
        Some(value) => Some(value@),
        None => None,
    }
}

/// The values of a sequence of keys.
pub open spec fn keys_view(keys: Seq<String>) -> Seq<Seq<char>> {
    Seq::new(keys.len(), |i: int| keys[i]@)
}

/// A key is looked up with success exactly where a member carries it.
pub proof fn lemma_lookup_some(members: Seq<MemberView>, key: Seq<char>)
    ensures
        lookup(members, key) is Some <==> exists|i: int|
            0 <= i < members.len() && (#[trigger] members[i]).key == key,
    decreases members.len(),
{
    if members.len() > 0 {
        let rest = members.drop_last();
        lemma_lookup_some(rest, key);
        if members.last().key == key {
            assert(members[members.len() - 1].key == key);
        } else if lookup(rest, key) is Some {
            let i = choose|i: int| 0 <= i < rest.len() && (#[trigger] rest[i]).key == key;
            assert(members[i].key == key);
        } else {
            assert forall|i: int| 0 <= i < members.len() implies (#[trigger] members[i]).key
                != key by {
                if i < rest.len() {
                    assert(rest[i].key != key);
                }
            }
        }
    }
}

/// Looking a key up among the first `i + 1` members: the member at `i`
/// decides where it carries the key, else the members before it do.
pub proof fn lemma_lookup_step(members: Seq<MemberView>, key: Seq<char>, i: int)
    requires
        0 <= i < members.len(),
    ensures
        lookup(members.take(i + 1), key) == if members[i].key == key {
            Some(members[i].value)
        } else {
            lookup(members.take(i), key)
        },
{
    assert(members.take(i + 1).drop_last() =~= members.take(i));
}

/// Sorts the members of an object into one slot per key. `None` where a
/// member has a key that is not asked for, or a key comes twice.
pub(crate) fn sort_by_key(members: Vec<Member>, keys: &Vec<String>) -> (sorted: Option<
    Vec<Option<JsonValue>>,
>)
    requires
        forall|a: int, b: int| 0 <= a < b < keys.len() ==> keys[a]@ != keys[b]@,
    ensures
        sorted is Some <==> keyed_by(members_view(members@), keys_view(keys@)),
        sorted matches Some(slots) ==> {
            &&& slots.len() == keys.len()
            &&& forall|k: int|
                0 <= k < keys.len() ==> slot_view(#[trigger] slots[k]) == lookup(
                    members_view(members@),
                    keys[k]@,
                )
        },
{
    let ghost given = members_view(members@);
    let ghost names = keys_view(keys@);
    let mut slots: Vec<Option<JsonValue>> = Vec::with_capacity(keys.len());
    let mut n: usize = 0;
    while n < keys.len()
        invariant
            n <= keys.len(),
            slots.len() == n,
            forall|k: int| 0 <= k < n ==> (#[trigger] slots[k]) is None,
        decreases keys.len() - n,
    {
        slots.push(None);
        n += 1;
    }
    for member in it: members.into_iter()
        invariant
            it.seq() == members@,
            given == members_view(members@),
            names == keys_view(keys@),
            forall|a: int, b: int| 0 <= a < b < keys.len() ==> keys[a]@ != keys[b]@,
            slots.len() == keys.len(),
            keyed_by(given.take(it.index() as int), names),
            forall|k: int|
                0 <= k < keys.len() ==> slot_view(#[trigger] slots[k]) == lookup(
                    given.take(it.index() as int),
                    keys[k]@,
                ),
    {
        let ghost i = it.index() as int;
        assert(member@ == given[i]);
        let mut at: usize = 0;
        while at < keys.len() && keys[at] != member.key
            invariant
                at <= keys.len(),
                forall|k: int| 0 <= k < at ==> keys[k]@ != member.key@,
            decreases keys.len() - at,
        {
            at += 1;
        }
        if at == keys.len() {
            proof {
                if names.contains(given[i].key) {
                    let k = choose|k: int| 0 <= k < names.len() && names[k] == given[i].key;
                    assert(keys[k]@ == member.key@);
                }
            }
            return None;
        }
        if slots[at].is_some() {
            proof {
                lemma_lookup_some(given.take(i), keys[at as int]@);
                let j = choose|j: int|
                    0 <= j < given.take(i).len() && (#[trigger] given.take(i)[j]).key == keys[at as int]@;
                assert(given[j].key == given[i].key);
            }
            return None;
        }
        proof {
            lemma_lookup_some(given.take(i), keys[at as int]@);
            assert forall|a: int, b: int| 0 <= a < b < given.take(i + 1).len() implies (
            #[trigger] given.take(i + 1)[a]).key != (#[trigger] given.take(i + 1)[b]).key by {
                if b < i {
                    assert(given.take(i)[a].key != given.take(i)[b].key);
                } else {
                    assert(given.take(i)[a].key == given[a].key);
                }
            }
            assert forall|a: int| 0 <= a < given.take(i + 1).len() implies names.contains(
                #[trigger] given.take(i + 1)[a].key,
            ) by {
                if a < i {
                    assert(names.contains(given.take(i)[a].key));
                } else {
                    assert(names[at as int] == given[i].key);
                }
            }
            assert forall|k: int| 0 <= k < keys.len() implies slot_view(
                #[trigger] slots@.update(at as int, Some(member.value))[k],
            ) == lookup(given.take(i + 1), keys[k]@) by {
                lemma_lookup_step(given, keys[k]@, i);
            }
        }
        slots.set(at, Some(member.value));
    }
    assert(given.take(members@.len() as int) =~= given);
    Some(slots)
}

pub(crate) fn take_slot(slots: &mut Vec<Option<JsonValue>>) -> (slot: Option<JsonValue>)
    requires
        old(slots).len() > 0,
    ensures
        slot == old(slots)@.last(),
        final(slots)@ == old(slots)@.drop_last(),
{
    match slots.pop() {
        Some(slot) => slot,
        None => None,
    }
}

pub(crate) fn has_key(members: &Vec<Member>, key: &String) -> (yes: bool)
    ensures
        yes == (lookup(members_view(members@), key@) is Some),
{
    let ghost given = members_view(members@);
    let mut i: usize = 0;
    while i < members.len()
        invariant
            i <= members.len(),
            given == members_view(members@),
            forall|j: int| 0 <= j < i ==> (#[trigger] given[j]).key != key@,
        decreases members.len() - i,
    {
        if members[i].key == *key {
            proof {
                lemma_lookup_some(given, key@);
                assert(given[i as int].key == key@);
            }
            return true;
        }
        i += 1;
    }
    proof {
        lemma_lookup_some(given, key@);
    }
    false
}

pub(crate) fn is_version_tag(slot: &Option<JsonValue>) -> (yes: bool)
    ensures
        yes == (slot_view(*slot) == Some(JsonView::String("2.0"@))),
{
    match slot {
        Some(JsonValue::String(tag)) => *tag == "2.0".to_owned(),
        _ => false,
    }
}

/// The identifier that a JSON value holds: an integer of the identifiers'
/// range.
pub open spec fn read_correlation_id(json: JsonView) -> Option<u64> {
    match json {
        JsonView::Number(NumberView::Int(v)) => if 0 <= v <= u64::MAX {
            Some(v as u64)
        } else {
            None
        },
        _ => None,
    }
}

pub(crate) fn number_to_id(number: &Number) -> (id: Option<u64>)
    ensures
        id == read_correlation_id(JsonView::Number(number@)),
{
    match number {
        Number::PosInt(v) => Some(*v),
        Number::NegInt(v) => if *v >= 0 {
            Some(*v as u64)
        } else {
            None
        },
        Number::Literal(_) => None,
    }
}

} // verus!
