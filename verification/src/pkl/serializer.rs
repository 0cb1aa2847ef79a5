//! Turning the members of an object or module into a map.
use vstd::prelude::*;

use crate::error::Error;
use crate::internal::types::{members_map, view_members, ObjectMember};
use crate::pkl::pkl_mod::PklMod;
use crate::value::entries::{
    entries_get, entries_insert, keys_unique, last_value, law_insert_all_get,
    law_insert_all_unique,
};
use crate::value::{SpecValue, ValueMap};

verus! {

/// Serialization of pkl members into a map from identifiers to values.
pub trait PklSerialize: Sized {
    fn serialize_pkl_ast(self) -> Result<ValueMap, Error>;
}

impl PklSerialize for Vec<ObjectMember> {
    /// The map of the members; never fails.
    fn serialize_pkl_ast(self) -> (r: Result<ValueMap, Error>)
        ensures
            r matches Ok(m) && m@ == members_map(view_members(self@)),
    {
        Ok(serialize_members(self))
    }
}

impl PklSerialize for PklMod {
    /// The map of the module's members; never fails.
    fn serialize_pkl_ast(self) -> (r: Result<ValueMap, Error>)
        ensures
            r matches Ok(m) && m@ == members_map(self@.members),
    {
        Ok(serialize_members(self.into_members()))
    }
}

proof fn lemma_insert_all_step(p: Seq<(Seq<char>, SpecValue)>, i: int)
    requires
        0 <= i < p.len(),
    ensures
        members_map(p.take(i + 1)) == entries_insert(members_map(p.take(i)), p[i].0, p[i].1),
{
    assert(p.take(i + 1).drop_last() =~= p.take(i));
}

/// Inserts each member, in order, into a new map.
pub fn serialize_members(members: Vec<ObjectMember>) -> (m: ValueMap)
    ensures
        m@ == members_map(view_members(members@)),
{
    let ghost all = view_members(members@);
    let mut map = ValueMap::with_capacity(members.len());
    let mut rest = members;
    let ghost mut i: int = 0;
    assert(all.take(0) =~= Seq::<(Seq<char>, SpecValue)>::empty());
    while rest.len() > 0
        invariant
            0 <= i <= all.len(),
            rest@.len() == all.len() - i,
            forall|j: int| 0 <= j < rest@.len() ==> #[trigger] rest@[j].spec_entry() == all[i + j],
            map@ == members_map(all.take(i)),
        decreases rest.len(),
    {
        let ghost before = rest@;
        let member = rest.remove(0);
        proof {
            assert(member.spec_entry() == all[i]);
            assert forall|j: int| 0 <= j < rest@.len() implies #[trigger] rest@[j].spec_entry() == all[
                i + 1 + j] by {
                assert(rest@[j] == before[j + 1]);
            }
            lemma_insert_all_step(all, i);
        }
        let ObjectMember(k, v) = member;
        map.insert(k, v);
        proof {
            i = i + 1;
        }
    }
    assert(all.take(i) =~= all);
    map
}

/// No identifier occurs twice in the map that members make.
pub proof fn law_serialized_keys_unique(members: Seq<(Seq<char>, SpecValue)>)
    ensures
        keys_unique(members_map(members)),
{
    law_insert_all_unique(Seq::<(Seq<char>, SpecValue)>::empty(), members);
}

/// In the map that members make, an identifier holds the value of its last member, and an
/// identifier of no member holds nothing.
pub proof fn law_serialized_lookup(members: Seq<(Seq<char>, SpecValue)>, ident: Seq<char>)
    ensures
        entries_get(members_map(members), ident) == last_value(members, ident),
{
    law_insert_all_get(Seq::<(Seq<char>, SpecValue)>::empty(), members, ident);
}

} // verus!
