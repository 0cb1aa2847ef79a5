//! An evaluated pkl module.
use vstd::prelude::*;

use crate::internal::types::{view_members, ObjectMember};
use crate::value::SpecValue;

verus! {

/// The model of an evaluated module: its name, its URI and its members in order.
pub struct SpecModule {
    pub name: Seq<char>,
    pub uri: Seq<char>,
    pub members: Seq<(Seq<char>, SpecValue)>,
}

/// An evaluated pkl module.
#[derive(Debug)]
pub struct PklMod {
    module_name: String,
    module_uri: String,
    members: Vec<ObjectMember>,
}

impl View for PklMod {
    type V = SpecModule;

    closed spec fn view(&self) -> SpecModule {
        SpecModule {
            name: self.module_name@,
            uri: self.module_uri@,
            members: view_members(self.members@),
        }
    }
}

impl PklMod {
    /// A module with the given name, URI and members.
    pub fn new(module_name: String, module_uri: String, members: Vec<ObjectMember>) -> (r: PklMod)
        ensures
            r@ == (SpecModule {
                name: module_name@,
                uri: module_uri@,
                members: view_members(members@),
            }),
    {
        PklMod { module_name, module_uri, members }
    }

    pub fn module_name(&self) -> (r: &str)
        ensures
            r@ == self@.name,
    {
        self.module_name.as_str()
    }

    pub fn module_uri(&self) -> (r: &str)
        ensures
            r@ == self@.uri,
    {
        self.module_uri.as_str()
    }

    /// The members, in order.
    pub fn members(&self) -> (r: &Vec<ObjectMember>)
        ensures
            view_members(r@) == self@.members,
    {
        &self.members
    }

    /// Gives up the module for its members.
    pub fn into_members(self) -> (r: Vec<ObjectMember>)
        ensures
            view_members(r@) == self@.members,
    {
        self.members
    }
}

} // verus!
