//! The nodes of the type graph that code generation walks.
use vstd::prelude::*;

use crate::internal::types::ObjectMember;

verus! {

/// A struct to generate: the pkl identifier it comes from and its members.
#[derive(Debug)]
pub struct StructNode<'a> {
    pub _pkl_ident: &'a str,
    pub members: &'a [ObjectMember],
    pub is_dependency: bool,
    pub parent_module_name: &'a str,
    pub pub_struct: bool,
}

/// An enum to generate: the pkl identifier it comes from and its variants.
#[derive(Debug)]
pub struct EnumNode<'a> {
    pub _pkl_ident: &'a str,
    pub _variants: Vec<String>,
    pub _is_dependency: bool,
}

/// A type to generate.
#[derive(Debug)]
pub enum NodeType<'a> {
    Struct(StructNode<'a>),
    Enum(EnumNode<'a>),
}

impl<'a> NodeType<'a> {
    /// The module a struct belongs to; an enum belongs to none.
    pub fn parent_module_name(&self) -> (r: Option<&'a str>)
        ensures
            match *self {
                NodeType::Struct(s) => r == Some(s.parent_module_name),
                NodeType::Enum(_) => r is None,
            },
    {
        match self {
            NodeType::Enum(_) => None,
            NodeType::Struct(s) => Some(s.parent_module_name),
        }
    }
}

/// A type to generate, with its Rust name (e.g. `Example`, `AnonMap`, `Mode`).
#[derive(Debug)]
pub struct Node<'a> {
    pub name: String,
    pub node_type: NodeType<'a>,
}

impl<'a> Node<'a> {
    /// The Rust name.
    pub fn name(&self) -> (r: &str)
        ensures
            r@ == self.name@,
    {
        self.name.as_str()
    }
}

} // verus!
