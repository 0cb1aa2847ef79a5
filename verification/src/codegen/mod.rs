//! Options of code generation, and the build-script builder.
pub mod build_script;
pub mod node;

use vstd::prelude::*;

use crate::utils::text::{owned, str_views, string_views, to_strings};

verus! {

/// What code generation is asked to do beyond its defaults, each request in the order made.
#[derive(Debug)]
pub struct CodegenOptions {
    /// Attributes to add to generated types: type identifier, attribute.
    pub type_attributes: Vec<(String, String)>,
    /// Attributes to add to generated fields: `Type.field`, attribute.
    pub field_attributes: Vec<(String, String)>,
    /// Fields to generate as enums: `Type.field`, variants.
    pub enums: Vec<(String, Vec<String>)>,
    /// Fields to generate as opaque values: `Type.field`.
    pub opaque_fields: Vec<String>,
}

/// Pairs of strings as pairs of texts.
pub open spec fn string_pairs(v: Seq<(String, String)>) -> Seq<(Seq<char>, Seq<char>)> {
    Seq::new(v.len(), |i: int| (v[i].0@, v[i].1@))
}

/// Enum requests as texts.
pub open spec fn enum_views(v: Seq<(String, Vec<String>)>) -> Seq<(Seq<char>, Seq<Seq<char>>)> {
    Seq::new(v.len(), |i: int| (v[i].0@, string_views(v[i].1@)))
}

impl Default for CodegenOptions {
    /// No request.
    fn default() -> (r: Self)
        ensures
            r.type_attributes@.len() == 0,
            r.field_attributes@.len() == 0,
            r.enums@.len() == 0,
            r.opaque_fields@.len() == 0,
    {
        CodegenOptions {
            type_attributes: Vec::new(),
            field_attributes: Vec::new(),
            enums: Vec::new(),
            opaque_fields: Vec::new(),
        }
    }
}

impl CodegenOptions {
    /// Asks for an attribute on a generated type.
    pub fn type_attribute(self, ident: &str, value: &str) -> (r: Self)
        ensures
            string_pairs(r.type_attributes@) == string_pairs(self.type_attributes@).push(
                (ident@, value@),
            ),
            r.field_attributes == self.field_attributes,
            r.enums == self.enums,
            r.opaque_fields == self.opaque_fields,
    {
        let mut this = self;
        let ghost before = this.type_attributes@;
        this.type_attributes.push((owned(ident), owned(value)));
        assert(string_pairs(this.type_attributes@) =~= string_pairs(before).push((ident@, value@)));
        this
    }

    /// Asks for an attribute on a generated field.
    pub fn field_attribute(self, ident: &str, value: &str) -> (r: Self)
        ensures
            string_pairs(r.field_attributes@) == string_pairs(self.field_attributes@).push(
                (ident@, value@),
            ),
            r.type_attributes == self.type_attributes,
            r.enums == self.enums,
            r.opaque_fields == self.opaque_fields,
    {
        let mut this = self;
        let ghost before = this.field_attributes@;
        this.field_attributes.push((owned(ident), owned(value)));
        assert(string_pairs(this.field_attributes@) =~= string_pairs(before).push(
            (ident@, value@),
        ));
        this
    }

    /// Asks for a field to be generated as an enum with the given variants.
    pub fn as_enum(self, ident: &str, variants: &[&str]) -> (r: Self)
        ensures
            enum_views(r.enums@) == enum_views(self.enums@).push((ident@, str_views(variants@))),
            r.type_attributes == self.type_attributes,
            r.field_attributes == self.field_attributes,
            r.opaque_fields == self.opaque_fields,
    {
        let mut this = self;
        let ghost before = this.enums@;
        this.enums.push((owned(ident), to_strings(variants)));
        assert(enum_views(this.enums@) =~= enum_views(before).push((ident@, str_views(variants@))));
        this
    }

    /// Asks for a field to be generated as an opaque value.
    pub fn opaque(self, ident: &str) -> (r: Self)
        ensures
            string_views(r.opaque_fields@) == string_views(self.opaque_fields@).push(ident@),
            r.type_attributes == self.type_attributes,
            r.field_attributes == self.field_attributes,
            r.enums == self.enums,
    {
        let mut this = self;
        let ghost before = this.opaque_fields@;
        this.opaque_fields.push(owned(ident));
        assert(string_views(this.opaque_fields@) =~= string_views(before).push(ident@));
        this
    }
}

} // verus!
