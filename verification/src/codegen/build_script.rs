//! Configuring code generation from a build script.
use vstd::prelude::*;

use crate::api::evaluator::{options_empty, EvaluatorOptions};
use crate::codegen::{enum_views, string_pairs, CodegenOptions};
use crate::utils::text::{owned, str_views, string_views};

verus! {

/// The configuration of code generation in a build script.
pub struct Builder {
    pub codegen_options: CodegenOptions,
    pub evaluator_options: EvaluatorOptions,
    /// Where to write the generated code; by default `mod.rs` under `OUT_DIR`.
    pub output: Option<String>,
    /// Whether the build script reruns when an input file changes.
    pub rerun_if_changed: bool,
}

/// A builder with the default configuration.
pub fn configure() -> (r: Builder)
    ensures
        r.codegen_options.type_attributes@.len() == 0,
        r.codegen_options.field_attributes@.len() == 0,
        r.codegen_options.enums@.len() == 0,
        r.codegen_options.opaque_fields@.len() == 0,
        options_empty(r.evaluator_options),
        r.output is None,
        r.rerun_if_changed,
{
    Builder::default()
}

impl Default for Builder {
    /// No codegen request, no evaluator option, the default output, and rerunning on change.
    fn default() -> (r: Self)
        ensures
            r.codegen_options.type_attributes@.len() == 0,
            r.codegen_options.field_attributes@.len() == 0,
            r.codegen_options.enums@.len() == 0,
            r.codegen_options.opaque_fields@.len() == 0,
            options_empty(r.evaluator_options),
            r.output is None,
            r.rerun_if_changed,
    {
        Builder {
            codegen_options: CodegenOptions::default(),
            evaluator_options: EvaluatorOptions::default(),
            output: None,
            rerun_if_changed: true,
        }
    }
}

impl Builder {
    /// Adds an attribute to a generated type, e.g. `Example` and `#[derive(Default)]`.
    pub fn type_attribute(self, ident: &str, value: &str) -> (r: Self)
        ensures
            string_pairs(r.codegen_options.type_attributes@) == string_pairs(
                self.codegen_options.type_attributes@,
            ).push((ident@, value@)),
            r.codegen_options.field_attributes == self.codegen_options.field_attributes,
            r.codegen_options.enums == self.codegen_options.enums,
            r.codegen_options.opaque_fields == self.codegen_options.opaque_fields,
            r.evaluator_options == self.evaluator_options,
            r.output == self.output,
            r.rerun_if_changed == self.rerun_if_changed,
    {
        Builder {
            codegen_options: self.codegen_options.type_attribute(ident, value),
            evaluator_options: self.evaluator_options,
            output: self.output,
            rerun_if_changed: self.rerun_if_changed,
        }
    }

    /// Adds an attribute to a generated field, e.g. `Mode.Dev` and `#[default]`.
    pub fn field_attribute(self, ident: &str, value: &str) -> (r: Self)
        ensures
            string_pairs(r.codegen_options.field_attributes@) == string_pairs(
                self.codegen_options.field_attributes@,
            ).push((ident@, value@)),
            r.codegen_options.type_attributes == self.codegen_options.type_attributes,
            r.codegen_options.enums == self.codegen_options.enums,
            r.codegen_options.opaque_fields == self.codegen_options.opaque_fields,
            r.evaluator_options == self.evaluator_options,
            r.output == self.output,
            r.rerun_if_changed == self.rerun_if_changed,
    {
        Builder {
            codegen_options: self.codegen_options.field_attribute(ident, value),
            evaluator_options: self.evaluator_options,
            output: self.output,
            rerun_if_changed: self.rerun_if_changed,
        }
    }

    /// Generates an enum for a field, e.g. `Example.mode` with `Dev` and `Production`.
    pub fn as_enum(self, ident: &str, variants: &[&str]) -> (r: Self)
        ensures
            enum_views(r.codegen_options.enums@) == enum_views(self.codegen_options.enums@).push(
                (ident@, str_views(variants@)),
            ),
            r.codegen_options.type_attributes == self.codegen_options.type_attributes,
            r.codegen_options.field_attributes == self.codegen_options.field_attributes,
            r.codegen_options.opaque_fields == self.codegen_options.opaque_fields,
            r.evaluator_options == self.evaluator_options,
            r.output == self.output,
            r.rerun_if_changed == self.rerun_if_changed,
    {
        Builder {
            codegen_options: self.codegen_options.as_enum(ident, variants),
            evaluator_options: self.evaluator_options,
            output: self.output,
            rerun_if_changed: self.rerun_if_changed,
        }
    }

    /// Generates an opaque value (`rpkl::Value`) for a field, e.g. `Example.mapping`.
    pub fn opaque(self, ident: &str) -> (r: Self)
        ensures
            string_views(r.codegen_options.opaque_fields@) == string_views(
                self.codegen_options.opaque_fields@,
            ).push(ident@),
            r.codegen_options.type_attributes == self.codegen_options.type_attributes,
            r.codegen_options.field_attributes == self.codegen_options.field_attributes,
            r.codegen_options.enums == self.codegen_options.enums,
            r.evaluator_options == self.evaluator_options,
            r.output == self.output,
            r.rerun_if_changed == self.rerun_if_changed,
    {
        Builder {
            codegen_options: self.codegen_options.opaque(ident),
            evaluator_options: self.evaluator_options,
            output: self.output,
            rerun_if_changed: self.rerun_if_changed,
        }
    }

    /// Sets the options of the evaluator.
    pub fn evaluator_options(self, options: EvaluatorOptions) -> (r: Self)
        ensures
            r.evaluator_options == options,
            r.codegen_options == self.codegen_options,
            r.output == self.output,
            r.rerun_if_changed == self.rerun_if_changed,
    {
        Builder {
            codegen_options: self.codegen_options,
            evaluator_options: options,
            output: self.output,
            rerun_if_changed: self.rerun_if_changed,
        }
    }

    /// Sets the path the generated code is written to.
    pub fn output(self, output: &str) -> (r: Self)
        ensures
            r.output matches Some(o) && o@ == output@,
            r.codegen_options == self.codegen_options,
            r.evaluator_options == self.evaluator_options,
            r.rerun_if_changed == self.rerun_if_changed,
    {
        Builder {
            codegen_options: self.codegen_options,
            evaluator_options: self.evaluator_options,
            output: Some(owned(output)),
            rerun_if_changed: self.rerun_if_changed,
        }
    }

    /// Sets whether the build script reruns when an input file changes.
    pub fn rerun_if_changed(self, rerun_if_changed: bool) -> (r: Self)
        ensures
            r.rerun_if_changed == rerun_if_changed,
            r.codegen_options == self.codegen_options,
            r.evaluator_options == self.evaluator_options,
            r.output == self.output,
    {
        Builder {
            codegen_options: self.codegen_options,
            evaluator_options: self.evaluator_options,
            output: self.output,
            rerun_if_changed,
        }
    }
}

} // verus!
