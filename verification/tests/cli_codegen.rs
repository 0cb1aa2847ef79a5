use rpkl::api::evaluator::EvaluatorOptions;
use rpkl::cli::{trim_text, EnumVariantMapping, ValueMapping};
use rpkl::codegen::build_script::configure;
use rpkl::codegen::node::{EnumNode, Node, NodeType, StructNode};

#[test]
fn value_mapping_parse() {
    let m = ValueMapping::from_str("Example=#[derive(Default)]").unwrap();
    assert_eq!(m.ident, "Example");
    assert_eq!(m.value, "#[derive(Default)]");
    let m = ValueMapping::from_str("a=b=c").unwrap();
    assert_eq!((m.ident.as_str(), m.value.as_str()), ("a", "b=c"));
    assert_eq!(
        ValueMapping::from_str("no equals").unwrap_err(),
        "Invalid value mapping, expected an identifier and a value separated by `=`"
    );
}

#[test]
fn enum_variant_mapping_parse() {
    let m = EnumVariantMapping::from_str("Example.mode=Dev, Production").unwrap();
    assert_eq!(m.ident, "Example.mode");
    assert_eq!(m.variants, vec!["Dev", "Production"]);
    let m = EnumVariantMapping::from_str("x=").unwrap();
    assert_eq!(m.variants, vec![""]);
    let m = EnumVariantMapping::from_str("x= a ,,\tb\u{3000}").unwrap();
    assert_eq!(m.variants, vec!["a", "", "b"]);
    assert_eq!(EnumVariantMapping::from_str("x").unwrap_err(), "Invalid value mapping");
}

#[test]
fn trim_matches_std() {
    for t in ["", "  ", " a ", "\n\ta b\r\n", "\u{a0}x\u{2028}", "no"] {
        assert_eq!(trim_text(t), t.trim());
    }
}

#[test]
fn builder_records_requests() {
    let b = configure()
        .type_attribute("Example", "#[derive(Default)]")
        .field_attribute("Example.ip", "#[serde(rename = \"ip\")]")
        .as_enum("Example.mode", &["Dev", "Production"])
        .type_attribute("Mode", "#[derive(Default)]")
        .field_attribute("Mode.Dev", "#[default]")
        .opaque("Example.mapping")
        .evaluator_options(EvaluatorOptions::default().property("k", "v"))
        .output("generated/mod.rs")
        .rerun_if_changed(false);
    let o = &b.codegen_options;
    assert_eq!(o.type_attributes.len(), 2);
    assert_eq!(o.type_attributes[1], ("Mode".to_string(), "#[derive(Default)]".to_string()));
    assert_eq!(o.field_attributes[0].1, "#[serde(rename = \"ip\")]");
    assert_eq!(o.enums[0].1, vec!["Dev".to_string(), "Production".to_string()]);
    assert_eq!(o.opaque_fields, vec!["Example.mapping".to_string()]);
    assert_eq!(b.output.as_deref(), Some("generated/mod.rs"));
    assert!(!b.rerun_if_changed);
    assert!(b.evaluator_options.properties.is_some());
    assert!(configure().rerun_if_changed);
}

#[test]
fn node_accessors() {
    let s = NodeType::Struct(StructNode {
        _pkl_ident: "Example",
        members: &[],
        is_dependency: false,
        parent_module_name: "example",
        pub_struct: true,
    });
    assert_eq!(s.parent_module_name(), Some("example"));
    let e = NodeType::Enum(EnumNode { _pkl_ident: "Mode", _variants: vec![], _is_dependency: false });
    assert_eq!(e.parent_module_name(), None);
    let n = Node { name: "Example".into(), node_type: e };
    assert_eq!(n.name(), "Example");
}
