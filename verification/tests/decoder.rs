use rpkl::api::pkl_eval_module;
use rpkl::decoder::{decode_module, decode_module_bytes};
use rpkl::decoder::primitive::{decode_int, decode_primitive, decode_string};
use rpkl::decoder::structs::{decode_object_member, object_member, DecodeFailure};
use rpkl::internal::types::PklPrimitive;
use rpkl::msgpack::MsgValue;
use rpkl::pkl::pkl_mod::PklMod;
use rpkl::pkl::serializer::{serialize_members, PklSerialize};
use rpkl::value::{DataSizeUnit, DurationUnit, FloatValue, Integer, PklValue};
use rpkl::Error;

fn s(text: &str) -> MsgValue {
    MsgValue::String(text.as_bytes().to_vec())
}

fn uint(n: u64) -> MsgValue {
    MsgValue::PosInt(n)
}

fn member(ident: &str, value: MsgValue) -> MsgValue {
    MsgValue::Array(vec![uint(16), s(ident), value])
}

fn example_module() -> MsgValue {
    MsgValue::Array(vec![
        uint(1),
        s("example"),
        s("file:///Users/testing/rpkl/examples/example.pkl"),
        MsgValue::Array(vec![
            member("ip", s("127.0.0.1")),
            member("port", uint(8080)),
            member(
                "birds",
                MsgValue::Array(vec![
                    uint(5),
                    MsgValue::Array(vec![s("Pigeon"), s("Hawk"), s("Penguin")]),
                ]),
            ),
            member(
                "database",
                MsgValue::Array(vec![
                    uint(1),
                    s("Dynamic"),
                    s("pkl:base"),
                    MsgValue::Array(vec![
                        member("username", s("admin")),
                        member("password", s("secret")),
                    ]),
                ]),
            ),
        ]),
    ])
}

#[test]
fn decode_int_positive_is_pos_variant() {
    let val = MsgValue::PosInt(8080);
    let result = decode_int(&val).unwrap();
    assert!(
        matches!(result, PklPrimitive::Int(Integer::Pos(8080))),
        "expected Integer::Pos(8080), got {result:?}"
    );
}

#[test]
fn decode_int_zero_is_pos_variant() {
    let val = MsgValue::PosInt(0);
    let result = decode_int(&val).unwrap();
    assert!(matches!(result, PklPrimitive::Int(Integer::Pos(0))));
}

#[test]
fn decode_int_negative_is_neg_variant() {
    let val = MsgValue::NegInt(-42);
    let result = decode_int(&val).unwrap();
    assert!(matches!(result, PklPrimitive::Int(Integer::Neg(-42))));
}

#[test]
fn decode_int_large_u64_is_pos_variant() {
    let large: u64 = u64::MAX;
    let val = MsgValue::PosInt(large);
    let result = decode_int(&val).unwrap();
    assert!(matches!(result, PklPrimitive::Int(Integer::Pos(u64::MAX))));
}

#[test]
fn decode_int_float_becomes_float() {
    let val = MsgValue::F64(1.5f64.to_bits());
    let result = decode_int(&val).unwrap();
    assert_eq!(result, PklPrimitive::Float(FloatValue::Bits64(1.5f64.to_bits())));
}

#[test]
fn decode_int_rejects_string() {
    assert!(decode_int(&s("1")).is_err());
}

#[test]
fn decode_string_needs_utf8() {
    assert_eq!(decode_string(&s("héllo")).unwrap(), PklPrimitive::String("héllo".to_string()));
    let bad = MsgValue::String(vec![0xff, 0xfe]);
    assert!(matches!(decode_string(&bad), Err(Error::DecodeError(_))));
}

#[test]
fn decode_primitive_kinds() {
    assert_eq!(decode_primitive(&MsgValue::Nil).unwrap(), PklPrimitive::Null);
    assert_eq!(decode_primitive(&MsgValue::Boolean(true)).unwrap(), PklPrimitive::Boolean(true));
    assert_eq!(
        decode_primitive(&MsgValue::F32(2.0f32.to_bits())).unwrap(),
        PklPrimitive::Float(FloatValue::Bits32(2.0f32.to_bits()))
    );
    assert!(decode_primitive(&MsgValue::Binary(vec![1])).is_err());
}

#[test]
fn decode_example_module() {
    let pkl_mod = pkl_eval_module(&example_module()).expect("failed to evaluate pkl ast");
    assert_eq!(pkl_mod.module_name(), "example");
    assert_eq!(pkl_mod.module_uri(), "file:///Users/testing/rpkl/examples/example.pkl");
    assert_eq!(pkl_mod.members().len(), 4);
    let idents: Vec<&str> = pkl_mod.members().iter().map(|m| m.get_ident()).collect();
    assert_eq!(idents, vec!["ip", "port", "birds", "database"]);

    let mapped = pkl_mod.serialize_pkl_ast().expect("failed to serialize pkl module");
    assert_eq!(mapped.len(), 4);
    assert_eq!(mapped.get("ip").unwrap().as_str(), Some("127.0.0.1"));
    assert_eq!(mapped.get("port").unwrap().as_int(), Some(&Integer::Pos(8080)));
    let birds = mapped.get("birds").unwrap().as_array().unwrap();
    assert_eq!(
        *birds,
        vec![
            PklValue::String("Pigeon".into()),
            PklValue::String("Hawk".into()),
            PklValue::String("Penguin".into())
        ]
    );
    let db = mapped.get("database").unwrap().as_map().unwrap();
    assert_eq!(db.get("username").unwrap().as_str(), Some("admin"));
    assert_eq!(db.get("password").unwrap().as_str(), Some("secret"));
}

#[test]
fn decode_module_errors() {
    assert!(matches!(decode_module(&uint(1)), Err(DecodeFailure::Rejected(Error::Message(_)))));
    let missing_uri = MsgValue::Array(vec![uint(1), s("m")]);
    match decode_module(&missing_uri) {
        Err(DecodeFailure::Rejected(Error::Message(m))) => {
            assert_eq!(m, "expected root level module uri")
        }
        other => panic!("unexpected {other:?}"),
    }
    let bad_name = MsgValue::Array(vec![uint(1), uint(2), s("u"), MsgValue::Array(vec![])]);
    match pkl_eval_module(&bad_name) {
        Err(Error::Message(m)) => assert_eq!(m, "PklMod name is not valid utf8"),
        other => panic!("unexpected {other:?}"),
    }
    let no_children = MsgValue::Array(vec![uint(1), s("m"), s("u"), uint(3)]);
    match pkl_eval_module(&no_children) {
        Err(Error::Message(m)) => assert_eq!(m, "expected array of children"),
        other => panic!("unexpected {other:?}"),
    }
}

#[test]
fn decode_empty_module() {
    let m = MsgValue::Array(vec![uint(1), s("m"), s("u"), MsgValue::Array(vec![])]);
    let pkl_mod = pkl_eval_module(&m).unwrap();
    assert_eq!(pkl_mod.members().len(), 0);
}

#[test]
fn decode_member_not_an_array_is_an_error() {
    let m = MsgValue::Array(vec![uint(1), s("m"), s("u"), MsgValue::Array(vec![uint(7)])]);
    match pkl_eval_module(&m) {
        Err(Error::Message(msg)) => assert_eq!(msg, "expected array for pkl module member"),
        other => panic!("unexpected {other:?}"),
    }
    let typed = MsgValue::Array(vec![uint(1), s("T"), s("u"), MsgValue::Array(vec![uint(7)])]);
    match decode_object_member(&[uint(16), s("x"), typed]) {
        Err(Error::DecodeError(msg)) => assert_eq!(msg, "expected array for object member"),
        other => panic!("unexpected {other:?}"),
    }
}

#[test]
fn decode_member_failure_is_prefixed() {
    let m = MsgValue::Array(vec![
        uint(1),
        s("m"),
        s("u"),
        MsgValue::Array(vec![MsgValue::Array(vec![uint(99), s("x"), uint(1)])]),
    ]);
    match pkl_eval_module(&m) {
        Err(Error::Message(msg)) => assert_eq!(
            msg,
            "failed to parse pkl object member: unexpected type id when decoding object member, got: 99"
        ),
        other => panic!("unexpected {other:?}"),
    }
}

#[test]
fn decode_type_alias_aborts() {
    let alias = MsgValue::Array(vec![uint(13), s("T")]);
    let data = vec![uint(16), s("x"), alias];
    assert!(matches!(object_member(&data), Err(DecodeFailure::Aborts)));
}

#[test]
fn decode_missing_member_value_is_rejected() {
    let short = vec![uint(16), s("x")];
    assert!(matches!(object_member(&short), Err(DecodeFailure::Rejected(_))));
}

#[test]
fn decode_missing_typed_slot_aborts() {
    let typed = MsgValue::Array(vec![uint(1), s("Name")]);
    let data = vec![uint(16), s("x"), typed];
    assert!(matches!(object_member(&data), Err(DecodeFailure::Aborts)));
}

#[test]
fn decode_object_member_values() {
    let data = vec![uint(16), s("d"), MsgValue::Array(vec![uint(7), MsgValue::F64(2.5f64.to_bits()), s("min")])];
    let m = decode_object_member(&data).unwrap();
    assert_eq!(m.get_ident(), "d");
    match m.1 {
        PklValue::Duration(d) => {
            assert_eq!(d.unit, DurationUnit::Minutes);
            assert_eq!(d.value, FloatValue::Bits64(2.5f64.to_bits()));
        }
        other => panic!("unexpected {other:?}"),
    }

    let data = vec![uint(16), s("size"), MsgValue::Array(vec![uint(8), MsgValue::PosInt(3), s("mb")])];
    let m = decode_object_member(&data).unwrap();
    match m.1 {
        PklValue::DataSize(d) => assert_eq!(d.unit, DataSizeUnit::Megabytes),
        other => panic!("unexpected {other:?}"),
    }

    let data = vec![uint(16), s("unit"), MsgValue::Array(vec![uint(8), MsgValue::PosInt(3), s("parsecs")])];
    assert!(decode_object_member(&data).is_err());

    let data = vec![uint(16), s("r"), MsgValue::Array(vec![uint(10), uint(1), uint(5), uint(1)])];
    let m = decode_object_member(&data).unwrap();
    assert_eq!(m.1, PklValue::Range(1..5));

    let data = vec![uint(16), s("re"), MsgValue::Array(vec![uint(11), s("a+")])];
    assert_eq!(decode_object_member(&data).unwrap().1, PklValue::Regex("a+".into()));

    let data = vec![uint(16), s("b"), MsgValue::Array(vec![uint(15), MsgValue::Binary(vec![1, 2, 3])])];
    assert_eq!(decode_object_member(&data).unwrap().1, PklValue::Bytes(vec![1, 2, 3]));

    let data = vec![uint(16), s("p"), MsgValue::Array(vec![uint(9), uint(1), s("two")])];
    assert_eq!(
        decode_object_member(&data).unwrap().1,
        PklValue::Pair(Box::new(PklValue::Int(Integer::Pos(1))), Box::new(PklValue::String("two".into())))
    );
}

#[test]
fn decode_mapping_keeps_last_value_in_first_place() {
    let pairs = vec![
        (s("a"), uint(1)),
        (s("b"), uint(2)),
        (s("a"), uint(3)),
    ];
    let data = vec![uint(16), s("m"), MsgValue::Array(vec![uint(3), MsgValue::Pairs(pairs)])];
    let m = decode_object_member(&data).unwrap();
    let map = m.1.as_map().unwrap();
    assert_eq!(map.len(), 2);
    assert_eq!(map.entries()[0].0, "a");
    assert_eq!(map.get("a").unwrap().as_int(), Some(&Integer::Pos(3)));
    assert_eq!(map.get("b").unwrap().as_int(), Some(&Integer::Pos(2)));
}

#[test]
fn serialize_members_last_member_wins() {
    let members = vec![
        rpkl::internal::types::ObjectMember("x".into(), PklValue::Int(Integer::Pos(1))),
        rpkl::internal::types::ObjectMember("y".into(), PklValue::Boolean(true)),
        rpkl::internal::types::ObjectMember("x".into(), PklValue::Null),
    ];
    let map = serialize_members(members);
    assert_eq!(map.len(), 2);
    assert_eq!(map.get("x"), Some(&PklValue::Null));
    assert_eq!(map.get("y"), Some(&PklValue::Boolean(true)));
    assert_eq!(map.get("z"), None);
}

#[test]
fn pkl_mod_accessors() {
    let m = PklMod::new("name".into(), "uri".into(), vec![]);
    assert_eq!(m.module_name(), "name");
    assert_eq!(m.module_uri(), "uri");
    assert!(m.into_members().is_empty());
}

#[test]
fn decode_unknown_type_names_its_code() {
    let data = vec![uint(16), s("x"), MsgValue::Array(vec![uint(77)])];
    match decode_object_member(&data) {
        Err(Error::Message(msg)) => assert_eq!(
            msg,
            "unexpected type id when decoding non-primitive value, got: 77 (needs to be implemented)"
        ),
        other => panic!("unexpected {other:?}"),
    }
    let no_value = vec![uint(16), s("x")];
    match decode_object_member(&no_value) {
        Err(Error::Message(msg)) => assert_eq!(msg, "[decode_object_generic] expected value"),
        other => panic!("unexpected {other:?}"),
    }
    match decode_object_member(&[]) {
        Err(Error::DecodeError(msg)) => assert_eq!(msg, "empty data for object"),
        other => panic!("unexpected {other:?}"),
    }
}

fn duration_member(amount: MsgValue, unit: &str) -> Vec<MsgValue> {
    vec![uint(16), s("d"), MsgValue::Array(vec![uint(7), amount, s(unit)])]
}

#[test]
fn decode_invalid_duration_amounts() {
    for amount in [
        MsgValue::F64((-1.5f64).to_bits()),
        MsgValue::F64(f64::NAN.to_bits()),
        MsgValue::F64(f64::INFINITY.to_bits()),
        MsgValue::F32((-2.0f32).to_bits()),
        MsgValue::NegInt(-3),
    ] {
        match decode_object_member(&duration_member(amount, "s")) {
            Err(Error::DecodeError(m)) => assert_eq!(m, "invalid duration value"),
            other => panic!("unexpected {other:?}"),
        }
    }
    let m = decode_object_member(&duration_member(MsgValue::F64((-0.0f64).to_bits()), "s")).unwrap();
    assert!(matches!(m.1, PklValue::Duration(_)));
    let m = decode_object_member(&duration_member(MsgValue::PosInt(4), "h")).unwrap();
    assert!(matches!(m.1, PklValue::Duration(_)));
}

#[test]
fn decode_unknown_duration_unit() {
    match decode_object_member(&duration_member(MsgValue::PosInt(1), "weeks")) {
        Err(Error::DecodeError(m)) => assert_eq!(m, "unknown duration unit: \"weeks\""),
        other => panic!("unexpected {other:?}"),
    }
}

#[test]
fn decode_module_member_error_is_message() {
    let bad = MsgValue::Array(vec![uint(16), s("d"), MsgValue::Array(vec![uint(7), MsgValue::NegInt(-1), s("s")])]);
    let m = MsgValue::Array(vec![uint(1), s("m"), s("u"), MsgValue::Array(vec![bad])]);
    match pkl_eval_module(&m) {
        Err(Error::Message(msg)) => {
            assert_eq!(msg, "failed to parse pkl object member: invalid duration value")
        }
        other => panic!("unexpected {other:?}"),
    }
}

#[test]
fn decode_duration_overflow_is_refused() {
    let refused = |amount: f64, unit: &str| {
        matches!(
            decode_object_member(&duration_member(MsgValue::F64(amount.to_bits()), unit)),
            Err(Error::DecodeError(m)) if m == "invalid duration value"
        )
    };
    assert!(refused(1e300, "d"));
    assert!(!refused(1e300, "ns"));
    assert!(!refused(1e300, "us"));
    assert!(refused(1e306, "us"));
    assert!(!refused(1e290, "d"));
    let days = 0x7d0a_0fff_dbd2_3e52u64;
    assert!(refused(f64::from_bits(days), "d"));
    assert!(!refused(f64::from_bits(days - 1), "d"));
    assert!((f64::from_bits(days) * 86_400.0 * 1_000_000_000.0).is_infinite());
    assert!((f64::from_bits(days - 1) * 86_400.0 * 1_000_000_000.0).is_finite());
    let seconds = 0x7e11_2e0b_e826_d695u64;
    assert!(refused(f64::from_bits(seconds), "s"));
    assert!(!refused(f64::from_bits(seconds - 1), "s"));
}

fn to_rmpv(v: &MsgValue) -> rmpv::Value {
    match v {
        MsgValue::PosInt(n) => rmpv::Value::from(*n),
        MsgValue::String(b) => rmpv::Value::from(String::from_utf8(b.clone()).unwrap()),
        MsgValue::Array(items) => rmpv::Value::Array(items.iter().map(to_rmpv).collect()),
        other => panic!("not used here: {other:?}"),
    }
}

#[test]
fn decode_module_from_bytes() {
    let module = MsgValue::Array(vec![
        uint(1),
        s("m"),
        s("file:///m.pkl"),
        MsgValue::Array(vec![member("port", uint(8080)), member("host", s("h"))]),
    ]);
    let mut bytes = Vec::new();
    rmpv::encode::write_value(&mut bytes, &to_rmpv(&module)).unwrap();
    let from_bytes = decode_module_bytes(&bytes).unwrap();
    let from_value = decode_module(&module).unwrap();
    assert_eq!(from_bytes.module_name(), from_value.module_name());
    assert_eq!(from_bytes.module_uri(), "file:///m.pkl");
    assert_eq!(from_bytes.members(), from_value.members());
    assert_eq!(from_bytes.module_name(), "m");

    match decode_module_bytes(&[]) {
        Err(DecodeFailure::Rejected(Error::MsgpackDecodeError(_))) => {}
        other => panic!("unexpected {other:?}"),
    }
    let mut not_module = Vec::new();
    rmpv::encode::write_value(&mut not_module, &rmpv::Value::from(5u64)).unwrap();
    match decode_module_bytes(&not_module) {
        Err(DecodeFailure::Rejected(Error::Message(m))) => assert_eq!(m, "expected root array for pkl module"),
        other => panic!("unexpected {other:?}"),
    }
}
