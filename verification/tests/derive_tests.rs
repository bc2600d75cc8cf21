//! Tests of the declaration of frame types: attributes, types, strategies.

use racing_coach_client::pitwall::frame_adapter::{
    generate_frame_adapter, DataShape, StructDecl,
};
use racing_coach_client::pitwall::frame_derive::{
    decide_strategy, extract_option_type, parse_attribute, parse_bitfield_attr,
    parse_field_strategy, scan_pairs, summarize_attrs, wire_type, AttrSummary, AttributeValue,
    BitfieldAttr, DeriveError, FieldAttr, FieldDecl, FieldStrategy, FieldType, GenericArg,
    MetaValue, NameValue, ParsedExprs, TypePath,
};
use racing_coach_client::pitwall::schema::VariableType;

fn lit(s: &str) -> MetaValue {
    MetaValue::Str(s.to_string())
}

fn name_value(name: &str, value: &str) -> FieldAttr {
    FieldAttr::NameValue { name: name.to_string(), value: lit(value) }
}

fn path(name: &str) -> FieldAttr {
    FieldAttr::Path { name: name.to_string() }
}

fn pair(name: &str, value: &str) -> NameValue {
    NameValue { name: name.to_string(), value: lit(value) }
}

fn list(name: &str, pairs: Vec<NameValue>) -> FieldAttr {
    FieldAttr::List { name: name.to_string(), pairs: Some(pairs) }
}

fn plain_type(text: &str) -> FieldType {
    FieldType {
        text: text.to_string(),
        path: Some(TypePath { segments: vec![text.to_string()], angle_args: None }),
    }
}

fn option_type(inner: &str) -> FieldType {
    FieldType {
        text: format!("Option < {} >", inner),
        path: Some(TypePath {
            segments: vec!["Option".to_string()],
            angle_args: Some(vec![GenericArg::Type(inner.to_string())]),
        }),
    }
}

fn field(ident: &str, ty: FieldType, attrs: Vec<FieldAttr>) -> FieldDecl {
    FieldDecl { ident: Some(ident.to_string()), ty, attrs }
}

#[test]
fn test_parse_attribute_kinds() {
    assert!(matches!(
        parse_attribute(&name_value("field_name", "Speed")),
        Ok(AttributeValue::FieldName(s)) if s == "Speed"
    ));
    assert!(matches!(
        parse_attribute(&name_value("missing", "50.0")),
        Ok(AttributeValue::Missing(s)) if s == "50.0"
    ));
    assert!(matches!(
        parse_attribute(&name_value("calculated", "42")),
        Ok(AttributeValue::Calculated(s)) if s == "42"
    ));
    assert!(matches!(parse_attribute(&path("fail_if_missing")), Ok(AttributeValue::FailIfMissing)));
    assert!(matches!(parse_attribute(&path("skip")), Ok(AttributeValue::Skip)));
}

#[test]
fn test_parse_attribute_errors() {
    let not_string = |name: &str| FieldAttr::NameValue {
        name: name.to_string(),
        value: MetaValue::Other,
    };
    assert_eq!(
        parse_attribute(&not_string("field_name")).unwrap_err(),
        DeriveError::FieldNameNotString
    );
    assert_eq!(parse_attribute(&not_string("missing")).unwrap_err(), DeriveError::MissingNotString);
    assert_eq!(
        parse_attribute(&not_string("calculated")).unwrap_err(),
        DeriveError::CalculatedNotString
    );
    assert_eq!(
        parse_attribute(&name_value("default", "1")).unwrap_err(),
        DeriveError::DefaultReserved
    );
    assert_eq!(
        parse_attribute(&name_value("other", "1")).unwrap_err(),
        DeriveError::UnknownAttribute
    );
    assert_eq!(parse_attribute(&path("derive")).unwrap_err(), DeriveError::UnknownAttribute);
    assert_eq!(
        parse_attribute(&list("bitfield", vec![])).unwrap_err(),
        DeriveError::UnknownAttribute
    );
}

#[test]
fn test_derive_error_messages() {
    assert_eq!(DeriveError::FieldNameNotString.message(), "field_name must be a string literal");
    assert_eq!(
        DeriveError::MissingFieldName.message(),
        "Missing #[field_name = \"...\"] attribute. Use #[skip] for non-telemetry fields."
    );
    assert_eq!(
        DeriveError::DefaultReserved.message(),
        "`#[default = ...]` is reserved by Rust when deriving Default. Use `#[missing = ...]` instead."
    );
    assert_eq!(
        DeriveError::BitfieldHasNeedsBool.message(),
        "#[bitfield(..., has = ...)] requires field type bool or Option<bool>"
    );
    assert_eq!(DeriveError::OnlyStructs.message(), "Only structs are supported");
    assert_eq!(DeriveError::OnlyNamedFields.message(), "Only named fields are supported");
    assert_eq!(
        DeriveError::BitfieldMapRequiresDecoder.message(),
        "bitfield_map requires decoder = \"path\""
    );
}

#[test]
fn test_summarize_attrs_last_wins_and_errors_pass() {
    let attrs = vec![
        name_value("field_name", "Speed"),
        name_value("default", "1"),
        name_value("missing", "1.0"),
        name_value("field_name", "GroundSpeed"),
        path("fail_if_missing"),
        path("doc"),
    ];
    let s = summarize_attrs(&attrs);
    assert_eq!(s.field_name.as_deref(), Some("GroundSpeed"));
    assert_eq!(s.default_value.as_deref(), Some("1.0"));
    assert!(s.fail_if_missing);
    assert!(!s.skip);
    assert!(s.calculated.is_none());
}

#[test]
fn test_scan_pairs() {
    let ok = scan_pairs(
        &vec![pair("name", "Flags"), pair("extra", "x"), pair("has", "A"), pair("has", "B")],
        "has",
        DeriveError::BitfieldNameNotString,
        DeriveError::BitfieldHasNotString,
    );
    assert_eq!(ok, Ok((Some("Flags".to_string()), Some("B".to_string()))));
    let bad = scan_pairs(
        &vec![
            pair("name", "Flags"),
            NameValue { name: "has".to_string(), value: MetaValue::Other },
            NameValue { name: "name".to_string(), value: MetaValue::Other },
        ],
        "has",
        DeriveError::BitfieldNameNotString,
        DeriveError::BitfieldHasNotString,
    );
    assert_eq!(bad, Err(DeriveError::BitfieldHasNotString));
}

#[test]
fn test_parse_bitfield_attr() {
    let f = field(
        "abs",
        plain_type("bool"),
        vec![
            name_value("field_name", "x"),
            list("other", vec![]),
            list("bitfield", vec![pair("name", "EngineWarnings"), pair("has", "ABS_ACTIVE")]),
            list("bitfield_map", vec![]),
        ],
    );
    match parse_bitfield_attr(&f) {
        Ok(Some(BitfieldAttr::Has { name, mask })) => {
            assert_eq!(name, "EngineWarnings");
            assert_eq!(mask, "ABS_ACTIVE");
        }
        other => panic!("unexpected {:?}", other),
    }
    let f = field(
        "flags",
        plain_type("Flags"),
        vec![list("bitfield_map", vec![pair("decoder", "Flags::from"), pair("name", "Session")])],
    );
    match parse_bitfield_attr(&f) {
        Ok(Some(BitfieldAttr::MapWith { name, decoder })) => {
            assert_eq!(name, "Session");
            assert_eq!(decoder, "Flags::from");
        }
        other => panic!("unexpected {:?}", other),
    }
    let none = field("speed", plain_type("f32"), vec![name_value("field_name", "Speed")]);
    assert!(matches!(parse_bitfield_attr(&none), Ok(None)));
}

#[test]
fn test_parse_bitfield_attr_errors() {
    let with = |attr: FieldAttr| field("x", plain_type("bool"), vec![attr]);
    let err = |attr: FieldAttr| parse_bitfield_attr(&with(attr)).unwrap_err();
    assert_eq!(err(list("bitfield", vec![pair("has", "A")])), DeriveError::BitfieldRequiresName);
    assert_eq!(err(list("bitfield", vec![pair("name", "A")])), DeriveError::BitfieldRequiresHas);
    assert_eq!(
        err(list("bitfield_map", vec![pair("decoder", "d")])),
        DeriveError::BitfieldMapRequiresName
    );
    assert_eq!(
        err(list("bitfield_map", vec![pair("name", "A")])),
        DeriveError::BitfieldMapRequiresDecoder
    );
    assert_eq!(
        err(list(
            "bitfield",
            vec![NameValue { name: "name".to_string(), value: MetaValue::Other }]
        )),
        DeriveError::BitfieldNameNotString
    );
    assert_eq!(
        err(list(
            "bitfield_map",
            vec![NameValue { name: "decoder".to_string(), value: MetaValue::Other }]
        )),
        DeriveError::BitfieldMapDecoderNotString
    );
    assert_eq!(
        err(list(
            "bitfield_map",
            vec![NameValue { name: "name".to_string(), value: MetaValue::Other }]
        )),
        DeriveError::BitfieldMapNameNotString
    );
    assert_eq!(
        err(FieldAttr::List { name: "bitfield".to_string(), pairs: None }),
        DeriveError::MalformedList
    );
}

#[test]
fn test_extract_option_type() {
    assert_eq!(extract_option_type(&option_type("i32")), Some("i32".to_string()));
    assert_eq!(extract_option_type(&plain_type("i32")), None);
    let qualified = FieldType {
        text: "std :: option :: Option < f32 >".to_string(),
        path: Some(TypePath {
            segments: vec!["std".to_string(), "option".to_string(), "Option".to_string()],
            angle_args: Some(vec![GenericArg::Type("f32".to_string())]),
        }),
    };
    assert_eq!(extract_option_type(&qualified), Some("f32".to_string()));
    let bare = FieldType {
        text: "Option".to_string(),
        path: Some(TypePath { segments: vec!["Option".to_string()], angle_args: None }),
    };
    assert_eq!(extract_option_type(&bare), None);
    let lifetime = FieldType {
        text: "Option < 'a >".to_string(),
        path: Some(TypePath {
            segments: vec!["Option".to_string()],
            angle_args: Some(vec![GenericArg::Other, GenericArg::Type("u8".to_string())]),
        }),
    };
    assert_eq!(extract_option_type(&lifetime), None);
    let tuple = FieldType { text: "(f32, f32)".to_string(), path: None };
    assert_eq!(extract_option_type(&tuple), None);
}

#[test]
fn test_wire_type() {
    assert_eq!(wire_type("f32"), Some(VariableType::Float));
    assert_eq!(wire_type("f64"), Some(VariableType::Double));
    assert_eq!(wire_type("i32"), Some(VariableType::Int));
    assert_eq!(wire_type("bool"), Some(VariableType::Bool));
    assert_eq!(wire_type("u8"), Some(VariableType::Char));
    assert_eq!(wire_type("u32"), Some(VariableType::BitField));
    assert_eq!(wire_type("BitField"), Some(VariableType::BitField));
    assert_eq!(wire_type("String"), None);
}

#[test]
fn test_field_strategies() {
    let s = parse_field_strategy(&field(
        "speed",
        plain_type("f32"),
        vec![name_value("field_name", "Speed")],
    ))
    .unwrap();
    match s {
        FieldStrategy::TypeDefault { field_name, field_ident, field_type } => {
            assert_eq!(field_name, "Speed");
            assert_eq!(field_ident, "speed");
            assert_eq!(field_type.text, "f32");
            assert_eq!(field_type.wire, Some(VariableType::Float));
        }
        other => panic!("unexpected {:?}", other),
    }
    let s = parse_field_strategy(&field(
        "gear",
        option_type("i32"),
        vec![name_value("field_name", "Gear")],
    ))
    .unwrap();
    match s {
        FieldStrategy::Optional { field_name, inner_type, .. } => {
            assert_eq!(field_name, "Gear");
            assert_eq!(inner_type.wire, Some(VariableType::Int));
        }
        other => panic!("unexpected {:?}", other),
    }
    let s = parse_field_strategy(&field(
        "temp",
        option_type("f32"),
        vec![name_value("field_name", "Temp"), path("fail_if_missing")],
    ))
    .unwrap();
    assert!(matches!(s, FieldStrategy::Critical { .. }));
    let s = parse_field_strategy(&field(
        "last_lap_time",
        plain_type("f32"),
        vec![path("skip"), name_value("calculated", "1 +")],
    ))
    .unwrap();
    assert!(matches!(s, FieldStrategy::Skipped { .. }));
}

#[test]
fn test_expressions_are_parsed_and_printed_again() {
    let s = parse_field_strategy(&field(
        "fuel",
        plain_type("f32"),
        vec![name_value("field_name", "FuelLevel"), name_value("missing", "a+b*2")],
    ))
    .unwrap();
    match s {
        FieldStrategy::WithDefault { default_expr, .. } => assert_eq!(default_expr, "a + b * 2"),
        other => panic!("unexpected {:?}", other),
    }
    let s = parse_field_strategy(&field(
        "timestamp",
        plain_type("Instant"),
        vec![name_value("calculated", "Speed*3.6")],
    ))
    .unwrap();
    match s {
        FieldStrategy::Calculated { expression, expression_str, field_type, .. } => {
            assert_eq!(expression, "Speed * 3.6");
            assert_eq!(expression_str, "Speed*3.6");
            assert_eq!(field_type.wire, None);
        }
        other => panic!("unexpected {:?}", other),
    }
}

#[test]
fn test_field_strategy_errors() {
    let err = |f: FieldDecl| parse_field_strategy(&f).unwrap_err();
    assert_eq!(
        err(FieldDecl { ident: None, ty: plain_type("f32"), attrs: vec![path("skip")] }),
        DeriveError::FieldMustHaveName
    );
    assert_eq!(err(field("speed", plain_type("f32"), vec![])), DeriveError::MissingFieldName);
    assert_eq!(
        err(field("x", plain_type("f32"), vec![name_value("calculated", "1 +")])),
        DeriveError::InvalidExpression
    );
    assert_eq!(
        err(field(
            "x",
            plain_type("f32"),
            vec![name_value("field_name", "X"), name_value("missing", "let")]
        )),
        DeriveError::InvalidExpression
    );
    // A missing name comes before an invalid default.
    assert_eq!(
        err(field("x", plain_type("f32"), vec![name_value("missing", "let")])),
        DeriveError::MissingFieldName
    );
    // A critical field never reads its default.
    assert!(parse_field_strategy(&field(
        "x",
        plain_type("f32"),
        vec![name_value("field_name", "X"), name_value("missing", "let"), path("fail_if_missing")]
    ))
    .is_ok());
}

#[test]
fn test_bitfield_strategies() {
    let has = list("bitfield", vec![pair("name", "EngineWarnings"), pair("has", "Flags::ABS")]);
    let s = parse_field_strategy(&field(
        "abs",
        option_type("bool"),
        vec![has, path("fail_if_missing")],
    ))
    .unwrap();
    match s {
        FieldStrategy::BitfieldHas {
            field_name,
            target_is_option,
            default_expr,
            fail_if_missing,
            mask_expr,
            ..
        } => {
            assert_eq!(field_name, "EngineWarnings");
            assert!(target_is_option);
            assert!(default_expr.is_none());
            assert!(fail_if_missing);
            assert_eq!(mask_expr, "Flags :: ABS");
        }
        other => panic!("unexpected {:?}", other),
    }
    let has = list("bitfield", vec![pair("name", "EngineWarnings"), pair("has", "Flags::ABS")]);
    assert_eq!(
        parse_field_strategy(&field("abs", plain_type("i32"), vec![has])).unwrap_err(),
        DeriveError::BitfieldHasNeedsBool
    );
    let map = list("bitfield_map", vec![pair("name", "SessionFlags"), pair("decoder", "decode")]);
    let s = parse_field_strategy(&field(
        "flags",
        plain_type("Flags"),
        vec![map, name_value("missing", "Flags::empty()")],
    ))
    .unwrap();
    match s {
        FieldStrategy::BitfieldMap { default_expr, decoder_expr, target_is_option, .. } => {
            assert_eq!(default_expr.as_deref(), Some("Flags :: empty ()"));
            assert_eq!(decoder_expr, "decode");
            assert!(!target_is_option);
        }
        other => panic!("unexpected {:?}", other),
    }
    let map = list("bitfield_map", vec![pair("name", "SessionFlags"), pair("decoder", "fn")]);
    assert_eq!(
        parse_field_strategy(&field("flags", plain_type("Flags"), vec![map])).unwrap_err(),
        DeriveError::InvalidExpression
    );
}

#[test]
fn test_decide_strategy_takes_the_parsed_expressions() {
    let f = field("fuel", plain_type("f32"), vec![]);
    let summary = AttrSummary {
        field_name: Some("FuelLevel".to_string()),
        default_value: Some("100.0".to_string()),
        fail_if_missing: false,
        calculated: None,
        skip: false,
    };
    let parsed = ParsedExprs {
        bit_expr: None,
        default_expr: Some("100.0".to_string()),
        calculated: None,
    };
    assert!(matches!(
        decide_strategy(&f, None, &summary, &parsed),
        Ok(FieldStrategy::WithDefault { .. })
    ));
    let unparsed = ParsedExprs { bit_expr: None, default_expr: None, calculated: None };
    assert_eq!(
        decide_strategy(&f, None, &summary, &unparsed).unwrap_err(),
        DeriveError::InvalidExpression
    );
}

#[test]
fn test_generate_frame_adapter() {
    let decl = StructDecl {
        ident: "CarData".to_string(),
        data: DataShape::Named(vec![
            field("speed", plain_type("f32"), vec![name_value("field_name", "Speed")]),
            field("gear", option_type("i32"), vec![name_value("field_name", "Gear")]),
            field("note", plain_type("String"), vec![path("skip")]),
        ]),
    };
    let layout = generate_frame_adapter(&decl).unwrap();
    assert_eq!(layout.struct_name, "CarData");
    assert_eq!(layout.len(), 3);
    assert!(matches!(layout.strategies[0], FieldStrategy::TypeDefault { .. }));
    assert!(matches!(layout.strategies[1], FieldStrategy::Optional { .. }));
    assert!(matches!(layout.strategies[2], FieldStrategy::Skipped { .. }));
}

#[test]
fn test_generate_frame_adapter_errors() {
    let shape = |data: DataShape| StructDecl { ident: "X".to_string(), data };
    assert_eq!(
        generate_frame_adapter(&shape(DataShape::Unnamed)).unwrap_err(),
        DeriveError::OnlyNamedFields
    );
    assert_eq!(
        generate_frame_adapter(&shape(DataShape::Unit)).unwrap_err(),
        DeriveError::OnlyNamedFields
    );
    assert_eq!(
        generate_frame_adapter(&shape(DataShape::Enum)).unwrap_err(),
        DeriveError::OnlyStructs
    );
    assert_eq!(
        generate_frame_adapter(&shape(DataShape::Union)).unwrap_err(),
        DeriveError::OnlyStructs
    );
    // The first field at fault decides.
    let decl = shape(DataShape::Named(vec![
        field("a", plain_type("f32"), vec![name_value("field_name", "A")]),
        field("b", plain_type("f32"), vec![]),
        field("c", plain_type("f32"), vec![name_value("calculated", "1 +")]),
    ]));
    assert_eq!(generate_frame_adapter(&decl).unwrap_err(), DeriveError::MissingFieldName);
}
