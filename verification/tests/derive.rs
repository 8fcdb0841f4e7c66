use siminau_rpc::codegen::{
    impl_code_convert, impl_from_message, impl_is_datakind, int_type, Data, DeriveError,
    DeriveInput, Discriminant, Fields, IntType, Lit, Literal, Variant,
};

fn tuple_variant(name: &str, ty: &str) -> Variant {
    Variant {
        ident: name.to_string(),
        fields: Fields::Unnamed(vec![ty.to_string()]),
        discriminant: None,
    }
}

fn unit_variant(name: &str, disc: Option<Discriminant>) -> Variant {
    Variant { ident: name.to_string(), fields: Fields::Unit, discriminant: disc }
}

fn hello() -> DeriveInput {
    DeriveInput {
        ident: "Hello".to_string(),
        generics: String::new(),
        data: Data::Enum(vec![
            tuple_variant("U", "u8"),
            tuple_variant("Wot", "u16"),
            tuple_variant("Mate", "u32"),
            tuple_variant("ExclamationPoint", "u64"),
        ]),
    }
}

// An enum of single-field tuple variants gets one conversion per variant.
#[test]
fn derive_as_message() {
    let convs = impl_from_message(&hello()).unwrap();
    let pairs: Vec<(String, String)> =
        convs.into_iter().map(|c| (c.field_type, c.variant)).collect();
    assert_eq!(
        pairs,
        vec![
            ("u8".to_string(), "U".to_string()),
            ("u16".to_string(), "Wot".to_string()),
            ("u32".to_string(), "Mate".to_string()),
            ("u64".to_string(), "ExclamationPoint".to_string()),
        ]
    );
}

// An enum of tuple variants without generics gets an `is_` method per variant.
#[test]
fn derive_without_lifetime() {
    let dk = impl_is_datakind(&hello()).unwrap();
    assert_eq!(dk.enum_name, "Hello");
    assert_eq!(dk.generics, "");
    let names: Vec<String> = dk.methods.iter().map(|m| m.method.clone()).collect();
    assert_eq!(names, vec!["is_u", "is_wot", "is_mate", "is_exclamationpoint"]);
    let variants: Vec<String> = dk.methods.iter().map(|m| m.variant.clone()).collect();
    assert_eq!(variants, vec!["U", "Wot", "Mate", "ExclamationPoint"]);
}

#[test]
fn derive_with_lifetime() {
    let input = DeriveInput {
        ident: "DataKind".to_string(),
        generics: "<'data>".to_string(),
        data: Data::Enum(vec![
            tuple_variant("U8", "u8"),
            tuple_variant("U16", "u16"),
            tuple_variant("U32", "u32"),
            tuple_variant("U64", "u64"),
            tuple_variant("String", "&'data str"),
            tuple_variant("List", "Vec<DataKind<'data>>"),
            tuple_variant("ByteList", "&'data [u8]"),
        ]),
    };
    let dk = impl_is_datakind(&input).unwrap();
    assert_eq!(dk.generics, "<'data>");
    let names: Vec<String> = dk.methods.iter().map(|m| m.method.clone()).collect();
    assert_eq!(
        names,
        vec!["is_u8", "is_u16", "is_u32", "is_u64", "is_string", "is_list", "is_bytelist"]
    );
}

#[test]
fn datakind_refuses_unit_variant() {
    let input = DeriveInput {
        ident: "Bad".to_string(),
        generics: String::new(),
        data: Data::Enum(vec![tuple_variant("A", "u8"), unit_variant("B", None)]),
    };
    let e = impl_is_datakind(&input).unwrap_err();
    assert_eq!(e, DeriveError::DataKindVariantFields);
    assert_eq!(
        e.to_string(),
        "#[derive(IsDataKind)] currently does not support unit or struct variants"
    );
}

#[test]
fn derive_refuses_struct() {
    let input =
        DeriveInput { ident: "S".to_string(), generics: String::new(), data: Data::Struct };
    assert_eq!(impl_is_datakind(&input).unwrap_err(), DeriveError::NotAnEnum);
    assert_eq!(impl_code_convert(&input).unwrap_err(), DeriveError::NotAnEnum);
    assert_eq!(impl_from_message(&input).unwrap_err(), DeriveError::NotAnEnum);
    assert_eq!(
        DeriveError::NotAnEnum.to_string(),
        "#[derive(IsDataKind)] is only defined for enums not structs"
    );
}

#[test]
fn from_message_refuses_wide_tuple() {
    let input = DeriveInput {
        ident: "M".to_string(),
        generics: String::new(),
        data: Data::Enum(vec![Variant {
            ident: "Two".to_string(),
            fields: Fields::Unnamed(vec!["u8".to_string(), "u8".to_string()]),
            discriminant: None,
        }]),
    };
    let e = impl_from_message(&input).unwrap_err();
    assert_eq!(e, DeriveError::MessageVariantArity);
    assert_eq!(
        e.to_string(),
        "#[derive(FromMessage)] does not support empty tuple variants or tuple variants with more than 1 field"
    );
}

#[test]
fn from_message_refuses_named_fields() {
    let input = DeriveInput {
        ident: "M".to_string(),
        generics: String::new(),
        data: Data::Enum(vec![Variant {
            ident: "Named".to_string(),
            fields: Fields::Named(vec!["x".to_string()]),
            discriminant: None,
        }]),
    };
    assert_eq!(impl_from_message(&input).unwrap_err(), DeriveError::MessageVariantFields);
}

#[test]
fn code_convert_counts_from_zero() {
    let input = DeriveInput {
        ident: "TestEnum".to_string(),
        generics: String::new(),
        data: Data::Enum(vec![
            unit_variant("One", None),
            unit_variant("Two", None),
            unit_variant("Three", None),
        ]),
    };
    let ci = impl_code_convert(&input).unwrap();
    let codes: Vec<(String, u64)> = ci.cases.iter().map(|c| (c.variant.clone(), c.code)).collect();
    assert_eq!(
        codes,
        vec![("One".to_string(), 0), ("Two".to_string(), 1), ("Three".to_string(), 2)]
    );
    assert_eq!(ci.max_number, 2);
    assert_eq!(ci.int_type, IntType::U8);
    assert_eq!(ci.int_type.name(), "u8");
}

#[test]
fn code_convert_follows_discriminants() {
    let input = DeriveInput {
        ident: "Codes".to_string(),
        generics: String::new(),
        data: Data::Enum(vec![
            unit_variant("A", None),
            unit_variant("B", Some(Discriminant::Lit(Lit::Int(300)))),
            unit_variant("C", None),
            unit_variant("D", Some(Discriminant::Lit(Lit::Int(5)))),
        ]),
    };
    let ci = impl_code_convert(&input).unwrap();
    let codes: Vec<u64> = ci.cases.iter().map(|c| c.code).collect();
    assert_eq!(codes, vec![0, 300, 301, 5]);
    assert_eq!(ci.max_number, 301);
    assert_eq!(ci.int_type, IntType::U16);
}

#[test]
fn code_convert_refusals() {
    let mk = |v: Variant| DeriveInput {
        ident: "E".to_string(),
        generics: String::new(),
        data: Data::Enum(vec![unit_variant("Ok", None), v]),
    };
    let e = impl_code_convert(&mk(tuple_variant("T", "u8"))).unwrap_err();
    assert_eq!(e, DeriveError::CodeVariantFields);
    assert_eq!(
        e.to_string(),
        "#[derive(CodeConvert)] currently does not support tuple or struct variants"
    );
    let e = impl_code_convert(&mk(unit_variant("F", Some(Discriminant::Lit(Lit::Other))))).unwrap_err();
    assert_eq!(e, DeriveError::CodeNotU64);
    assert_eq!(e.to_string(), "#[derive(CodeConvert)] only supports mapping to u64");
    let e = impl_code_convert(&mk(unit_variant("G", Some(Discriminant::NotLiteral)))).unwrap_err();
    assert_eq!(e, DeriveError::CodeNotLiteral);
    assert_eq!(e.to_string(), "#[derive(CodeConvert)] only supports literals");
}

#[test]
fn int_type_boundaries() {
    assert_eq!(int_type(0), IntType::U8);
    assert_eq!(int_type(255), IntType::U8);
    assert_eq!(int_type(256), IntType::U16);
    assert_eq!(int_type(65535), IntType::U16);
    assert_eq!(int_type(65536), IntType::U32);
    assert_eq!(int_type(u32::MAX as u64), IntType::U32);
    assert_eq!(int_type(u32::MAX as u64 + 1), IntType::U64);
    assert_eq!(IntType::U64.name(), "u64");
}

#[test]
fn literal_numbers() {
    assert_eq!(Literal::from(Lit::Int(42)).to_u64(), Some(42));
    assert_eq!(Literal::from(Lit::Int(42)).to_i64(), Some(42));
    assert_eq!(Literal::from(Lit::Int(u64::MAX)).to_i64(), Some(-1));
    assert_eq!(Literal::from(Lit::Other).to_u64(), None);
    assert_eq!(Literal::from(Lit::Other).to_i64(), None);
}

#[test]
fn derive_from_message() {
    let input = DeriveInput {
        ident: "DataKind".to_string(),
        generics: String::new(),
        data: Data::Enum(vec![tuple_variant("U8", "u8"), tuple_variant("U16", "u16")]),
    };
    let convs = impl_from_message(&input).unwrap();
    assert_eq!(convs.len(), 2);
    assert_eq!((convs[0].field_type.as_str(), convs[0].variant.as_str()), ("u8", "U8"));
    assert_eq!((convs[1].field_type.as_str(), convs[1].variant.as_str()), ("u16", "U16"));
}
