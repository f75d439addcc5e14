use humblegen::ast::{
    AtomType, EnumDef, FieldNode, ServiceDef, Spec, SpecItem, StructDef, StructFields, TupleDef,
    TypeIdent, VariantDef, VariantType,
};
use humblegen::decl::{render_enum_def, render_struct_def, render_type_ident};
use humblegen::decode::{render_enum_decoder, render_struct_decoder, render_type_decoder};
use humblegen::encode::{
    render_enum_encoder, render_struct_encoder, render_type_encoder, render_variant_encoder_branch,
};
use humblegen::module::{render, render_enum_helpers, Generator, RenderError, MODULE_HEADER};
use humblegen::names::{decoder_name, encoder_name, enum_string_decoder_name, field_name};
use humblegen::text::opt_parens;

fn atom(a: AtomType) -> TypeIdent {
    TypeIdent::BuiltIn(a)
}

fn field(name: &str, t: TypeIdent) -> FieldNode {
    FieldNode { name: name.to_string(), type_ident: t }
}

fn point() -> StructDef {
    StructDef {
        name: "Point".to_string(),
        doc_comment: None,
        fields: StructFields(vec![field("x", atom(AtomType::I32)), field("y", atom(AtomType::I32))]),
    }
}

fn simple(name: &str) -> VariantDef {
    VariantDef { name: name.to_string(), variant_type: VariantType::Simple }
}

fn color() -> EnumDef {
    EnumDef {
        name: "Color".to_string(),
        doc_comment: None,
        variants: vec![simple("Red"), simple("Green"), simple("Blue")],
    }
}

fn shape() -> EnumDef {
    EnumDef {
        name: "Shape".to_string(),
        doc_comment: None,
        variants: vec![
            VariantDef {
                name: "Circle".to_string(),
                variant_type: VariantType::Newtype(atom(AtomType::F64)),
            },
            VariantDef {
                name: "Rect".to_string(),
                variant_type: VariantType::Struct(StructFields(vec![
                    field("w", atom(AtomType::F64)),
                    field("h", atom(AtomType::F64)),
                ])),
            },
        ],
    }
}

#[test]
fn names_are_camel_cased() {
    assert_eq!(decoder_name("Point"), "pointDecoder");
    assert_eq!(encoder_name("Point"), "encodePoint");
    assert_eq!(enum_string_decoder_name("Color"), "parseEnumColorFromString");
    assert_eq!(field_name("first_name"), "firstName");
}

#[test]
fn distinct_types_get_distinct_codec_names() {
    assert_ne!(decoder_name("Point"), decoder_name("Shape"));
    assert_ne!(encoder_name("Point"), encoder_name("Shape"));
}

#[test]
fn grouping_wraps_only_spaced_text() {
    assert_eq!(opt_parens("List Int".to_string()), "(List Int)");
    assert_eq!(opt_parens("Int".to_string()), "Int");
    assert_eq!(opt_parens(String::new()), "");
}

#[test]
fn point_struct_declaration() {
    assert_eq!(render_struct_def(&point()), "type alias Point = { x: Int, y: Int }");
}

#[test]
fn point_struct_decoder_requires_both_fields() {
    assert_eq!(
        render_struct_decoder(&point()),
        "pointDecoder : D.Decoder Point \npointDecoder = D.succeed Point |> required \"x\" D.int |> required \"y\" D.int"
    );
}

#[test]
fn point_struct_encoder_writes_both_fields() {
    assert_eq!(
        render_struct_encoder(&point()),
        "encodePoint : Point -> E.Value\nencodePoint obj = E.object [(\"x\", E.int obj.x), (\"y\", E.int obj.y)]"
    );
}

#[test]
fn color_enum_declaration() {
    assert_eq!(render_enum_def(&color()), "type Color = Red | Green | Blue");
}

#[test]
fn color_enum_encodes_bare_strings() {
    assert_eq!(
        render_enum_encoder(&color()),
        "encodeColor : Color -> E.Value\nencodeColor v = case v of \n  Red -> E.string \"Red\"\n  Green -> E.string \"Green\"\n  Blue -> E.string \"Blue\"\n"
    );
}

#[test]
fn color_enum_decodes_from_strings_only() {
    assert_eq!(
        render_enum_decoder(&color()),
        "colorDecoder : D.Decoder Color \ncolorDecoder = D.oneOf [unwrapDecoder (D.map parseEnumColorFromString D.string) ]\n"
    );
}

#[test]
fn color_string_parser_knows_each_simple_variant() {
    let helpers = render_enum_helpers(&color());
    assert_eq!(
        helpers,
        "parseEnumColorFromString : String -> Maybe Color\nparseEnumColorFromString s = case s of \n  \"Red\" -> Just Red\n  \"Green\" -> Just Green\n  \"Blue\" -> Just Blue\n  _ -> Nothing\n"
    );
    assert!(!helpers.contains("\"Purple\""));
}

#[test]
fn shape_enum_encodes_tagged_objects() {
    let e = shape();
    assert_eq!(
        render_variant_encoder_branch(&e.variants[0]),
        "Circle obj -> E.object [ (\"Circle\", E.float obj) ]"
    );
    assert_eq!(
        render_variant_encoder_branch(&e.variants[1]),
        "Rect obj -> E.object [ (\"Rect\", E.object [(\"w\", E.float obj.w), (\"h\", E.float obj.h)]) ]"
    );
}

#[test]
fn shape_enum_decodes_tagged_objects() {
    assert_eq!(
        render_enum_decoder(&shape()),
        "shapeDecoder : D.Decoder Shape \nshapeDecoder = D.oneOf [ D.field \"Circle\" (D.map Circle D.float), D.field \"Rect\" (D.succeed (\\x0 x1 -> Rect { w = x0, h = x1 }) |> required \"w\" D.float |> required \"h\" D.float)]\n"
    );
}

#[test]
fn shape_enum_declaration() {
    assert_eq!(render_enum_def(&shape()), "type Shape = Circle Float | Rect { w: Float, h: Float }");
}

#[test]
fn mixed_enum_tries_strings_first() {
    let e = EnumDef {
        name: "Mode".to_string(),
        doc_comment: None,
        variants: vec![
            VariantDef {
                name: "Off".to_string(),
                variant_type: VariantType::Struct(StructFields(vec![field(
                    "reason",
                    atom(AtomType::Str),
                )])),
            },
            simple("Off"),
        ],
    };
    let dec = render_enum_decoder(&e);
    assert_eq!(
        dec,
        "modeDecoder : D.Decoder Mode \nmodeDecoder = D.oneOf [unwrapDecoder (D.map parseEnumModeFromString D.string),  D.field \"Off\" (D.succeed (\\x0 -> Off { reason = x0 }) |> required \"reason\" D.string)]\n"
    );
    let string_at = dec.find("D.string)").unwrap();
    let object_at = dec.find("D.field").unwrap();
    assert!(string_at < object_at);
}

#[test]
fn list_of_options_nests_with_parentheses() {
    let t = TypeIdent::List(Box::new(TypeIdent::Option(Box::new(atom(AtomType::I32)))));
    assert_eq!(render_type_ident(&t), "List (Maybe Int)");
    assert_eq!(render_type_decoder(&t), "D.list (D.maybe D.int)");
    assert_eq!(render_type_encoder(&t), "E.list (encMaybe E.int)");
}

#[test]
fn pair_tuple_is_positional() {
    let t = TypeIdent::Tuple(TupleDef(vec![atom(AtomType::Str), atom(AtomType::I32)]));
    assert_eq!(render_type_ident(&t), "(String, Int)");
    assert_eq!(
        render_type_decoder(&t),
        "D.succeed (\\x0 x1 -> (x0, x1)) |> requiredIdx 0 D.string |> requiredIdx 1 D.int"
    );
    assert_eq!(render_type_encoder(&t), "\\(x0, x1) -> E.list identity [ E.string x0, E.int x1 ]");
}

#[test]
fn long_tuple_numbers_every_position() {
    let comps: Vec<TypeIdent> = (0..11).map(|_| atom(AtomType::Bool)).collect();
    let t = TypeIdent::Tuple(TupleDef(comps));
    let dec = render_type_decoder(&t);
    assert!(dec.ends_with("|> requiredIdx 9 D.bool |> requiredIdx 10 D.bool"));
    let enc = render_type_encoder(&t);
    assert!(enc.ends_with("E.bool x9, E.bool x10 ]"));
}

#[test]
fn string_keyed_map_renders() {
    let t = TypeIdent::Dict(Box::new(atom(AtomType::Str)), Box::new(atom(AtomType::I32)));
    assert_eq!(render_type_ident(&t), "Dict String Int");
    assert_eq!(render_type_decoder(&t), "D.dict D.int");
    assert_eq!(render_type_encoder(&t), "E.dict identity E.int");
}

#[test]
fn atoms_of_every_kind() {
    let kinds = [
        (AtomType::Empty, "()", "(D.succeed ())", "(_ -> E.null)"),
        (AtomType::Str, "String", "D.string", "E.string"),
        (AtomType::U32, "Int", "D.int", "E.int"),
        (AtomType::U8, "Int", "D.int", "E.int"),
        (AtomType::DateTime, "Time.Posix", "Iso8601.decoder", "Iso8601.encode"),
        (AtomType::Date, "Date.Date", "dateDecoder", "encDate"),
    ];
    for (a, ty, dec, enc) in kinds {
        let t = TypeIdent::BuiltIn(a);
        assert_eq!(render_type_ident(&t), ty);
        assert_eq!(render_type_decoder(&t), dec);
        assert_eq!(render_type_encoder(&t), enc);
    }
}

#[test]
fn user_defined_types_use_derived_names() {
    let t = TypeIdent::List(Box::new(TypeIdent::UserDefined("Point".to_string())));
    assert_eq!(render_type_ident(&t), "List Point");
    assert_eq!(render_type_decoder(&t), "D.list pointDecoder");
    assert_eq!(render_type_encoder(&t), "E.list encodePoint");
}

#[test]
fn doc_comment_precedes_declaration() {
    let mut s = point();
    s.doc_comment = Some("A point.".to_string());
    assert_eq!(
        render_struct_def(&s),
        "{-| A point.\n-}\ntype alias Point = { x: Int, y: Int }"
    );
}

#[test]
fn integer_keyed_map_fails_generation() {
    let s = Spec(vec![SpecItem::StructDef(StructDef {
        name: "Table".to_string(),
        doc_comment: None,
        fields: StructFields(vec![field(
            "rows",
            TypeIdent::Dict(Box::new(atom(AtomType::I32)), Box::new(atom(AtomType::Str))),
        )]),
    })]);
    assert_eq!(render(&s), Err(RenderError::MapKeyNotString));
}

#[test]
fn render_assembles_header_and_declarations() {
    let s = Spec(vec![SpecItem::StructDef(point()), SpecItem::EnumDef(color())]);
    let expected = format!(
        "{}\ntype alias Point = {{ x: Int, y: Int }}\n\ntype Color = Red | Green | Blue",
        MODULE_HEADER
    );
    assert_eq!(render(&s), Ok(expected));
}

#[test]
fn render_is_deterministic() {
    let s = Spec(vec![SpecItem::EnumDef(shape()), SpecItem::StructDef(point())]);
    assert_eq!(render(&s), render(&s));
    assert_eq!(Generator::default().generate(&s), render(&s));
}

#[test]
fn empty_spec_renders_header_only() {
    assert_eq!(render(&Spec(vec![])), Ok(format!("{}\n", MODULE_HEADER)));
}

#[test]
fn service_clients_fail_loudly() {
    let s = Spec(vec![
        SpecItem::StructDef(point()),
        SpecItem::ServiceDef(ServiceDef { name: "Api".to_string() }),
    ]);
    assert_eq!(render(&s), Err(RenderError::ServiceClientsUnsupported));
}

#[test]
fn variants_split_by_shape() {
    let e = EnumDef {
        name: "Mixed".to_string(),
        doc_comment: None,
        variants: vec![simple("A"), shape().variants.remove(0), simple("B")],
    };
    let s: Vec<&str> = e.simple_variants().iter().map(|v| v.name.as_str()).collect();
    let c: Vec<&str> = e.complex_variants().iter().map(|v| v.name.as_str()).collect();
    assert_eq!(s, vec!["A", "B"]);
    assert_eq!(c, vec!["Circle"]);
}
