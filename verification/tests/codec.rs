use serde_enum_derive::deserialize;
use serde_enum_derive::deserialize::{
    build_generics, build_visitor, concrete_wire_ids, generate_variant_deserializations,
    quote_names, retrieve_variant_names, visit_enum, PayloadKind,
};
use serde_enum_derive::text::{join, render_clause, render_generics};
use serde_enum_derive::resolve::{
    attribute_id_from_assignment, collect_variant_ids, parse_attribute_id, retrieve_attribute_id,
    retrieve_discriminant_id, retrieve_own_id,
};
use serde_enum_derive::schema::{
    collect_parameter_declarations, collect_parameter_names, duplicate_clause, duplicate_texts,
    get_enum_data, Attribute, Declaration, DeclarationData, DirectDiscriminant, FieldShape,
    GenError, TypeParameter, VariantDefinition,
};
use serde_enum_derive::serialize;
use serde_enum_derive::serialize::{
    collect_variants, generate_field_names, generate_serializations, PatternShape, SerializeCall,
};
use serde_enum_derive::variant_id::{decimal_string, VariantId};

fn unit(name: &str) -> VariantDefinition {
    VariantDefinition {
        name: name.to_string(),
        fields: FieldShape::Unit,
        discriminant: DirectDiscriminant::Absent,
        attributes: Vec::new(),
    }
}

fn literal(name: &str, value: u64) -> VariantDefinition {
    VariantDefinition {
        name: name.to_string(),
        fields: FieldShape::Unit,
        discriminant: DirectDiscriminant::IntegerLiteral(value),
        attributes: Vec::new(),
    }
}

fn annotated(name: &str, body: &str) -> VariantDefinition {
    VariantDefinition {
        name: name.to_string(),
        fields: FieldShape::Unit,
        discriminant: DirectDiscriminant::Absent,
        attributes: vec![Attribute { path: "serde_enum".to_string(), body: body.to_string() }],
    }
}

fn shaped(name: &str, fields: FieldShape) -> VariantDefinition {
    VariantDefinition {
        name: name.to_string(),
        fields,
        discriminant: DirectDiscriminant::Absent,
        attributes: Vec::new(),
    }
}

fn declaration(name: &str, variants: Vec<VariantDefinition>) -> Declaration {
    Declaration {
        name: name.to_string(),
        type_parameters: Vec::new(),
        where_clause: None,
        data: DeclarationData::Enum(variants),
    }
}

fn parameter(name: &str, declaration: &str) -> TypeParameter {
    TypeParameter { name: name.to_string(), declaration: declaration.to_string() }
}

fn pairs(ids: &[VariantId]) -> Vec<(Option<String>, u32)> {
    ids.iter().map(|id| (id.expression.clone(), id.offset)).collect()
}

fn color() -> Vec<VariantDefinition> {
    vec![unit("Red"), unit("Green"), unit("Blue")]
}

fn names(list: &[&str]) -> Vec<String> {
    list.iter().map(|s| s.to_string()).collect()
}

#[test]
fn default_discriminants_count_from_zero() {
    let ids = collect_variant_ids(&color()).unwrap();
    assert_eq!(pairs(&ids), vec![(None, 0), (None, 1), (None, 2)]);
}

#[test]
fn no_variants_no_discriminants() {
    let ids = collect_variant_ids(&Vec::new()).unwrap();
    assert!(ids.is_empty());
}

#[test]
fn literals_reset_the_running_default() {
    let status = vec![literal("Ok", 10), unit("Warn"), literal("Err", 20), unit("Fatal")];
    let ids = collect_variant_ids(&status).unwrap();
    assert_eq!(pairs(&ids), vec![(None, 10), (None, 11), (None, 20), (None, 21)]);
}

#[test]
fn annotation_starts_a_symbolic_run() {
    let variants = vec![
        unit("A"),
        annotated("B", "(variant_id = BASE)"),
        unit("C"),
        unit("D"),
        literal("E", 4),
        unit("F"),
    ];
    let ids = collect_variant_ids(&variants).unwrap();
    let base = Some("BASE".to_string());
    assert_eq!(
        pairs(&ids),
        vec![
            (None, 0),
            (base.clone(), 0),
            (base.clone(), 1),
            (base.clone(), 2),
            (None, 4),
            (None, 5)
        ]
    );
}

#[test]
fn literal_wins_over_annotation() {
    let mut variant = annotated("A", "(variant_id = BASE)");
    variant.discriminant = DirectDiscriminant::IntegerLiteral(3);
    let id = retrieve_own_id(&variant).unwrap().unwrap();
    assert_eq!((id.expression, id.offset), (None, 3));
}

#[test]
fn literal_keeps_its_low_32_bits() {
    let id = retrieve_discriminant_id(&literal("A", 0x1_0000_0007)).unwrap().unwrap();
    assert_eq!((id.expression, id.offset), (None, 7));
}

#[test]
fn absent_discriminant_gives_none() {
    assert!(retrieve_discriminant_id(&unit("A")).unwrap().is_none());
    assert!(retrieve_attribute_id(&unit("A")).unwrap().is_none());
    assert!(retrieve_own_id(&unit("A")).unwrap().is_none());
}

#[test]
fn non_literal_discriminant_is_refused() {
    let mut variant = unit("A");
    variant.discriminant = DirectDiscriminant::Other;
    assert_eq!(retrieve_discriminant_id(&variant).unwrap_err(), GenError::NonLiteralDiscriminant);
    assert_eq!(
        collect_variant_ids(&vec![unit("Z"), variant]).unwrap_err(),
        GenError::NonLiteralDiscriminant
    );
}

#[test]
fn annotation_must_be_an_assignment() {
    assert_eq!(parse_attribute_id("(variant_id)").unwrap_err(), GenError::MalformedAnnotation);
    assert_eq!(parse_attribute_id("variant_id = 1").unwrap_err(), GenError::MalformedAnnotation);
    assert_eq!(parse_attribute_id("(variant_id = )").unwrap_err(), GenError::MalformedAnnotation);
    assert_eq!(parse_attribute_id("(variant_id = \"x)").unwrap_err(), GenError::MalformedAnnotation);
    assert_eq!(parse_attribute_id("").unwrap_err(), GenError::MalformedAnnotation);
}

#[test]
fn annotation_must_assign_to_variant_id() {
    assert_eq!(parse_attribute_id("(id = 1)").unwrap_err(), GenError::UnexpectedAnnotationKey);
    assert_eq!(
        collect_variant_ids(&vec![annotated("A", "(id = 1)")]).unwrap_err(),
        GenError::UnexpectedAnnotationKey
    );
}

#[test]
fn annotation_gives_the_right_hand_side() {
    let id = parse_attribute_id("(variant_id = BASE)").unwrap();
    assert_eq!((id.expression, id.offset), (Some("BASE".to_string()), 0));
    let id = parse_attribute_id("( variant_id = 7 )").unwrap();
    assert_eq!((id.expression, id.offset), (Some("7".to_string()), 0));
}

#[test]
fn assignment_sides_decide_the_annotation() {
    let id =
        attribute_id_from_assignment(Some(("variant_id".to_string(), "X".to_string()))).unwrap();
    assert_eq!((id.expression, id.offset), (Some("X".to_string()), 0));
    assert_eq!(
        attribute_id_from_assignment(Some(("other".to_string(), "X".to_string()))).unwrap_err(),
        GenError::UnexpectedAnnotationKey
    );
    assert_eq!(attribute_id_from_assignment(None).unwrap_err(), GenError::MalformedAnnotation);
}

#[test]
fn other_attributes_are_passed_over() {
    let mut variant = annotated("A", "(variant_id = BASE)");
    variant
        .attributes
        .insert(0, Attribute { path: "doc".to_string(), body: "= \"text\"".to_string() });
    variant
        .attributes
        .push(Attribute { path: "serde_enum".to_string(), body: "(nonsense".to_string() });
    let id = retrieve_attribute_id(&variant).unwrap().unwrap();
    assert_eq!((id.expression, id.offset), (Some("BASE".to_string()), 0));
}

#[test]
fn first_annotation_decides() {
    let mut variant = annotated("A", "(nonsense");
    variant.attributes.push(Attribute {
        path: "serde_enum".to_string(),
        body: "(variant_id = BASE)".to_string(),
    });
    assert_eq!(retrieve_attribute_id(&variant).unwrap_err(), GenError::MalformedAnnotation);
}

#[test]
fn inherited_discriminant_beyond_32_bits_is_refused() {
    let variants = vec![literal("A", 0xffff_ffff), unit("B")];
    assert_eq!(collect_variant_ids(&variants).unwrap_err(), GenError::DiscriminantOverflow);
    let ids = collect_variant_ids(&vec![literal("A", 0xffff_ffff), literal("B", 1)]).unwrap();
    assert_eq!(pairs(&ids), vec![(None, 0xffff_ffff), (None, 1)]);
}

#[test]
fn first_failure_is_reported() {
    let mut other = unit("B");
    other.discriminant = DirectDiscriminant::Other;
    let variants = vec![annotated("A", "(id = 1)"), other];
    assert_eq!(collect_variant_ids(&variants).unwrap_err(), GenError::UnexpectedAnnotationKey);
}

#[test]
fn variant_id_constructors() {
    let id = VariantId::default();
    assert_eq!((id.expression, id.offset), (None, 0));
    let id = VariantId::from_value(9);
    assert_eq!((id.expression.clone(), id.offset), (None, 9));
    assert_eq!(id.concrete_value(), Some(9));
    let next = id.next();
    assert_eq!((next.expression, next.offset), (None, 10));
    let id = VariantId::from_expression("E".to_string());
    assert_eq!((id.expression.clone(), id.offset), (Some("E".to_string()), 0));
    assert_eq!(id.concrete_value(), None);
    let next = id.next().next();
    assert_eq!((next.expression.clone(), next.offset), (Some("E".to_string()), 2));
    let copy = next.duplicate();
    assert_eq!((copy.expression, copy.offset), (Some("E".to_string()), 2));
}

#[test]
fn token_text_of_discriminants() {
    assert_eq!(VariantId::from_value(0).token_text(), "0u32");
    assert_eq!(VariantId::from_value(11).token_text(), "11u32");
    assert_eq!(VariantId::from_value(u32::MAX).token_text(), "4294967295u32");
    let id = VariantId::from_expression("BASE".to_string()).next();
    assert_eq!(id.token_text(), "(BASE) + 1u32");
    let id = VariantId::from_expression("BASE".to_string());
    assert_eq!(id.token_text(), "(BASE) + 0u32");
}

#[test]
fn decimal_digits() {
    assert_eq!(decimal_string(0), "0");
    assert_eq!(decimal_string(7), "7");
    assert_eq!(decimal_string(10), "10");
    assert_eq!(decimal_string(1234567890), "1234567890");
}

#[test]
fn error_messages() {
    assert_eq!(GenError::NonLiteralDiscriminant.message(), "expecting an enum with integer discriminants");
    assert_eq!(GenError::MalformedAnnotation.message(), "expected \"variant_id = ...\"");
    assert_eq!(GenError::UnexpectedAnnotationKey.message(), "expected \"variant_id\"");
    assert_eq!(GenError::NotASumType.message(), "can't derive on types that aren't enums");
    assert!(!GenError::DiscriminantOverflow.message().is_empty());
    assert!(!GenError::UnsupportedShape.message().is_empty());
}

#[test]
fn only_enums_have_variants() {
    let mut input = declaration("Color", color());
    assert_eq!(get_enum_data(&input).unwrap().len(), 3);
    input.data = DeclarationData::Struct;
    assert_eq!(get_enum_data(&input).unwrap_err(), GenError::NotASumType);
    assert_eq!(serialize::derive(&input).unwrap_err(), GenError::NotASumType);
    assert_eq!(deserialize::derive(&input).unwrap_err(), GenError::NotASumType);
    input.data = DeclarationData::Union;
    assert_eq!(get_enum_data(&input).unwrap_err(), GenError::NotASumType);
}

#[test]
fn field_names_by_shape() {
    assert!(generate_field_names(&FieldShape::Unit).is_empty());
    assert!(generate_field_names(&FieldShape::Positional(0)).is_empty());
    assert_eq!(generate_field_names(&FieldShape::Positional(2)), names(&["_0", "_1"]));
    assert_eq!(generate_field_names(&FieldShape::Positional(11))[10], "_10");
    assert_eq!(generate_field_names(&FieldShape::Named(names(&["x", "y"]))), names(&["x", "y"]));
    assert_eq!(duplicate_texts(&names(&["a", "b"])), names(&["a", "b"]));
}

#[test]
fn patterns_by_shape() {
    let variants = vec![
        unit("A"),
        shaped("B", FieldShape::Positional(2)),
        shaped("C", FieldShape::Named(names(&["x"]))),
    ];
    let patterns = collect_variants(&"T".to_string(), &variants);
    assert_eq!(patterns.len(), 3);
    assert_eq!(patterns[0].enum_name, "T");
    assert_eq!(patterns[0].variant_name, "A");
    assert_eq!(patterns[0].shape, PatternShape::Bare);
    assert!(patterns[0].bindings.is_empty());
    assert_eq!(patterns[1].variant_name, "B");
    assert_eq!(patterns[1].shape, PatternShape::Tuple);
    assert_eq!(patterns[1].bindings, names(&["_0", "_1"]));
    assert_eq!(patterns[2].variant_name, "C");
    assert_eq!(patterns[2].shape, PatternShape::Struct);
    assert_eq!(patterns[2].bindings, names(&["x"]));
}

#[test]
fn serializations_by_shape() {
    let variants = vec![
        literal("A", 5),
        shaped("B", FieldShape::Positional(1)),
        shaped("C", FieldShape::Positional(3)),
        shaped("D", FieldShape::Named(names(&["x", "y"]))),
        shaped("E", FieldShape::Positional(0)),
    ];
    let arms = generate_serializations(&"T".to_string(), &variants).unwrap();
    let calls: Vec<SerializeCall> = arms.iter().map(|a| a.call).collect();
    assert_eq!(
        calls,
        vec![
            SerializeCall::UnitVariant,
            SerializeCall::NewtypeVariant,
            SerializeCall::TupleVariant,
            SerializeCall::StructVariant,
            SerializeCall::TupleVariant
        ]
    );
    let ids: Vec<u32> = arms.iter().map(|a| a.discriminant.offset).collect();
    assert_eq!(ids, vec![5, 6, 7, 8, 9]);
    assert!(arms.iter().all(|a| a.discriminant.expression.is_none() && a.enum_name == "T"));
    let variant_names: Vec<&str> = arms.iter().map(|a| a.variant_name.as_str()).collect();
    assert_eq!(variant_names, vec!["A", "B", "C", "D", "E"]);
    assert!(arms[0].fields.is_empty());
    assert_eq!(arms[1].fields, names(&["_0"]));
    assert_eq!(arms[2].fields, names(&["_0", "_1", "_2"]));
    assert_eq!(arms[3].fields, names(&["x", "y"]));
    assert!(arms[4].fields.is_empty());
}

#[test]
fn serialization_fails_with_resolution() {
    let variants = vec![annotated("A", "(variant_id)")];
    assert_eq!(
        generate_serializations(&"T".to_string(), &variants).unwrap_err(),
        GenError::MalformedAnnotation
    );
    assert_eq!(
        serialize::derive(&declaration("T", variants)).unwrap_err(),
        GenError::MalformedAnnotation
    );
}

#[test]
fn encoder_has_one_arm_per_variant() {
    let generated = serialize::derive(&declaration("Color", color())).unwrap();
    assert_eq!(generated.enum_name, "Color");
    assert_eq!(generated.patterns.len(), 3);
    assert_eq!(generated.serializations.len(), 3);
    for i in 0..3 {
        assert_eq!(generated.patterns[i].variant_name, generated.serializations[i].variant_name);
        assert_eq!(generated.serializations[i].discriminant.offset, i as u32);
    }
}

#[test]
fn decoder_refuses_shapes_it_cannot_rebuild() {
    let name = "T".to_string();
    for fields in vec![
        FieldShape::Positional(0),
        FieldShape::Positional(2),
        FieldShape::Named(Vec::new()),
        FieldShape::Named(names(&["x"])),
    ] {
        let variants = vec![unit("A"), shaped("B", fields)];
        assert_eq!(
            generate_variant_deserializations(&name, &variants).unwrap_err(),
            GenError::UnsupportedShape
        );
        assert_eq!(
            build_visitor(&name, &Vec::new(), &None, &variants).unwrap_err(),
            GenError::UnsupportedShape
        );
        assert_eq!(
            deserialize::derive(&declaration("T", variants)).unwrap_err(),
            GenError::UnsupportedShape
        );
    }
}

#[test]
fn resolution_failure_comes_before_refused_shape() {
    let variants = vec![shaped("A", FieldShape::Positional(2)), annotated("B", "(id = 1)")];
    assert_eq!(
        build_visitor(&"T".to_string(), &Vec::new(), &None, &variants).unwrap_err(),
        GenError::UnexpectedAnnotationKey
    );
}

#[test]
fn decoder_layout() {
    let mut input = declaration(
        "Wrapped",
        vec![shaped("Value", FieldShape::Positional(1)), literal("Nothing", 9)],
    );
    input.type_parameters = vec![parameter("T", "T: Clone"), parameter("U", "U")];
    input.where_clause = Some("where U: Copy".to_string());
    let generated = deserialize::derive(&input).unwrap();
    assert_eq!(generated.enum_name, "Wrapped");
    assert_eq!(generated.impl_generics, names(&["'de", "T: Clone", "U"]));
    assert_eq!(generated.type_generics, names(&["T", "U"]));
    assert_eq!(generated.where_clause, Some("where U: Copy".to_string()));
    assert_eq!(generated.visitor.parameters, names(&["T: Clone", "U"]));
    assert_eq!(generated.visitor.impl_generics, names(&["'de", "T: Clone", "U"]));
    assert_eq!(generated.visitor.where_clause, Some("where U: Copy".to_string()));
    assert_eq!(generated.variant_names, names(&["Value", "Nothing"]));
    let visitor = generated.visitor;
    assert_eq!(visitor.enum_name, "Wrapped");
    assert_eq!(visitor.generics, names(&["T", "U"]));
    assert_eq!(visitor.expecting, "enum Wrapped");
    assert_eq!(pairs(&visitor.variant_ids), vec![(None, 0), (None, 9)]);
    assert_eq!(visitor.deserializations.len(), 2);
    assert_eq!(visitor.deserializations[0].enum_name, "Wrapped");
    assert_eq!(visitor.deserializations[0].variant_name, "Value");
    assert_eq!(visitor.deserializations[0].payload, PayloadKind::Newtype);
    assert_eq!(visitor.deserializations[1].variant_name, "Nothing");
    assert_eq!(visitor.deserializations[1].payload, PayloadKind::Unit);
}

#[test]
fn generics_start_with_the_decode_lifetime() {
    assert_eq!(build_generics(&Vec::new()), names(&["'de"]));
    assert_eq!(build_generics(&names(&["'a", "T"])), names(&["'de", "'a", "T"]));
}

#[test]
fn variant_names_in_declaration_order() {
    assert_eq!(retrieve_variant_names(&color()), names(&["Red", "Green", "Blue"]));
}

#[test]
fn color_decodes_by_position() {
    let variants = color();
    let ids = collect_variant_ids(&variants).unwrap();
    let wire = concrete_wire_ids(&ids).unwrap();
    assert_eq!(wire, vec![0, 1, 2]);
    let variant_names = retrieve_variant_names(&variants);
    let chosen = visit_enum(&wire, &variant_names, 1).unwrap();
    assert_eq!(variant_names[chosen], "Green");
    let unknown = visit_enum(&wire, &variant_names, 5).unwrap_err();
    assert_eq!(unknown.discriminant, 5);
    assert_eq!(unknown.variants, names(&["Red", "Green", "Blue"]));
}

#[test]
fn status_round_trips() {
    let status = vec![literal("Ok", 10), unit("Warn"), literal("Err", 20), unit("Fatal")];
    let wire = concrete_wire_ids(&collect_variant_ids(&status).unwrap()).unwrap();
    assert_eq!(wire, vec![10, 11, 20, 21]);
    let variant_names = retrieve_variant_names(&status);
    for i in 0..wire.len() {
        assert_eq!(visit_enum(&wire, &variant_names, wire[i] as u64).unwrap(), i);
    }
    let unknown = visit_enum(&wire, &variant_names, 12).unwrap_err();
    assert_eq!(unknown.discriminant, 12);
    assert_eq!(unknown.variants, variant_names);
}

#[test]
fn wrapped_value_is_a_newtype_under_zero() {
    let input = declaration("Wrapped", vec![shaped("Value", FieldShape::Positional(1))]);
    let encoder = serialize::derive(&input).unwrap();
    assert_eq!(encoder.patterns[0].bindings, names(&["_0"]));
    let arm = &encoder.serializations[0];
    assert_eq!(arm.call, SerializeCall::NewtypeVariant);
    assert_eq!(arm.enum_name, "Wrapped");
    assert_eq!(arm.variant_name, "Value");
    assert_eq!(arm.fields, names(&["_0"]));
    assert_eq!(arm.discriminant.concrete_value(), Some(0));
    let decoder = deserialize::derive(&input).unwrap();
    let wire = concrete_wire_ids(&decoder.visitor.variant_ids).unwrap();
    let chosen = visit_enum(&wire, &decoder.variant_names, 0).unwrap();
    assert_eq!(decoder.visitor.deserializations[chosen].variant_name, "Value");
    assert_eq!(decoder.visitor.deserializations[chosen].payload, PayloadKind::Newtype);
}

#[test]
fn discriminant_beyond_32_bits_belongs_to_no_variant() {
    let wire = vec![3, 4, u32::MAX];
    let variant_names = names(&["A", "B", "C"]);
    assert_eq!(visit_enum(&wire, &variant_names, 4).unwrap(), 1);
    assert_eq!(visit_enum(&wire, &variant_names, 0xffff_ffff).unwrap(), 2);
    let unknown = visit_enum(&wire, &variant_names, 0x1_0000_0004).unwrap_err();
    assert_eq!(unknown.discriminant, 0x1_0000_0004);
    assert_eq!(unknown.variants, variant_names);
    assert!(visit_enum(&wire, &variant_names, u64::MAX).is_err());
}

#[test]
fn color_refuses_a_discriminant_whose_low_bits_match() {
    let variants = color();
    let wire = concrete_wire_ids(&collect_variant_ids(&variants).unwrap()).unwrap();
    let unknown = visit_enum(&wire, &retrieve_variant_names(&variants), 4294967297).unwrap_err();
    assert_eq!(unknown.discriminant, 4294967297);
    assert_eq!(unknown.variants, names(&["Red", "Green", "Blue"]));
}

#[test]
fn base_expression_stays_one_operand() {
    let variants = vec![annotated("A", "(variant_id = 1 << 4)"), unit("B")];
    let ids = collect_variant_ids(&variants).unwrap();
    assert_eq!(ids[0].token_text(), "(1 << 4) + 0u32");
    assert_eq!(ids[1].token_text(), "(1 << 4) + 1u32");
    let sum = syn::parse_str::<syn::ExprBinary>(&ids[1].token_text()).unwrap();
    assert!(matches!(sum.op, syn::BinOp::Add(_)));
    assert!(matches!(*sum.left, syn::Expr::Paren(_)));
    let arms = generate_serializations(&"T".to_string(), &variants).unwrap();
    assert_eq!(
        arms[1].render(),
        "serializer.serialize_unit_variant(\"T\", ((1 << 4) + 1u32) as u32, \"B\")"
    );
}

#[test]
fn parameters_by_name_and_by_declaration() {
    let parameters = vec![parameter("'a", "'a"), parameter("T", "T: Clone")];
    assert_eq!(collect_parameter_names(&parameters), names(&["'a", "T"]));
    assert_eq!(collect_parameter_declarations(&parameters), names(&["'a", "T: Clone"]));
    assert_eq!(duplicate_clause(&None), None);
    assert_eq!(duplicate_clause(&Some("where T: Copy".to_string())), Some("where T: Copy".to_string()));
    assert_eq!(render_clause(&None), "");
    assert_eq!(render_clause(&Some("where T: Copy".to_string())), " where T: Copy");
}

#[test]
fn generic_encoder_passes_parameters_through() {
    let mut input = declaration("T", vec![unit("A"), shaped("B", FieldShape::Positional(1))]);
    input.type_parameters = vec![parameter("'a", "'a"), parameter("U", "U: Clone")];
    input.where_clause = Some("where U: ::serde::Serialize".to_string());
    let generated = serialize::derive(&input).unwrap();
    assert_eq!(generated.impl_generics, names(&["'a", "U: Clone"]));
    assert_eq!(generated.type_generics, names(&["'a", "U"]));
    assert_eq!(generated.where_clause, Some("where U: ::serde::Serialize".to_string()));
    let text = generated.render();
    assert!(text.starts_with(
        "impl<'a, U: Clone> ::serde::Serialize for T<'a, U> where U: ::serde::Serialize \
         { fn serialize<S>"
    ));
    let parsed = syn::parse_str::<syn::ItemImpl>(&text).unwrap();
    assert_eq!(parsed.generics.params.len(), 2);
    assert!(parsed.generics.where_clause.is_some());
}

#[test]
fn generic_decoder_passes_parameters_through() {
    let mut input = declaration("T", vec![unit("A"), shaped("B", FieldShape::Positional(1))]);
    input.type_parameters = vec![parameter("U", "U: Clone")];
    input.where_clause = Some("where U: Copy".to_string());
    let text = deserialize::derive(&input).unwrap().render();
    assert!(text.starts_with(
        "impl<'de, U: Clone> ::serde::Deserialize<'de> for T<U> \
         where U: Copy { fn deserialize<D>"
    ));
    assert!(text.contains(
        "struct Visitor<U: Clone>(::std::marker::PhantomData<fn() -> T<U>>) \
         where U: Copy; \
         impl<'de, U: Clone> ::serde::de::Visitor<'de> for Visitor<U> \
         where U: Copy { type Value = T<U>;"
    ));
    let parsed = syn::parse_str::<syn::ItemImpl>(&text).unwrap();
    assert_eq!(parsed.generics.params.len(), 2);
}

#[test]
fn first_of_equal_discriminants_is_chosen() {
    let wire = vec![1, 1];
    assert_eq!(visit_enum(&wire, &names(&["A", "B"]), 1).unwrap(), 0);
}

#[test]
fn symbolic_discriminants_have_no_wire_number() {
    let variants = vec![unit("A"), annotated("B", "(variant_id = BASE)")];
    let ids = collect_variant_ids(&variants).unwrap();
    assert!(concrete_wire_ids(&ids).is_none());
}

#[test]
fn encoder_and_decoder_agree_on_discriminants() {
    let variants = vec![
        literal("A", 3),
        shaped("B", FieldShape::Positional(1)),
        annotated("C", "(variant_id = BASE)"),
        unit("D"),
    ];
    let input = declaration("T", variants);
    let encoder = serialize::derive(&input).unwrap();
    let decoder = deserialize::derive(&input).unwrap();
    let encoded: Vec<String> =
        encoder.serializations.iter().map(|s| s.discriminant.token_text()).collect();
    let decoded: Vec<String> =
        decoder.visitor.variant_ids.iter().map(|id| id.token_text()).collect();
    assert_eq!(encoded, decoded);
    assert_eq!(encoded, names(&["3u32", "4u32", "(BASE) + 0u32", "(BASE) + 1u32"]));
}

#[test]
fn joining_parts() {
    assert_eq!(join(&Vec::new(), ", "), "");
    assert_eq!(join(&names(&["a"]), ", "), "a");
    assert_eq!(join(&names(&["a", "b", "c"]), ", "), "a, b, c");
    assert_eq!(join(&names(&["a", "b"]), ""), "ab");
}

#[test]
fn pattern_text_by_shape() {
    let variants = vec![
        unit("A"),
        shaped("B", FieldShape::Positional(2)),
        shaped("C", FieldShape::Named(names(&["x", "y"]))),
        shaped("D", FieldShape::Positional(0)),
    ];
    let patterns = collect_variants(&"T".to_string(), &variants);
    let rendered: Vec<String> = patterns.iter().map(|p| p.render()).collect();
    assert_eq!(rendered, names(&["T::A", "T::B(_0, _1)", "T::C { x, y }", "T::D()"]));
}

#[test]
fn serialization_text_by_shape() {
    let variants = vec![
        literal("A", 5),
        shaped("B", FieldShape::Positional(1)),
        shaped("C", FieldShape::Positional(2)),
        shaped("D", FieldShape::Named(names(&["x"]))),
    ];
    let arms = generate_serializations(&"T".to_string(), &variants).unwrap();
    assert_eq!(arms[0].render(), "serializer.serialize_unit_variant(\"T\", (5u32) as u32, \"A\")");
    assert_eq!(
        arms[1].render(),
        "serializer.serialize_newtype_variant(\"T\", (6u32) as u32, \"B\", _0)"
    );
    assert_eq!(
        arms[2].render(),
        "{ use ::serde::ser::SerializeTupleVariant; let mut state = \
         serializer.serialize_tuple_variant(\"T\", (7u32) as u32, \"C\", 2)?; \
         state.serialize_field(_0)?; state.serialize_field(_1)?; state.end() }"
    );
    assert_eq!(
        arms[3].render(),
        "{ use ::serde::ser::SerializeStructVariant; let mut state = \
         serializer.serialize_struct_variant(\"T\", (8u32) as u32, \"D\", 1)?; \
         state.serialize_field(\"x\", x)?; state.end() }"
    );
}

#[test]
fn encoder_text_is_an_impl() {
    let variants = vec![
        literal("A", 5),
        shaped("B", FieldShape::Positional(1)),
        shaped("C", FieldShape::Positional(2)),
        annotated("D", "(variant_id = consts::BASE)"),
        shaped("E", FieldShape::Named(names(&["x", "y"]))),
    ];
    let text = serialize::derive(&declaration("T", variants)).unwrap().render();
    assert!(text.starts_with("impl ::serde::Serialize for T { fn serialize<S>"));
    assert!(text.contains("match self { T::A => serializer.serialize_unit_variant("));
    assert!(text.contains("((consts :: BASE) + 1u32) as u32, \"E\", 2)?;"));
    let parsed = syn::parse_str::<syn::ItemImpl>(&text).unwrap();
    assert_eq!(parsed.items.len(), 1);
}

#[test]
fn generics_text_behind_a_name() {
    assert_eq!(render_generics(&Vec::new()), "");
    assert_eq!(render_generics(&names(&["'de"])), "<'de>");
    assert_eq!(render_generics(&names(&["'de", "T"])), "<'de, T>");
    assert_eq!(quote_names(&names(&["A", "B"])), names(&["\"A\"", "\"B\""]));
}

#[test]
fn deserialization_text_by_payload() {
    let variants = vec![unit("A"), shaped("B", FieldShape::Positional(1))];
    let blocks = generate_variant_deserializations(&"T".to_string(), &variants).unwrap();
    assert_eq!(blocks[0].render(), "variant_visitor.unit_variant()?; Ok(T::A)");
    assert_eq!(blocks[1].render(), "Ok(T::B(variant_visitor.new_type_variant()?))");
}

#[test]
fn decoder_text_is_an_impl() {
    let mut input = declaration(
        "T",
        vec![unit("A"), literal("B", 7), shaped("C", FieldShape::Positional(1))],
    );
    input.type_parameters = vec![parameter("U", "U")];
    let generated = deserialize::derive(&input).unwrap();
    let visitor = generated.visitor.render();
    assert!(visitor.starts_with(
        "struct Visitor<U>(::std::marker::PhantomData<fn() -> T<U>>); \
         impl<'de, U> ::serde::de::Visitor<'de> for Visitor<U> { type Value = T<U>;"
    ));
    assert!(visitor.contains("formatter.write_str(\"enum T\")"));
    assert!(visitor.contains(
        "if variant_id == ((0u32) as u32) as u64 { variant_visitor.unit_variant()?; Ok(T::A) } else \
         if variant_id == ((7u32) as u32) as u64 { variant_visitor.unit_variant()?; Ok(T::B) } else \
         if variant_id == ((8u32) as u32) as u64 { Ok(T::C(variant_visitor.new_type_variant()?)) } else \
         { Err(::serde::de::Error::unknown_variant("
    ));
    let text = generated.render();
    assert!(text.starts_with("impl<'de, U> ::serde::Deserialize<'de> for T<U> { fn deserialize<D>"));
    assert!(text.contains("const VARIANTS: &[&str] = &[\"A\", \"B\", \"C\"]; struct Visitor<U>("));
    assert!(text.ends_with(
        " deserializer.deserialize_enum(\"T\", VARIANTS, Visitor(::std::marker::PhantomData)) } }"
    ));
    let parsed = syn::parse_str::<syn::ItemImpl>(&text).unwrap();
    assert_eq!(parsed.items.len(), 1);
}

#[test]
fn decoder_text_without_variants() {
    let text = deserialize::derive(&declaration("Never", Vec::new())).unwrap().render();
    assert!(text.contains("const VARIANTS: &[&str] = &[]; "));
    assert!(text.contains("enum_visitor.variant()?; { Err("));
    assert!(syn::parse_str::<syn::ItemImpl>(&text).is_ok());
}

#[test]
fn decoder_reads_the_payload_that_the_encoder_writes() {
    let input = declaration("T", vec![unit("A"), shaped("B", FieldShape::Positional(1))]);
    let encoder = serialize::derive(&input).unwrap();
    let decoder = deserialize::derive(&input).unwrap();
    assert_eq!(encoder.serializations[0].call, SerializeCall::UnitVariant);
    assert_eq!(decoder.visitor.deserializations[0].payload, PayloadKind::Unit);
    assert_eq!(encoder.serializations[1].call, SerializeCall::NewtypeVariant);
    assert_eq!(decoder.visitor.deserializations[1].payload, PayloadKind::Newtype);
}
