//! The encoder: one dispatch arm per variant, keyed by the variant itself.

use crate::resolve::{collect_variant_ids, ids_view, resolution_matches, resolve, sources_of};
use crate::schema::{
    clause_view, collect_parameter_declarations, collect_parameter_names, duplicate_clause,
    duplicate_texts, get_enum_data, parameter_declarations, parameter_names, texts, Declaration,
    DeclarationData, FieldShape, GenError, VariantDefinition,
};
use crate::text::{clause_text, generics_text, join, joined, render_clause, render_generics};
use crate::variant_id::{decimal_string, decimal_text, DiscriminantValue, VariantId};
use vstd::prelude::*;
use vstd::string::*;

verus! {

/// The form of the pattern that matches a variant.
#[derive(Clone, Copy, Debug, PartialEq, Eq, Structural)]
pub enum PatternShape {
    /// The bare name.
    Bare,
    /// The name and bindings in parentheses.
    Tuple,
    /// The name and field names in braces.
    Struct,
}

/// The pattern of one arm: which variant it matches and what it binds.
#[derive(Debug)]
pub struct VariantPattern {
    pub enum_name: String,
    pub variant_name: String,
    pub shape: PatternShape,
    pub bindings: Vec<String>,
}

/// The serializer entry point that an arm calls.
#[derive(Clone, Copy, Debug, PartialEq, Eq, Structural)]
pub enum SerializeCall {
    /// `serialize_unit_variant`.
    UnitVariant,
    /// `serialize_newtype_variant`, with the one field as its value.
    NewtypeVariant,
    /// `serialize_tuple_variant` with the field count, a `serialize_field` for
    /// each field in declared order, then `end`.
    TupleVariant,
    /// `serialize_struct_variant` with the field count, a `serialize_field` for
    /// each field in declared order, then `end`.
    StructVariant,
}

/// The body of one arm: the call, its arguments and the fields that follow.
#[derive(Debug)]
pub struct Serialization {
    pub call: SerializeCall,
    pub enum_name: String,
    pub discriminant: VariantId,
    pub variant_name: String,
    pub fields: Vec<String>,
}

/// The encode entry point of a sum type: pattern `i` guards serialization `i`.
#[derive(Debug)]
pub struct SerializeImpl {
    pub enum_name: String,
    /// The type's parameters as the impl declares them, bounds included.
    pub impl_generics: Vec<String>,
    /// The type's parameters as they stand behind its name.
    pub type_generics: Vec<String>,
    /// The type's where-clause.
    pub where_clause: Option<String>,
    pub patterns: Vec<VariantPattern>,
    pub serializations: Vec<Serialization>,
}

/// The name that the field at `index` is bound to when it has none of its own.
pub open spec fn positional_name(index: int) -> Seq<char> {
    seq!['_'] + decimal_text(index as nat)
}

/// The names that a variant's fields are bound to, in declared order.
pub open spec fn field_names(fields: FieldShape) -> Seq<Seq<char>> {
    match fields {
        FieldShape::Unit => Seq::empty(),
        FieldShape::Positional(count) => Seq::new(count as nat, |i: int| positional_name(i)),
        FieldShape::Named(names) => texts(names@),
    }
}

/// The form of the pattern for a field shape.
pub open spec fn pattern_shape(fields: FieldShape) -> PatternShape {
    match fields {
        FieldShape::Unit => PatternShape::Bare,
        FieldShape::Positional(_) => PatternShape::Tuple,
        FieldShape::Named(_) => PatternShape::Struct,
    }
}

/// The serializer call for a field shape.
pub open spec fn serialize_call(fields: FieldShape) -> SerializeCall {
    match fields {
        FieldShape::Unit => SerializeCall::UnitVariant,
        FieldShape::Positional(count) => if count == 1 {
            SerializeCall::NewtypeVariant
        } else {
            SerializeCall::TupleVariant
        },
        FieldShape::Named(_) => SerializeCall::StructVariant,
    }
}

/// Whether `pattern` is the pattern for `variant` of the type named `enum_name`.
pub open spec fn pattern_matches(
    pattern: VariantPattern,
    enum_name: Seq<char>,
    variant: VariantDefinition,
) -> bool {
    &&& pattern.enum_name@ == enum_name
    &&& pattern.variant_name@ == variant.name@
    &&& pattern.shape == pattern_shape(variant.fields)
    &&& texts(pattern.bindings@) == field_names(variant.fields)
}

/// Whether `patterns` holds the pattern of every variant, in declaration order.
pub open spec fn patterns_match(
    patterns: Seq<VariantPattern>,
    enum_name: Seq<char>,
    variants: Seq<VariantDefinition>,
) -> bool {
    &&& patterns.len() == variants.len()
    &&& forall|i: int|
        0 <= i < variants.len() ==> pattern_matches(#[trigger] patterns[i], enum_name, variants[i])
}

/// Whether `serialization` encodes `variant` of the type named `enum_name` under
/// the discriminant `id`.
pub open spec fn serialization_matches(
    serialization: Serialization,
    enum_name: Seq<char>,
    variant: VariantDefinition,
    id: DiscriminantValue,
) -> bool {
    &&& serialization.call == serialize_call(variant.fields)
    &&& serialization.enum_name@ == enum_name
    &&& serialization.discriminant@ == id
    &&& serialization.variant_name@ == variant.name@
    &&& texts(serialization.fields@) == field_names(variant.fields)
}

/// The discriminants that the serializations carry.
pub open spec fn serialized_ids(serializations: Seq<Serialization>) -> Seq<DiscriminantValue> {
    Seq::new(serializations.len(), |i: int| serializations[i].discriminant@)
}

/// Whether `outcome` is what the encoder owes for `variants`: one serialization
/// per variant, in declaration order and under its resolved discriminant, or
/// the failure of resolution.
pub open spec fn serializations_match(
    outcome: Result<Vec<Serialization>, GenError>,
    enum_name: Seq<char>,
    variants: Seq<VariantDefinition>,
) -> bool {
    match outcome {
        Ok(serializations) => {
            &&& serializations.len() == variants.len()
            &&& resolution_matches(variants, Ok(serialized_ids(serializations@)))
            &&& forall|i: int|
                0 <= i < variants.len() ==> serialization_matches(
                    #[trigger] serializations[i],
                    enum_name,
                    variants[i],
                    serializations[i].discriminant@,
                )
        },
        Err(e) => resolution_matches(variants, Err(e)),
    }
}

/// The names that the fields of a variant are bound to: a named field to its
/// name, an unnamed one to an underscore and its position.
pub fn generate_field_names(fields: &FieldShape) -> (names: Vec<String>)
    ensures
        texts(names@) == field_names(*fields),
{
    match fields {
        FieldShape::Unit => {
            let names: Vec<String> = Vec::new();
            assert(texts(names@) =~= field_names(*fields));
            names
        },
        FieldShape::Positional(count) => {
            let mut names: Vec<String> = Vec::new();
            let mut i: usize = 0;
            while i < *count
                invariant
                    i <= *count,
                    names.len() == i,
                    forall|j: int| 0 <= j < i ==> names[j]@ == positional_name(j),
                decreases *count - i,
            {
                proof {
                    reveal_strlit("_");
                }
                let mut name = String::from_str("_");
                let digits = decimal_string(i);
                name.append(digits.as_str());
                assert(name@ =~= positional_name(i as int));
                names.push(name);
                i += 1;
            }
            assert(texts(names@) =~= field_names(*fields));
            names
        },
        FieldShape::Named(declared) => duplicate_texts(declared),
    }
}

/// The pattern of every variant, in declaration order.
pub fn collect_variants(enum_name: &String, variants: &Vec<VariantDefinition>) -> (patterns: Vec<
    VariantPattern,
>)
    ensures
        patterns_match(patterns@, enum_name@, variants@),
{
    let mut patterns: Vec<VariantPattern> = Vec::new();
    let mut i: usize = 0;
    while i < variants.len()
        invariant
            i <= variants.len(),
            patterns.len() == i,
            forall|j: int|
                0 <= j < i ==> pattern_matches(#[trigger] patterns[j], enum_name@, variants[j]),
        decreases variants.len() - i,
    {
        let variant = &variants[i];
        let shape = match &variant.fields {
            FieldShape::Unit => PatternShape::Bare,
            FieldShape::Positional(_) => PatternShape::Tuple,
            FieldShape::Named(_) => PatternShape::Struct,
        };
        patterns.push(
            VariantPattern {
                enum_name: enum_name.clone(),
                variant_name: variant.name.clone(),
                shape,
                bindings: generate_field_names(&variant.fields),
            },
        );
        i += 1;
    }
    patterns
}

/// The body of every arm, in declaration order: the serializer call that fits
/// the variant's field shape, under the variant's resolved discriminant.
pub fn generate_serializations(name: &String, variants: &Vec<VariantDefinition>) -> (outcome: Result<
    Vec<Serialization>,
    GenError,
>)
    ensures
        serializations_match(outcome, name@, variants@),
{
    let ids = match collect_variant_ids(variants) {
        Ok(ids) => ids,
        Err(e) => {
            return Err(e);
        },
    };
    let ghost resolved = ids_view(ids@);
    assert(resolved.len() == ids.len());
    assert(resolved.len() == resolve(sources_of(variants@)).len());
    let mut serializations: Vec<Serialization> = Vec::new();
    let mut i: usize = 0;
    while i < variants.len()
        invariant
            i <= variants.len(),
            ids.len() == variants.len(),
            resolved.len() == variants.len(),
            resolved == ids_view(ids@),
            resolution_matches(variants@, Ok(resolved)),
            serializations.len() == i,
            forall|j: int|
                0 <= j < i ==> serialization_matches(
                    #[trigger] serializations[j],
                    name@,
                    variants[j],
                    resolved[j],
                ),
        decreases variants.len() - i,
    {
        let variant = &variants[i];
        let call = match &variant.fields {
            FieldShape::Unit => SerializeCall::UnitVariant,
            FieldShape::Positional(count) => if *count == 1 {
                SerializeCall::NewtypeVariant
            } else {
                SerializeCall::TupleVariant
            },
            FieldShape::Named(_) => SerializeCall::StructVariant,
        };
        serializations.push(
            Serialization {
                call,
                enum_name: name.clone(),
                discriminant: ids[i].duplicate(),
                variant_name: variant.name.clone(),
                fields: generate_field_names(&variant.fields),
            },
        );
        i += 1;
    }
    assert(serialized_ids(serializations@) =~= resolved);
    Ok(serializations)
}

/// Whether `outcome` is the encode entry point owed for `input`.
pub open spec fn derive_matches(input: Declaration, outcome: Result<SerializeImpl, GenError>) -> bool {
    match input.data {
        DeclarationData::Enum(variants) => match outcome {
            Ok(generated) => {
                &&& generated.well_formed()
                &&& generated.enum_name@ == input.name@
                &&& texts(generated.impl_generics@) == parameter_declarations(
                    input.type_parameters@,
                )
                &&& texts(generated.type_generics@) == parameter_names(input.type_parameters@)
                &&& clause_view(generated.where_clause) == clause_view(input.where_clause)
                &&& patterns_match(generated.patterns@, input.name@, variants@)
                &&& serializations_match(Ok(generated.serializations), input.name@, variants@)
            },
            Err(e) => resolution_matches(variants@, Err(e)),
        },
        _ => outcome is Err && outcome->Err_0 == GenError::NotASumType,
    }
}

/// Lays out the encode entry point of a declaration: for a sum type, one arm
/// per variant in declaration order; a failure for any other type, or where a
/// discriminant cannot be resolved.
pub fn derive(input: &Declaration) -> (outcome: Result<SerializeImpl, GenError>)
    ensures
        derive_matches(*input, outcome),
{
    let variants = match get_enum_data(input) {
        Ok(variants) => variants,
        Err(e) => {
            return Err(e);
        },
    };
    let patterns = collect_variants(&input.name, variants);
    let serializations = match generate_serializations(&input.name, variants) {
        Ok(serializations) => serializations,
        Err(e) => {
            return Err(e);
        },
    };
    Ok(
        SerializeImpl {
            enum_name: input.name.clone(),
            impl_generics: collect_parameter_declarations(&input.type_parameters),
            type_generics: collect_parameter_names(&input.type_parameters),
            where_clause: duplicate_clause(&input.where_clause),
            patterns,
            serializations,
        },
    )
}

impl VariantPattern {
    /// The source text of the pattern: the path of the variant, then its
    /// bindings in parentheses or in braces.
    pub open spec fn text(self) -> Seq<char> {
        let path = self.enum_name@ + "::"@ + self.variant_name@;
        match self.shape {
            PatternShape::Bare => path,
            PatternShape::Tuple => path + "("@ + joined(texts(self.bindings@), ", "@) + ")"@,
            PatternShape::Struct => path + " { "@ + joined(texts(self.bindings@), ", "@) + " }"@,
        }
    }

    /// Writes the pattern out as source text.
    pub fn render(&self) -> (text: String)
        ensures
            text@ == self.text(),
    {
        let mut text = self.enum_name.clone();
        text.append("::");
        text.append(self.variant_name.as_str());
        match self.shape {
            PatternShape::Bare => {},
            PatternShape::Tuple => {
                let bindings = join(&self.bindings, ", ");
                text.append("(");
                text.append(bindings.as_str());
                text.append(")");
            },
            PatternShape::Struct => {
                let bindings = join(&self.bindings, ", ");
                text.append(" { ");
                text.append(bindings.as_str());
                text.append(" }");
            },
        }
        text
    }
}

/// The statement that serializes one field of a tuple or struct variant.
pub open spec fn field_statement(call: SerializeCall, field: Seq<char>) -> Seq<char> {
    match call {
        SerializeCall::StructVariant => "state.serialize_field(\""@ + field + "\", "@ + field
            + ")?; "@,
        _ => "state.serialize_field("@ + field + ")?; "@,
    }
}

/// The statements that serialize the fields, in declared order.
pub open spec fn field_statements(call: SerializeCall, fields: Seq<Seq<char>>) -> Seq<Seq<char>> {
    Seq::new(fields.len(), |i: int| field_statement(call, fields[i]))
}

impl Serialization {
    /// The call of the serializer method `method` up to the variant's name: the
    /// name of the type, the discriminant as a `u32`, the name of the variant.
    pub open spec fn call_text(self, method: Seq<char>) -> Seq<char> {
        "serializer."@ + method + "(\""@ + self.enum_name@ + "\", ("@
            + self.discriminant@.token_text() + ") as u32, \""@ + self.variant_name@ + "\""@
    }

    /// The source text of the arm's body.
    pub open spec fn text(self) -> Seq<char> {
        let fields = texts(self.fields@);
        match self.call {
            SerializeCall::UnitVariant => self.call_text("serialize_unit_variant"@) + ")"@,
            SerializeCall::NewtypeVariant => self.call_text("serialize_newtype_variant"@) + ", "@
                + joined(fields, ", "@) + ")"@,
            SerializeCall::TupleVariant => "{ use ::serde::ser::SerializeTupleVariant; let mut state = "@
                + self.call_text("serialize_tuple_variant"@) + ", "@ + decimal_text(fields.len())
                + ")?; "@ + joined(field_statements(self.call, fields), ""@) + "state.end() }"@,
            SerializeCall::StructVariant => "{ use ::serde::ser::SerializeStructVariant; let mut state = "@
                + self.call_text("serialize_struct_variant"@) + ", "@ + decimal_text(fields.len())
                + ")?; "@ + joined(field_statements(self.call, fields), ""@) + "state.end() }"@,
        }
    }

    /// Appends the call of `method` up to the variant's name.
    fn append_call(&self, text: &mut String, method: &str)
        ensures
            final(text)@ == old(text)@ + self.call_text(method@),
    {
        let id = self.discriminant.token_text();
        let mut call = String::from_str("serializer.");
        call.append(method);
        call.append("(\"");
        call.append(self.enum_name.as_str());
        call.append("\", (");
        call.append(id.as_str());
        call.append(") as u32, \"");
        call.append(self.variant_name.as_str());
        call.append("\"");
        text.append(call.as_str());
    }

    /// The statements that serialize the fields, in declared order.
    fn render_fields(&self) -> (statements: Vec<String>)
        ensures
            texts(statements@) == field_statements(self.call, texts(self.fields@)),
    {
        let mut statements: Vec<String> = Vec::new();
        let mut i: usize = 0;
        while i < self.fields.len()
            invariant
                i <= self.fields.len(),
                statements.len() == i,
                forall|j: int|
                    0 <= j < i ==> statements[j]@ == field_statement(self.call, self.fields[j]@),
            decreases self.fields.len() - i,
        {
            let field = self.fields[i].as_str();
            let mut statement = String::from_str("state.serialize_field(");
            match self.call {
                SerializeCall::StructVariant => {
                    statement = String::from_str("state.serialize_field(\"");
                    statement.append(field);
                    statement.append("\", ");
                },
                _ => {},
            }
            statement.append(field);
            statement.append(")?; ");
            statements.push(statement);
            i += 1;
        }
        assert(texts(statements@) =~= field_statements(self.call, texts(self.fields@)));
        statements
    }

    /// Writes the arm's body out as source text.
    pub fn render(&self) -> (text: String)
        ensures
            text@ == self.text(),
    {
        match self.call {
            SerializeCall::UnitVariant => {
                let mut text = String::new();
                self.append_call(&mut text, "serialize_unit_variant");
                text.append(")");
                assert(text@ =~= self.text());
                text
            },
            SerializeCall::NewtypeVariant => {
                let values = join(&self.fields, ", ");
                let mut text = String::new();
                self.append_call(&mut text, "serialize_newtype_variant");
                text.append(", ");
                text.append(values.as_str());
                text.append(")");
                assert(text@ =~= self.text());
                text
            },
            SerializeCall::TupleVariant => {
                let count = decimal_string(self.fields.len());
                let statements = join(&self.render_fields(), "");
                let mut text = String::from_str(
                    "{ use ::serde::ser::SerializeTupleVariant; let mut state = ",
                );
                self.append_call(&mut text, "serialize_tuple_variant");
                text.append(", ");
                text.append(count.as_str());
                text.append(")?; ");
                text.append(statements.as_str());
                text.append("state.end() }");
                text
            },
            SerializeCall::StructVariant => {
                let count = decimal_string(self.fields.len());
                let statements = join(&self.render_fields(), "");
                let mut text = String::from_str(
                    "{ use ::serde::ser::SerializeStructVariant; let mut state = ",
                );
                self.append_call(&mut text, "serialize_struct_variant");
                text.append(", ");
                text.append(count.as_str());
                text.append(")?; ");
                text.append(statements.as_str());
                text.append("state.end() }");
                text
            },
        }
    }
}

impl SerializeImpl {
    /// Every serialization has its pattern.
    pub open spec fn well_formed(self) -> bool {
        self.patterns.len() == self.serializations.len()
    }

    /// The arms of the match, in declaration order: pattern, arrow, body.
    pub open spec fn arms(self) -> Seq<Seq<char>> {
        Seq::new(
            self.patterns@.len(),
            |i: int| self.patterns[i].text() + " => "@ + self.serializations[i].text() + ", "@,
        )
    }

    /// The source text of the impl: the header, with the type's parameters and
    /// where-clause as declared, and one match over the value itself, with one
    /// arm for each variant.
    pub open spec fn text(self) -> Seq<char> {
        "impl"@ + generics_text(texts(self.impl_generics@)) + " ::serde::Serialize for "@
            + self.enum_name@ + generics_text(texts(self.type_generics@)) + clause_text(
            clause_view(self.where_clause),
        )
            + " { fn serialize<S>(&self, serializer: S) -> ::std::result::Result<S::Ok, S::Error> where S: ::serde::Serializer { match self { "@
            + joined(self.arms(), ""@) + "} } }"@
    }

    /// Writes the impl out as source text.
    pub fn render(&self) -> (text: String)
        requires
            self.well_formed(),
        ensures
            text@ == self.text(),
    {
        let mut arms: Vec<String> = Vec::new();
        let mut i: usize = 0;
        while i < self.patterns.len()
            invariant
                i <= self.patterns.len(),
                self.well_formed(),
                arms.len() == i,
                forall|j: int| 0 <= j < i ==> arms[j]@ == self.arms()[j],
            decreases self.patterns.len() - i,
        {
            let mut arm = self.patterns[i].render();
            let body = self.serializations[i].render();
            arm.append(" => ");
            arm.append(body.as_str());
            arm.append(", ");
            arms.push(arm);
            i += 1;
        }
        assert(texts(arms@) =~= self.arms());
        let all = join(&arms, "");
        let impl_generics = render_generics(&self.impl_generics);
        let type_generics = render_generics(&self.type_generics);
        let clause = render_clause(&self.where_clause);
        let mut text = String::from_str("impl");
        text.append(impl_generics.as_str());
        text.append(" ::serde::Serialize for ");
        text.append(self.enum_name.as_str());
        text.append(type_generics.as_str());
        text.append(clause.as_str());
        text.append(
            " { fn serialize<S>(&self, serializer: S) -> ::std::result::Result<S::Ok, S::Error> where S: ::serde::Serializer { match self { ",
        );
        text.append(all.as_str());
        text.append("} } }");
        text
    }
}

} // verus!
