//! The decoder: a visitor that reads a discriminant, finds the variant that it
//! belongs to, and reads that variant's payload.

use crate::resolve::{
    collect_variant_ids, ids_view, lemma_defaults_count_from_zero, resolution_matches, resolve,
    sources_of, DiscriminantSource,
};
use crate::serialize::{
    serializations_match, serialize_call, serialized_ids, Serialization, SerializeCall,
};
use crate::schema::{
    clause_view, collect_parameter_declarations, collect_parameter_names, duplicate_clause,
    duplicate_texts, get_enum_data, parameter_declarations, parameter_names, texts,
    variant_names, Declaration, DeclarationData, FieldShape, GenError, TypeParameter,
    VariantDefinition,
};
use crate::text::{clause_text, generics_text, join, joined, render_clause, render_generics};
use crate::variant_id::{DiscriminantValue, VariantId};
use vstd::prelude::*;
use vstd::string::*;

verus! {

/// The payload that the visitor consumes once it has found the variant.
#[derive(Clone, Copy, Debug, PartialEq, Eq, Structural)]
pub enum PayloadKind {
    /// A unit payload; the bare variant is built.
    Unit,
    /// A newtype payload; the variant is built around the decoded value.
    Newtype,
}

/// How one variant is rebuilt.
#[derive(Debug)]
pub struct VariantDeserialization {
    pub enum_name: String,
    pub variant_name: String,
    pub payload: PayloadKind,
}

/// The visitor of a sum type: discriminant `i` guards deserialization `i`, and
/// the guards are tested in declaration order.
#[derive(Debug)]
pub struct Visitor {
    pub enum_name: String,
    /// The type's parameters as the visitor's own type declares them.
    pub parameters: Vec<String>,
    /// The parameters of the visitor's impl: the lifetime of the decoded data,
    /// then the type's parameters.
    pub impl_generics: Vec<String>,
    /// The type's parameters as they stand behind a name.
    pub generics: Vec<String>,
    /// The type's where-clause.
    pub where_clause: Option<String>,
    pub expecting: String,
    pub variant_ids: Vec<VariantId>,
    pub deserializations: Vec<VariantDeserialization>,
}

/// The decode entry point of a sum type.
#[derive(Debug)]
pub struct DeserializeImpl {
    pub enum_name: String,
    /// The lifetime of the decoded data, then the type's parameters as the
    /// impl declares them, bounds included.
    pub impl_generics: Vec<String>,
    /// The type's parameters as they stand behind its name.
    pub type_generics: Vec<String>,
    /// The type's where-clause.
    pub where_clause: Option<String>,
    pub variant_names: Vec<String>,
    pub visitor: Visitor,
}

/// The failure of a decode whose discriminant belongs to no variant.
#[derive(Debug)]
pub struct UnknownVariant {
    /// The discriminant as it was read.
    pub discriminant: u64,
    /// The names of all declared variants, in declaration order.
    pub variants: Vec<String>,
}

/// The lifetime of the data that is decoded.
pub open spec fn decode_lifetime() -> Seq<char> {
    seq!['\'', 'd', 'e']
}

/// The payload that the decoder can read for a field shape, if it can read one.
pub open spec fn payload_kind(fields: FieldShape) -> Option<PayloadKind> {
    match fields {
        FieldShape::Unit => Some(PayloadKind::Unit),
        FieldShape::Positional(count) => if count == 1 {
            Some(PayloadKind::Newtype)
        } else {
            None
        },
        FieldShape::Named(_) => None,
    }
}

/// Whether the decoder can rebuild every variant.
pub open spec fn all_supported(variants: Seq<VariantDefinition>) -> bool {
    forall|i: int| 0 <= i < variants.len() ==> (#[trigger] payload_kind(variants[i].fields)) is Some
}

/// Whether `deserialization` rebuilds `variant` of the type named `enum_name`.
pub open spec fn deserialization_matches(
    deserialization: VariantDeserialization,
    enum_name: Seq<char>,
    variant: VariantDefinition,
) -> bool {
    &&& deserialization.enum_name@ == enum_name
    &&& deserialization.variant_name@ == variant.name@
    &&& Some(deserialization.payload) == payload_kind(variant.fields)
}

/// Whether `outcome` is what is owed for `variants`: one deserialization per
/// variant in declaration order, or the refusal of a shape that cannot be rebuilt.
pub open spec fn deserializations_match(
    outcome: Result<Vec<VariantDeserialization>, GenError>,
    enum_name: Seq<char>,
    variants: Seq<VariantDefinition>,
) -> bool {
    match outcome {
        Ok(deserializations) => {
            &&& all_supported(variants)
            &&& deserializations.len() == variants.len()
            &&& forall|i: int|
                0 <= i < variants.len() ==> deserialization_matches(
                    #[trigger] deserializations[i],
                    enum_name,
                    variants[i],
                )
        },
        Err(e) => e == GenError::UnsupportedShape && !all_supported(variants),
    }
}

/// The text that the visitor gives for what it expects.
pub open spec fn expecting_text(enum_name: Seq<char>) -> Seq<char> {
    seq!['e', 'n', 'u', 'm', ' '] + enum_name
}

/// Whether `outcome` is the visitor owed for `variants`. Discriminants are
/// resolved first, so a failure of resolution comes before a refused shape.
pub open spec fn visitor_matches(
    outcome: Result<Visitor, GenError>,
    enum_name: Seq<char>,
    parameters: Seq<TypeParameter>,
    where_clause: Option<Seq<char>>,
    variants: Seq<VariantDefinition>,
) -> bool {
    match outcome {
        Ok(visitor) => {
            &&& visitor.well_formed()
            &&& visitor.enum_name@ == enum_name
            &&& texts(visitor.parameters@) == parameter_declarations(parameters)
            &&& texts(visitor.impl_generics@) == seq![decode_lifetime()] + parameter_declarations(
                parameters,
            )
            &&& texts(visitor.generics@) == parameter_names(parameters)
            &&& clause_view(visitor.where_clause) == where_clause
            &&& visitor.expecting@ == expecting_text(enum_name)
            &&& resolution_matches(variants, Ok(ids_view(visitor.variant_ids@)))
            &&& deserializations_match(Ok(visitor.deserializations), enum_name, variants)
        },
        Err(e) => {
            ||| resolution_matches(variants, Err(e))
            ||| {
                &&& resolution_matches(variants, Ok(resolve(sources_of(variants))))
                &&& deserializations_match(Err(e), enum_name, variants)
            }
        },
    }
}

/// The encoder and the decoder of one declaration carry the same discriminants,
/// variant by variant.
pub proof fn lemma_same_discriminants(
    variants: Seq<VariantDefinition>,
    enum_name: Seq<char>,
    parameters: Seq<TypeParameter>,
    where_clause: Option<Seq<char>>,
    serializations: Vec<Serialization>,
    visitor: Visitor,
)
    requires
        serializations_match(Ok(serializations), enum_name, variants),
        visitor_matches(Ok(visitor), enum_name, parameters, where_clause, variants),
    ensures
        serialized_ids(serializations@) == ids_view(visitor.variant_ids@),
{
}

/// For a variant that the decoder can rebuild, the payload that it reads is the
/// payload that the encoder writes: a unit payload for a unit variant, a newtype
/// payload for a variant with one unnamed field.
pub proof fn lemma_payload_agrees(fields: FieldShape)
    requires
        payload_kind(fields) is Some,
    ensures
        payload_kind(fields) == Some(PayloadKind::Unit) <==> serialize_call(fields)
            == SerializeCall::UnitVariant,
        payload_kind(fields) == Some(PayloadKind::Newtype) <==> serialize_call(fields)
            == SerializeCall::NewtypeVariant,
{
}

/// The generics of the decode impl: the lifetime of the decoded data, then the
/// type's own parameters in their order.
pub fn build_generics(generics: &Vec<String>) -> (extended: Vec<String>)
    ensures
        texts(extended@) == seq![decode_lifetime()] + texts(generics@),
{
    proof {
        reveal_strlit("'de");
    }
    let lifetime = String::from_str("'de");
    assert(lifetime@ =~= decode_lifetime());
    let mut extended: Vec<String> = Vec::new();
    extended.push(lifetime);
    let mut i: usize = 0;
    while i < generics.len()
        invariant
            i <= generics.len(),
            extended.len() == i + 1,
            extended[0]@ == decode_lifetime(),
            forall|j: int| 0 <= j < i ==> extended[j + 1]@ == generics[j]@,
        decreases generics.len() - i,
    {
        extended.push(generics[i].clone());
        i += 1;
    }
    assert(texts(extended@) =~= seq![decode_lifetime()] + texts(generics@));
    extended
}

/// The names of the variants, in declaration order.
pub fn retrieve_variant_names(variants: &Vec<VariantDefinition>) -> (names: Vec<String>)
    ensures
        texts(names@) == variant_names(variants@),
{
    let mut names: Vec<String> = Vec::new();
    let mut i: usize = 0;
    while i < variants.len()
        invariant
            i <= variants.len(),
            names.len() == i,
            forall|j: int| 0 <= j < i ==> names[j]@ == variants[j].name@,
        decreases variants.len() - i,
    {
        names.push(variants[i].name.clone());
        i += 1;
    }
    assert(texts(names@) =~= variant_names(variants@));
    names
}

/// How each variant is rebuilt, in declaration order. A variant with named
/// fields, or with a number of unnamed fields other than one, is refused.
pub fn generate_variant_deserializations(
    enum_name: &String,
    variants: &Vec<VariantDefinition>,
) -> (outcome: Result<Vec<VariantDeserialization>, GenError>)
    ensures
        deserializations_match(outcome, enum_name@, variants@),
{
    let mut deserializations: Vec<VariantDeserialization> = Vec::new();
    let mut i: usize = 0;
    while i < variants.len()
        invariant
            i <= variants.len(),
            deserializations.len() == i,
            forall|j: int| 0 <= j < i ==> (#[trigger] payload_kind(variants[j].fields)) is Some,
            forall|j: int|
                0 <= j < i ==> deserialization_matches(
                    #[trigger] deserializations[j],
                    enum_name@,
                    variants[j],
                ),
        decreases variants.len() - i,
    {
        let variant = &variants[i];
        let payload = match &variant.fields {
            FieldShape::Unit => PayloadKind::Unit,
            FieldShape::Positional(count) => {
                if *count == 1 {
                    PayloadKind::Newtype
                } else {
                    assert(payload_kind(variants[i as int].fields) is None);
                    return Err(GenError::UnsupportedShape);
                }
            },
            FieldShape::Named(_) => {
                assert(payload_kind(variants[i as int].fields) is None);
                return Err(GenError::UnsupportedShape);
            },
        };
        deserializations.push(
            VariantDeserialization {
                enum_name: enum_name.clone(),
                variant_name: variant.name.clone(),
                payload,
            },
        );
        i += 1;
    }
    Ok(deserializations)
}

/// The visitor of a sum type: what it expects, and for each variant in
/// declaration order its resolved discriminant and how it is rebuilt.
pub fn build_visitor(
    name: &String,
    parameters: &Vec<TypeParameter>,
    where_clause: &Option<String>,
    variants: &Vec<VariantDefinition>,
) -> (outcome: Result<Visitor, GenError>)
    ensures
        visitor_matches(outcome, name@, parameters@, clause_view(*where_clause), variants@),
{
    proof {
        reveal_strlit("enum ");
    }
    let mut expecting = String::from_str("enum ");
    expecting.append(name.as_str());
    assert(expecting@ =~= expecting_text(name@));
    let variant_ids = match collect_variant_ids(variants) {
        Ok(ids) => ids,
        Err(e) => {
            return Err(e);
        },
    };
    assert(ids_view(variant_ids@) == resolve(sources_of(variants@)));
    let deserializations = match generate_variant_deserializations(name, variants) {
        Ok(deserializations) => deserializations,
        Err(e) => {
            return Err(e);
        },
    };
    let declarations = collect_parameter_declarations(parameters);
    Ok(
        Visitor {
            enum_name: name.clone(),
            impl_generics: build_generics(&declarations),
            parameters: declarations,
            generics: collect_parameter_names(parameters),
            where_clause: duplicate_clause(where_clause),
            expecting,
            variant_ids,
            deserializations,
        },
    )
}

/// Whether `outcome` is the decode entry point owed for `input`.
pub open spec fn derive_matches(input: Declaration, outcome: Result<DeserializeImpl, GenError>) -> bool {
    match input.data {
        DeclarationData::Enum(variants) => match outcome {
            Ok(generated) => {
                &&& generated.enum_name@ == input.name@
                &&& texts(generated.impl_generics@) == seq![decode_lifetime()]
                    + parameter_declarations(input.type_parameters@)
                &&& texts(generated.type_generics@) == parameter_names(input.type_parameters@)
                &&& clause_view(generated.where_clause) == clause_view(input.where_clause)
                &&& texts(generated.variant_names@) == variant_names(variants@)
                &&& visitor_matches(
                    Ok(generated.visitor),
                    input.name@,
                    input.type_parameters@,
                    clause_view(input.where_clause),
                    variants@,
                )
            },
            Err(e) => visitor_matches(
                Err(e),
                input.name@,
                input.type_parameters@,
                clause_view(input.where_clause),
                variants@,
            ),
        },
        _ => outcome is Err && outcome->Err_0 == GenError::NotASumType,
    }
}

/// Lays out the decode entry point of a declaration: for a sum type whose
/// variants can all be rebuilt, the variant names and the visitor; a failure
/// for any other type, where a discriminant cannot be resolved, or where a
/// variant has a shape that cannot be rebuilt.
pub fn derive(input: &Declaration) -> (outcome: Result<DeserializeImpl, GenError>)
    ensures
        derive_matches(*input, outcome),
{
    let impl_generics = build_generics(&collect_parameter_declarations(&input.type_parameters));
    let type_generics = collect_parameter_names(&input.type_parameters);
    let variants = match get_enum_data(input) {
        Ok(variants) => variants,
        Err(e) => {
            return Err(e);
        },
    };
    let names = retrieve_variant_names(variants);
    let visitor = match build_visitor(
        &input.name,
        &input.type_parameters,
        &input.where_clause,
        variants,
    ) {
        Ok(visitor) => visitor,
        Err(e) => {
            return Err(e);
        },
    };
    Ok(
        DeserializeImpl {
            enum_name: input.name.clone(),
            impl_generics,
            type_generics,
            where_clause: duplicate_clause(&input.where_clause),
            variant_names: names,
            visitor,
        },
    )
}

/// Whether `choice` is what the visitor's tests give for `discriminant`: the
/// first variant in declaration order whose wire discriminant, a 32-bit number,
/// equals the 64-bit number that was read, or none where no variant's does.
pub open spec fn selects(wire_ids: Seq<u32>, discriminant: u64, choice: Option<int>) -> bool {
    match choice {
        Some(i) => {
            &&& 0 <= i < wire_ids.len()
            &&& wire_ids[i] as u64 == discriminant
            &&& forall|j: int| 0 <= j < i ==> wire_ids[j] as u64 != discriminant
        },
        None => forall|j: int| 0 <= j < wire_ids.len() ==> wire_ids[j] as u64 != discriminant,
    }
}

/// What the outcome of a decode chose.
pub open spec fn choice_of(outcome: Result<usize, UnknownVariant>) -> Option<int> {
    match outcome {
        Ok(i) => Some(i as int),
        Err(_) => None,
    }
}

/// The numbers on the wire of discriminants that are all concrete; `None` where
/// one of them is symbolic.
pub fn concrete_wire_ids(ids: &Vec<VariantId>) -> (wire_ids: Option<Vec<u32>>)
    ensures
        match wire_ids {
            Some(values) => {
                &&& values.len() == ids.len()
                &&& forall|i: int|
                    0 <= i < ids.len() ==> (#[trigger] ids[i])@ == DiscriminantValue::Concrete(
                        values[i] as int,
                    )
            },
            None => exists|i: int| 0 <= i < ids.len() && (#[trigger] ids[i])@ is Symbolic,
        },
{
    let mut values: Vec<u32> = Vec::new();
    let mut i: usize = 0;
    while i < ids.len()
        invariant
            i <= ids.len(),
            values.len() == i,
            forall|j: int|
                0 <= j < i ==> (#[trigger] ids[j])@ == DiscriminantValue::Concrete(values[j] as int),
        decreases ids.len() - i,
    {
        match ids[i].concrete_value() {
            Some(value) => values.push(value),
            None => {
                assert(ids[i as int]@ is Symbolic);
                return None;
            },
        }
        i += 1;
    }
    Some(values)
}

/// The visitor's step on a discriminant: the index of the first variant, in
/// declaration order, whose wire discriminant equals the one that was read.
/// The comparison is made in 64 bits, so a discriminant beyond 32 bits belongs
/// to no variant. Where there is none, the failure carries the discriminant as
/// it was read and the names of all variants.
pub fn visit_enum(wire_ids: &Vec<u32>, names: &Vec<String>, discriminant: u64) -> (outcome: Result<
    usize,
    UnknownVariant,
>)
    ensures
        selects(wire_ids@, discriminant, choice_of(outcome)),
        match outcome {
            Ok(_) => true,
            Err(unknown) => unknown.discriminant == discriminant && texts(unknown.variants@)
                == texts(names@),
        },
{
    let mut i: usize = 0;
    while i < wire_ids.len()
        invariant
            i <= wire_ids.len(),
            forall|j: int| 0 <= j < i ==> wire_ids[j] as u64 != discriminant,
        decreases wire_ids.len() - i,
    {
        if wire_ids[i] as u64 == discriminant {
            return Ok(i);
        }
        i += 1;
    }
    Err(UnknownVariant { discriminant, variants: duplicate_texts(names) })
}

/// A variant that is encoded under its wire discriminant is found again by the
/// visitor, provided that no variant declared before it has the same one.
pub proof fn lemma_round_trip(wire_ids: Seq<u32>, i: int, choice: Option<int>)
    requires
        0 <= i < wire_ids.len(),
        forall|j: int| 0 <= j < i ==> wire_ids[j] != wire_ids[i],
        selects(wire_ids, wire_ids[i] as u64, choice),
    ensures
        choice == Some(i),
{
}

/// With no discriminant written anywhere, every variant is found again under
/// the number it is encoded with: its position in the declaration.
pub proof fn lemma_round_trip_by_position(
    sources: Seq<DiscriminantSource>,
    wire_ids: Seq<u32>,
    i: int,
    choice: Option<int>,
)
    requires
        0 <= i < sources.len(),
        forall|j: int| 0 <= j < sources.len() ==> sources[j] == DiscriminantSource::Inherit,
        wire_ids.len() == sources.len(),
        forall|j: int|
            0 <= j < sources.len() ==> resolve(sources)[j] == DiscriminantValue::Concrete(
                #[trigger] wire_ids[j] as int,
            ),
        selects(wire_ids, wire_ids[i] as u64, choice),
    ensures
        wire_ids[i] == i,
        choice == Some(i),
{
    assert forall|j: int| 0 <= j < sources.len() implies #[trigger] wire_ids[j] == j by {
        lemma_defaults_count_from_zero(sources, j);
    }
    lemma_round_trip(wire_ids, i, choice);
}

/// A discriminant that belongs to no variant is never decoded as one.
pub proof fn lemma_unmatched_fails(wire_ids: Seq<u32>, discriminant: u64, choice: Option<int>)
    requires
        forall|j: int| 0 <= j < wire_ids.len() ==> wire_ids[j] as u64 != discriminant,
        selects(wire_ids, discriminant, choice),
    ensures
        choice is None,
{
}

/// Each name as a string literal.
pub open spec fn quoted(names: Seq<Seq<char>>) -> Seq<Seq<char>> {
    Seq::new(names.len(), |i: int| "\""@ + names[i] + "\""@)
}

/// Writes each name as a string literal.
pub fn quote_names(names: &Vec<String>) -> (literals: Vec<String>)
    ensures
        texts(literals@) == quoted(texts(names@)),
{
    let mut literals: Vec<String> = Vec::new();
    let mut i: usize = 0;
    while i < names.len()
        invariant
            i <= names.len(),
            literals.len() == i,
            forall|j: int| 0 <= j < i ==> literals[j]@ == "\""@ + names[j]@ + "\""@,
        decreases names.len() - i,
    {
        let mut literal = String::from_str("\"");
        literal.append(names[i].as_str());
        literal.append("\"");
        literals.push(literal);
        i += 1;
    }
    assert(texts(literals@) =~= quoted(texts(names@)));
    literals
}

impl VariantDeserialization {
    /// The source text of the block that reads the payload and builds the variant.
    pub open spec fn text(self) -> Seq<char> {
        match self.payload {
            PayloadKind::Unit => "variant_visitor.unit_variant()?; Ok("@ + self.enum_name@ + "::"@
                + self.variant_name@ + ")"@,
            PayloadKind::Newtype => "Ok("@ + self.enum_name@ + "::"@ + self.variant_name@
                + "(variant_visitor.new_type_variant()?))"@,
        }
    }

    /// Writes the block out as source text.
    pub fn render(&self) -> (text: String)
        ensures
            text@ == self.text(),
    {
        match self.payload {
            PayloadKind::Unit => {
                let mut text = String::from_str("variant_visitor.unit_variant()?; Ok(");
                text.append(self.enum_name.as_str());
                text.append("::");
                text.append(self.variant_name.as_str());
                text.append(")");
                text
            },
            PayloadKind::Newtype => {
                let mut text = String::from_str("Ok(");
                text.append(self.enum_name.as_str());
                text.append("::");
                text.append(self.variant_name.as_str());
                text.append("(variant_visitor.new_type_variant()?))");
                text
            },
        }
    }
}

impl Visitor {
    /// Every discriminant guards a deserialization.
    pub open spec fn well_formed(self) -> bool {
        self.variant_ids.len() == self.deserializations.len()
    }

    /// The tests on the discriminant, in declaration order: each compares what
    /// was read, in 64 bits, with a variant's discriminant as a `u32`, and on a
    /// match rebuilds that variant.
    pub open spec fn branches(self) -> Seq<Seq<char>> {
        Seq::new(
            self.variant_ids@.len(),
            |i: int|
                "if variant_id == (("@ + self.variant_ids[i]@.token_text() + ") as u32) as u64 { "@
                    + self.deserializations[i].text() + " } else "@,
        )
    }

    /// The type that the visitor builds: the sum type with its parameters.
    pub open spec fn value_text(self) -> Seq<char> {
        self.enum_name@ + generics_text(texts(self.generics@))
    }

    /// The source text of the visitor: a type of its own with the sum type's
    /// parameters and where-clause, and its impl. After the last test stands the
    /// failure, which reports the discriminant as read and the names of all
    /// variants.
    pub open spec fn text(self) -> Seq<char> {
        "struct Visitor"@ + generics_text(texts(self.parameters@))
            + "(::std::marker::PhantomData<fn() -> "@ + self.value_text() + ">)"@ + clause_text(
            clause_view(self.where_clause),
        ) + "; impl"@ + generics_text(texts(self.impl_generics@))
            + " ::serde::de::Visitor<'de> for Visitor"@ + generics_text(texts(self.generics@))
            + clause_text(clause_view(self.where_clause)) + " { type Value = "@
            + self.value_text()
            + "; fn expecting(&self, formatter: &mut ::std::fmt::Formatter) -> ::std::fmt::Result { formatter.write_str(\""@
            + self.expecting@
            + "\") } fn visit_enum<V>(self, enum_visitor: V) -> ::std::result::Result<Self::Value, V::Error> where V: ::serde::de::EnumAccess<'de> { use ::serde::de::VariantAccess; let (variant_id, variant_visitor): (u64, _) = enum_visitor.variant()?; "@
            + joined(self.branches(), ""@)
            + "{ Err(::serde::de::Error::unknown_variant(&format!(\"? (discriminator is {})\", variant_id), VARIANTS)) } } }"@
    }

    /// Writes the visitor out as source text.
    pub fn render(&self) -> (text: String)
        requires
            self.well_formed(),
        ensures
            text@ == self.text(),
    {
        let mut branches: Vec<String> = Vec::new();
        let mut i: usize = 0;
        while i < self.variant_ids.len()
            invariant
                i <= self.variant_ids.len(),
                self.well_formed(),
                branches.len() == i,
                forall|j: int| 0 <= j < i ==> branches[j]@ == self.branches()[j],
            decreases self.variant_ids.len() - i,
        {
            let id = self.variant_ids[i].token_text();
            let block = self.deserializations[i].render();
            let mut branch = String::from_str("if variant_id == ((");
            branch.append(id.as_str());
            branch.append(") as u32) as u64 { ");
            branch.append(block.as_str());
            branch.append(" } else ");
            branches.push(branch);
            i += 1;
        }
        assert(texts(branches@) =~= self.branches());
        let tests = join(&branches, "");
        let parameters = render_generics(&self.parameters);
        let impl_generics = render_generics(&self.impl_generics);
        let generics = render_generics(&self.generics);
        let clause = render_clause(&self.where_clause);
        let mut value = self.enum_name.clone();
        value.append(generics.as_str());
        let mut text = String::from_str("struct Visitor");
        text.append(parameters.as_str());
        text.append("(::std::marker::PhantomData<fn() -> ");
        text.append(value.as_str());
        text.append(">)");
        text.append(clause.as_str());
        text.append("; impl");
        text.append(impl_generics.as_str());
        text.append(" ::serde::de::Visitor<'de> for Visitor");
        text.append(generics.as_str());
        text.append(clause.as_str());
        text.append(" { type Value = ");
        text.append(value.as_str());
        text.append(
            "; fn expecting(&self, formatter: &mut ::std::fmt::Formatter) -> ::std::fmt::Result { formatter.write_str(\"",
        );
        text.append(self.expecting.as_str());
        text.append(
            "\") } fn visit_enum<V>(self, enum_visitor: V) -> ::std::result::Result<Self::Value, V::Error> where V: ::serde::de::EnumAccess<'de> { use ::serde::de::VariantAccess; let (variant_id, variant_visitor): (u64, _) = enum_visitor.variant()?; ",
        );
        text.append(tests.as_str());
        text.append(
            "{ Err(::serde::de::Error::unknown_variant(&format!(\"? (discriminator is {})\", variant_id), VARIANTS)) } } }",
        );
        text
    }
}

impl DeserializeImpl {
    /// The source text of the impl: the header, with the type's parameters and
    /// where-clause as declared, the list of variant names, the visitor, and the
    /// call that hands both to the deserializer.
    pub open spec fn text(self) -> Seq<char> {
        "impl"@ + generics_text(texts(self.impl_generics@)) + " ::serde::Deserialize<'de> for "@
            + self.enum_name@ + generics_text(texts(self.type_generics@)) + clause_text(
            clause_view(self.where_clause),
        )
            + " { fn deserialize<D>(deserializer: D) -> ::std::result::Result<Self, D::Error> where D: ::serde::Deserializer<'de> { const VARIANTS: &[&str] = &["@
            + joined(quoted(texts(self.variant_names@)), ", "@) + "]; "@ + self.visitor.text()
            + " deserializer.deserialize_enum(\""@ + self.enum_name@
            + "\", VARIANTS, Visitor(::std::marker::PhantomData)) } }"@
    }

    /// Writes the impl out as source text.
    pub fn render(&self) -> (text: String)
        requires
            self.visitor.well_formed(),
        ensures
            text@ == self.text(),
    {
        let impl_generics = render_generics(&self.impl_generics);
        let type_generics = render_generics(&self.type_generics);
        let clause = render_clause(&self.where_clause);
        let names = join(&quote_names(&self.variant_names), ", ");
        let visitor = self.visitor.render();
        let mut text = String::from_str("impl");
        text.append(impl_generics.as_str());
        text.append(" ::serde::Deserialize<'de> for ");
        text.append(self.enum_name.as_str());
        text.append(type_generics.as_str());
        text.append(clause.as_str());
        text.append(
            " { fn deserialize<D>(deserializer: D) -> ::std::result::Result<Self, D::Error> where D: ::serde::Deserializer<'de> { const VARIANTS: &[&str] = &[",
        );
        text.append(names.as_str());
        text.append("]; ");
        text.append(visitor.as_str());
        text.append(" deserializer.deserialize_enum(\"");
        text.append(self.enum_name.as_str());
        text.append("\", VARIANTS, Visitor(::std::marker::PhantomData)) } }");
        text
    }
}

} // verus!
