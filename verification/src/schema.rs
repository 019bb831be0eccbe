//! The structural description of a type declaration that the generators read.

use vstd::prelude::*;
use vstd::string::*;

verus! {

/// Why generation was abandoned for a declaration.
#[derive(Clone, Copy, Debug, PartialEq, Eq, Structural)]
pub enum GenError {
    /// The declaration is a struct or a union.
    NotASumType,
    /// A discriminant written at the variant is not an integer literal.
    NonLiteralDiscriminant,
    /// An annotation is not a parenthesized assignment.
    MalformedAnnotation,
    /// An annotation assigns to something other than `variant_id`.
    UnexpectedAnnotationKey,
    /// A variant would inherit a discriminant beyond 32 bits.
    DiscriminantOverflow,
    /// A variant has a field shape that the decoder cannot rebuild.
    UnsupportedShape,
}

impl GenError {
    /// The text of the diagnostic.
    pub open spec fn message_text(self) -> Seq<char> {
        match self {
            GenError::NotASumType => "can't derive on types that aren't enums"@,
            GenError::NonLiteralDiscriminant => "expecting an enum with integer discriminants"@,
            GenError::MalformedAnnotation => "expected \"variant_id = ...\""@,
            GenError::UnexpectedAnnotationKey => "expected \"variant_id\""@,
            GenError::DiscriminantOverflow => "discriminant does not fit in 32 bits"@,
            GenError::UnsupportedShape => "can only decode unit variants and variants with one unnamed field"@,
        }
    }

    /// The diagnostic that is reported with the failure.
    pub fn message(&self) -> (text: String)
        ensures
            text@ == self.message_text(),
    {
        match self {
            GenError::NotASumType => String::from_str("can't derive on types that aren't enums"),
            GenError::NonLiteralDiscriminant => String::from_str(
                "expecting an enum with integer discriminants",
            ),
            GenError::MalformedAnnotation => String::from_str("expected \"variant_id = ...\""),
            GenError::UnexpectedAnnotationKey => String::from_str("expected \"variant_id\""),
            GenError::DiscriminantOverflow => String::from_str(
                "discriminant does not fit in 32 bits",
            ),
            GenError::UnsupportedShape => String::from_str(
                "can only decode unit variants and variants with one unnamed field",
            ),
        }
    }
}

/// The payload of a variant.
#[derive(Debug)]
pub enum FieldShape {
    /// No payload.
    Unit,
    /// Unnamed fields; the number of them.
    Positional(usize),
    /// Named fields; their names in declared order.
    Named(Vec<String>),
}

/// The expression, if any, written after `=` at the variant itself.
#[derive(Clone, Copy, Debug, PartialEq, Eq, Structural)]
pub enum DirectDiscriminant {
    Absent,
    /// An integer literal and its value.
    IntegerLiteral(u64),
    /// Any other expression.
    Other,
}

/// An attribute on a variant: its path, and the text of the tokens after it.
#[derive(Debug)]
pub struct Attribute {
    pub path: String,
    pub body: String,
}

/// One variant as declared.
#[derive(Debug)]
pub struct VariantDefinition {
    pub name: String,
    pub fields: FieldShape,
    pub discriminant: DirectDiscriminant,
    pub attributes: Vec<Attribute>,
}

/// What kind of type a declaration introduces.
#[derive(Debug)]
pub enum DeclarationData {
    /// A sum type, with its variants in declaration order.
    Enum(Vec<VariantDefinition>),
    Struct,
    Union,
}

/// One generic parameter of a declaration.
#[derive(Debug)]
pub struct TypeParameter {
    /// The parameter as it stands behind the type's name: `T`, `'a`, `N`.
    pub name: String,
    /// The parameter as the header of an impl declares it, with its bounds:
    /// `T: Clone`, `'a`, `const N: usize`.
    pub declaration: String,
}

/// A type declaration.
#[derive(Debug)]
pub struct Declaration {
    pub name: String,
    /// The generic parameters, in declared order.
    pub type_parameters: Vec<TypeParameter>,
    /// The where-clause as written, keyword included.
    pub where_clause: Option<String>,
    pub data: DeclarationData,
}

/// The names of the parameters, in declared order.
pub open spec fn parameter_names(parameters: Seq<TypeParameter>) -> Seq<Seq<char>> {
    Seq::new(parameters.len(), |i: int| parameters[i].name@)
}

/// The declarations of the parameters, in declared order.
pub open spec fn parameter_declarations(parameters: Seq<TypeParameter>) -> Seq<Seq<char>> {
    Seq::new(parameters.len(), |i: int| parameters[i].declaration@)
}

/// The text of an optional clause.
pub open spec fn clause_view(clause: Option<String>) -> Option<Seq<char>> {
    match clause {
        Some(text) => Some(text@),
        None => None,
    }
}

/// The names of the parameters, in declared order.
pub fn collect_parameter_names(parameters: &Vec<TypeParameter>) -> (names: Vec<String>)
    ensures
        texts(names@) == parameter_names(parameters@),
{
    let mut names: Vec<String> = Vec::new();
    let mut i: usize = 0;
    while i < parameters.len()
        invariant
            i <= parameters.len(),
            names.len() == i,
            forall|j: int| 0 <= j < i ==> names[j]@ == parameters[j].name@,
        decreases parameters.len() - i,
    {
        names.push(parameters[i].name.clone());
        i += 1;
    }
    assert(texts(names@) =~= parameter_names(parameters@));
    names
}

/// The declarations of the parameters, in declared order.
pub fn collect_parameter_declarations(parameters: &Vec<TypeParameter>) -> (declarations: Vec<
    String,
>)
    ensures
        texts(declarations@) == parameter_declarations(parameters@),
{
    let mut declarations: Vec<String> = Vec::new();
    let mut i: usize = 0;
    while i < parameters.len()
        invariant
            i <= parameters.len(),
            declarations.len() == i,
            forall|j: int| 0 <= j < i ==> declarations[j]@ == parameters[j].declaration@,
        decreases parameters.len() - i,
    {
        declarations.push(parameters[i].declaration.clone());
        i += 1;
    }
    assert(texts(declarations@) =~= parameter_declarations(parameters@));
    declarations
}

/// Copies an optional clause.
pub fn duplicate_clause(clause: &Option<String>) -> (copy: Option<String>)
    ensures
        clause_view(copy) == clause_view(*clause),
{
    match clause {
        Some(text) => Some(text.clone()),
        None => None,
    }
}

/// The variants of a sum type; any other declaration is refused.
pub fn get_enum_data(input: &Declaration) -> (data: Result<&Vec<VariantDefinition>, GenError>)
    ensures
        data == match input.data {
            DeclarationData::Enum(variants) => Ok::<&Vec<VariantDefinition>, GenError>(&variants),
            _ => Err(GenError::NotASumType),
        },
{
    match &input.data {
        DeclarationData::Enum(variants) => Ok(variants),
        _ => Err(GenError::NotASumType),
    }
}

/// The names of the variants, as a sequence of texts.
pub open spec fn variant_names(variants: Seq<VariantDefinition>) -> Seq<Seq<char>> {
    Seq::new(variants.len(), |i: int| variants[i].name@)
}

/// The texts that a vector of strings holds.
pub open spec fn texts(strings: Seq<String>) -> Seq<Seq<char>> {
    Seq::new(strings.len(), |i: int| strings[i]@)
}

/// Copies a vector of strings.
pub fn duplicate_texts(strings: &Vec<String>) -> (copy: Vec<String>)
    ensures
        texts(copy@) == texts(strings@),
{
    let mut copy: Vec<String> = Vec::new();
    let mut i: usize = 0;
    while i < strings.len()
        invariant
            i <= strings.len(),
            copy.len() == i,
            forall|j: int| 0 <= j < i ==> copy[j]@ == strings[j]@,
        decreases strings.len() - i,
    {
        copy.push(strings[i].clone());
        i += 1;
    }
    assert(texts(copy@) =~= texts(strings@));
    copy
}

} // verus!
