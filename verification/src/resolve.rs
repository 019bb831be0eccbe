//! Discriminant resolution: one left-to-right pass over the variants with a
//! running default that literals and annotations reset.

use crate::schema::{Attribute, DirectDiscriminant, GenError, VariantDefinition};
use crate::variant_id::{DiscriminantValue, VariantId};
use quote::ToTokens;
use vstd::prelude::*;
use vstd::string::*;

verus! {

/// Where a variant takes its discriminant from.
pub enum DiscriminantSource {
    /// Nothing is written: the running default applies.
    Inherit,
    /// An integer literal at the variant.
    Literal(int),
    /// The expression of a `variant_id` annotation.
    Annotation(Seq<char>),
}

/// The discriminant of a variant with source `source` when the running default is `default`.
pub open spec fn assigned(source: DiscriminantSource, default: DiscriminantValue) -> DiscriminantValue {
    match source {
        DiscriminantSource::Literal(v) => DiscriminantValue::Concrete(v),
        DiscriminantSource::Annotation(e) => DiscriminantValue::Symbolic(e, 0),
        DiscriminantSource::Inherit => default,
    }
}

/// The running default when the scan reaches variant `i`: zero at the start, and
/// afterwards the successor of the discriminant of the variant before.
pub open spec fn running_default(sources: Seq<DiscriminantSource>, i: int) -> DiscriminantValue
    decreases i,
{
    if i <= 0 {
        DiscriminantValue::Concrete(0)
    } else {
        assigned(sources[i - 1], running_default(sources, i - 1)).successor()
    }
}

/// The discriminant that variant `i` resolves to.
pub open spec fn resolved_at(sources: Seq<DiscriminantSource>, i: int) -> DiscriminantValue {
    assigned(sources[i], running_default(sources, i))
}

/// The discriminants of all variants, in declaration order.
pub open spec fn resolve(sources: Seq<DiscriminantSource>) -> Seq<DiscriminantValue> {
    Seq::new(sources.len(), |i: int| resolved_at(sources, i))
}

/// `d` moved `k` steps forward.
pub open spec fn advanced(d: DiscriminantValue, k: int) -> DiscriminantValue {
    match d {
        DiscriminantValue::Concrete(v) => DiscriminantValue::Concrete(v + k),
        DiscriminantValue::Symbolic(e, o) => DiscriminantValue::Symbolic(e, o + k),
    }
}

/// Variants without a discriminant of their own count on from the last variant
/// that had one: if every variant after `k` up to `m` inherits, variant `m`
/// resolves to the discriminant of variant `k` moved `m - k` steps forward.
pub proof fn lemma_inherited_run(sources: Seq<DiscriminantSource>, k: int, m: int)
    requires
        0 <= k <= m < sources.len(),
        forall|j: int| k < j <= m ==> sources[j] == DiscriminantSource::Inherit,
    ensures
        resolved_at(sources, m) == advanced(resolved_at(sources, k), m - k),
    decreases m - k,
{
    if k < m {
        lemma_inherited_run(sources, k, m - 1);
    }
}

/// With no discriminant written anywhere, the variants resolve to 0, 1, 2, ...
/// in declaration order.
pub proof fn lemma_defaults_count_from_zero(sources: Seq<DiscriminantSource>, i: int)
    requires
        0 <= i < sources.len(),
        forall|j: int| 0 <= j < sources.len() ==> sources[j] == DiscriminantSource::Inherit,
    ensures
        resolved_at(sources, i) == DiscriminantValue::Concrete(i),
        resolve(sources)[i] == DiscriminantValue::Concrete(i),
    decreases i,
{
    if 0 < i {
        lemma_defaults_count_from_zero(sources, i - 1);
    }
}

/// After a variant that resolves to the number `l`, the variants that inherit
/// resolve to `l + 1`, `l + 2`, ... until the next literal or annotation.
pub proof fn lemma_literal_run(sources: Seq<DiscriminantSource>, k: int, m: int, l: int)
    requires
        0 <= k <= m < sources.len(),
        resolved_at(sources, k) == DiscriminantValue::Concrete(l),
        forall|j: int| k < j <= m ==> sources[j] == DiscriminantSource::Inherit,
    ensures
        resolved_at(sources, m) == DiscriminantValue::Concrete(l + (m - k)),
        resolve(sources)[m] == DiscriminantValue::Concrete(l + (m - k)),
{
    lemma_inherited_run(sources, k, m);
}

/// A variant annotated with the expression `e` resolves to `e` plus zero, and the
/// variants that inherit after it to `e` plus 1, 2, ... until the next literal or
/// annotation.
pub proof fn lemma_annotation_run(sources: Seq<DiscriminantSource>, k: int, m: int, e: Seq<char>)
    requires
        0 <= k <= m < sources.len(),
        sources[k] == DiscriminantSource::Annotation(e),
        forall|j: int| k < j <= m ==> sources[j] == DiscriminantSource::Inherit,
    ensures
        resolved_at(sources, k) == DiscriminantValue::Symbolic(e, 0),
        resolved_at(sources, m) == DiscriminantValue::Symbolic(e, m - k),
        resolve(sources)[m] == DiscriminantValue::Symbolic(e, m - k),
{
    lemma_inherited_run(sources, k, m);
}

/// The two sides of the assignment that the text of an annotation's tokens holds
/// between its parentheses; `None` where the text is anything else.
pub uninterp spec fn parenthesized_assignment(body: Seq<char>) -> Option<(Seq<char>, Seq<char>)>;

/// Calls `syn::parse_str` for a `syn::ExprParen` on the text of an annotation's tokens.
///
/// Trusted: the outcome depends on the text alone. The wrapper hands out the token
/// text of the two sides where the parentheses hold an assignment, and `None`
/// where the text does not parse or holds another expression.
#[verifier::external_body]
fn parse_parenthesized_assignment(body: &str) -> (sides: Option<(String, String)>)
    ensures
        match sides {
            Some(pair) => parenthesized_assignment(body@) == Some((pair.0@, pair.1@)),
            None => parenthesized_assignment(body@).is_none(),
        },
{
    match syn::parse_str::<syn::ExprParen>(body) {
        Ok(paren) => match *paren.expr {
            syn::Expr::Assign(assign) => Some(
                (
                    assign.left.into_token_stream().to_string(),
                    assign.right.into_token_stream().to_string(),
                ),
            ),
            _ => None,
        },
        Err(_) => None,
    }
}

/// The key that an annotation assigns to.
pub open spec fn annotation_key() -> Seq<char> {
    "variant_id"@
}

/// The path of the attribute that carries an annotation.
pub open spec fn annotation_path() -> Seq<char> {
    "serde_enum"@
}

/// The source that an annotation gives, from the two sides of its assignment.
pub open spec fn assignment_source(sides: Option<(Seq<char>, Seq<char>)>) -> Result<
    DiscriminantSource,
    GenError,
> {
    match sides {
        None => Err(GenError::MalformedAnnotation),
        Some((left, right)) => if left == annotation_key() {
            Ok(DiscriminantSource::Annotation(right))
        } else {
            Err(GenError::UnexpectedAnnotationKey)
        },
    }
}

/// The source that the attributes from index `i` on give: that of the first
/// attribute with the annotation's path, and `Inherit` where there is none.
pub open spec fn attribute_source(attributes: Seq<Attribute>, i: int) -> Result<
    DiscriminantSource,
    GenError,
>
    decreases attributes.len() - i,
{
    if i < 0 || i >= attributes.len() {
        Ok(DiscriminantSource::Inherit)
    } else if attributes[i].path@ == annotation_path() {
        assignment_source(parenthesized_assignment(attributes[i].body@))
    } else {
        attribute_source(attributes, i + 1)
    }
}

/// The value of an integer literal as a 32-bit discriminant: its low 32 bits.
pub open spec fn literal_value(value: u64) -> int {
    value as int % 0x1_0000_0000
}

/// The source of a variant's discriminant: the literal at the variant first,
/// then the annotation, then the running default.
pub open spec fn variant_source(variant: VariantDefinition) -> Result<DiscriminantSource, GenError> {
    match variant.discriminant {
        DirectDiscriminant::IntegerLiteral(value) => Ok(
            DiscriminantSource::Literal(literal_value(value)),
        ),
        DirectDiscriminant::Other => Err(GenError::NonLiteralDiscriminant),
        DirectDiscriminant::Absent => attribute_source(variant.attributes@, 0),
    }
}

/// The discriminant that a source fixes by itself, if it fixes one.
pub open spec fn own_discriminant(source: DiscriminantSource) -> Option<DiscriminantValue> {
    match source {
        DiscriminantSource::Inherit => None,
        _ => Some(assigned(source, DiscriminantValue::Concrete(0))),
    }
}

/// What an optional identifier denotes.
pub open spec fn id_view(id: Option<VariantId>) -> Option<DiscriminantValue> {
    match id {
        Some(id) => Some(id@),
        None => None,
    }
}

/// What the outcome of reading one source denotes.
pub open spec fn outcome_view(outcome: Result<Option<VariantId>, GenError>) -> Result<
    Option<DiscriminantValue>,
    GenError,
> {
    match outcome {
        Ok(id) => Ok(id_view(id)),
        Err(e) => Err(e),
    }
}

/// What a source, or the failure to read one, gives as a discriminant.
pub open spec fn source_outcome(source: Result<DiscriminantSource, GenError>) -> Result<
    Option<DiscriminantValue>,
    GenError,
> {
    match source {
        Ok(s) => Ok(own_discriminant(s)),
        Err(e) => Err(e),
    }
}

/// The discriminant written at the variant itself: `None` where nothing is
/// written, a failure where it is not an integer literal.
pub fn retrieve_discriminant_id(variant: &VariantDefinition) -> (id: Result<
    Option<VariantId>,
    GenError,
>)
    ensures
        outcome_view(id) == match variant.discriminant {
            DirectDiscriminant::IntegerLiteral(value) => Ok::<Option<DiscriminantValue>, GenError>(
                Some(DiscriminantValue::Concrete(literal_value(value))),
            ),
            DirectDiscriminant::Other => Err(GenError::NonLiteralDiscriminant),
            DirectDiscriminant::Absent => Ok(None),
        },
{
    match variant.discriminant {
        DirectDiscriminant::IntegerLiteral(value) => {
            let low: u64 = value % 0x1_0000_0000;
            Ok(Some(VariantId::from_value(low as u32)))
        },
        DirectDiscriminant::Other => Err(GenError::NonLiteralDiscriminant),
        DirectDiscriminant::Absent => Ok(None),
    }
}

/// The discriminant of an annotation, from the two sides of its assignment: the
/// right side where the left side is the key `variant_id`.
pub fn attribute_id_from_assignment(sides: Option<(String, String)>) -> (id: Result<
    VariantId,
    GenError,
>)
    ensures
        match sides {
            None => id == Err::<VariantId, GenError>(GenError::MalformedAnnotation),
            Some(pair) => if pair.0@ == annotation_key() {
                id is Ok && id->Ok_0@ == DiscriminantValue::Symbolic(pair.1@, 0)
            } else {
                id == Err::<VariantId, GenError>(GenError::UnexpectedAnnotationKey)
            },
        },
{
    match sides {
        None => Err(GenError::MalformedAnnotation),
        Some(pair) => {
            let key = String::from_str("variant_id");
            if pair.0 == key {
                Ok(VariantId::from_expression(pair.1))
            } else {
                Err(GenError::UnexpectedAnnotationKey)
            }
        },
    }
}

/// The discriminant that the text of an annotation's tokens gives.
pub fn parse_attribute_id(body: &str) -> (id: Result<VariantId, GenError>)
    ensures
        outcome_view(
            match id {
                Ok(v) => Ok(Some(v)),
                Err(e) => Err(e),
            },
        ) == source_outcome(assignment_source(parenthesized_assignment(body@))),
{
    let sides = parse_parenthesized_assignment(body);
    attribute_id_from_assignment(sides)
}

/// The discriminant of the variant's annotation: that of its first attribute
/// with the path `serde_enum`, `None` where it has no such attribute.
pub fn retrieve_attribute_id(variant: &VariantDefinition) -> (id: Result<
    Option<VariantId>,
    GenError,
>)
    ensures
        outcome_view(id) == source_outcome(attribute_source(variant.attributes@, 0)),
{
    let path = String::from_str("serde_enum");
    let mut i: usize = 0;
    while i < variant.attributes.len()
        invariant
            i <= variant.attributes.len(),
            path@ == annotation_path(),
            attribute_source(variant.attributes@, 0) == attribute_source(
                variant.attributes@,
                i as int,
            ),
        decreases variant.attributes.len() - i,
    {
        if variant.attributes[i].path == path {
            return match parse_attribute_id(variant.attributes[i].body.as_str()) {
                Ok(id) => Ok(Some(id)),
                Err(e) => Err(e),
            };
        }
        i += 1;
    }
    Ok(None)
}

/// The discriminant that a variant names for itself, from either source.
pub fn retrieve_own_id(variant: &VariantDefinition) -> (id: Result<Option<VariantId>, GenError>)
    ensures
        outcome_view(id) == source_outcome(variant_source(*variant)),
{
    match variant.discriminant {
        DirectDiscriminant::Absent => retrieve_attribute_id(variant),
        _ => retrieve_discriminant_id(variant),
    }
}

/// The sources of the variants; one that cannot be read counts as `Inherit`.
pub open spec fn sources_of(variants: Seq<VariantDefinition>) -> Seq<DiscriminantSource> {
    Seq::new(
        variants.len(),
        |i: int|
            match variant_source(variants[i]) {
                Ok(s) => s,
                Err(_) => DiscriminantSource::Inherit,
            },
    )
}

/// What the scan finds at variant `i`: its discriminant, or why it has none.
pub open spec fn outcome_at(variants: Seq<VariantDefinition>, i: int) -> Result<
    DiscriminantValue,
    GenError,
> {
    match variant_source(variants[i]) {
        Err(e) => Err(e),
        Ok(_) => {
            let d = resolved_at(sources_of(variants), i);
            if d.fits() {
                Ok(d)
            } else {
                Err(GenError::DiscriminantOverflow)
            }
        },
    }
}

/// What resolution of the whole declaration gives: the discriminants of all
/// variants, or the failure of the first variant that has one.
pub open spec fn resolution_matches(
    variants: Seq<VariantDefinition>,
    outcome: Result<Seq<DiscriminantValue>, GenError>,
) -> bool {
    match outcome {
        Ok(ids) => {
            &&& ids == resolve(sources_of(variants))
            &&& forall|i: int|
                0 <= i < variants.len() ==> #[trigger] outcome_at(variants, i) == Ok::<
                    DiscriminantValue,
                    GenError,
                >(ids[i])
        },
        Err(e) => exists|k: int|
            {
                &&& 0 <= k < variants.len()
                &&& #[trigger] outcome_at(variants, k) == Err::<DiscriminantValue, GenError>(e)
                &&& forall|j: int| 0 <= j < k ==> (#[trigger] outcome_at(variants, j)) is Ok
            },
    }
}

/// What a vector of identifiers denotes.
pub open spec fn ids_view(ids: Seq<VariantId>) -> Seq<DiscriminantValue> {
    Seq::new(ids.len(), |i: int| ids[i]@)
}

/// What the outcome of resolution denotes.
pub open spec fn resolution_view(outcome: Result<Vec<VariantId>, GenError>) -> Result<
    Seq<DiscriminantValue>,
    GenError,
> {
    match outcome {
        Ok(ids) => Ok(ids_view(ids@)),
        Err(e) => Err(e),
    }
}

/// Resolves the discriminant of every variant, in declaration order.
pub fn collect_variant_ids(variants: &Vec<VariantDefinition>) -> (ids: Result<
    Vec<VariantId>,
    GenError,
>)
    ensures
        resolution_matches(variants@, resolution_view(ids)),
{
    let ghost sources = sources_of(variants@);
    let mut ids: Vec<VariantId> = Vec::new();
    let mut default: Option<VariantId> = Some(VariantId::default());
    let mut i: usize = 0;
    while i < variants.len()
        invariant
            i <= variants.len(),
            sources == sources_of(variants@),
            ids.len() == i,
            forall|j: int|
                0 <= j < i ==> #[trigger] outcome_at(variants@, j) == Ok::<
                    DiscriminantValue,
                    GenError,
                >(ids[j]@),
            match default {
                Some(d) => d@ == running_default(sources, i as int),
                None => !running_default(sources, i as int).fits(),
            },
        decreases variants.len() - i,
    {
        let own = match retrieve_own_id(&variants[i]) {
            Ok(own) => own,
            Err(e) => {
                assert(outcome_at(variants@, i as int) == Err::<DiscriminantValue, GenError>(e));
                return Err(e);
            },
        };
        let id = match own {
            Some(id) => id,
            None => match default {
                Some(d) => d,
                None => {
                    assert(outcome_at(variants@, i as int) == Err::<DiscriminantValue, GenError>(
                        GenError::DiscriminantOverflow,
                    ));
                    return Err(GenError::DiscriminantOverflow);
                },
            },
        };
        assert(id@ == resolved_at(sources, i as int));
        assert(outcome_at(variants@, i as int) == Ok::<DiscriminantValue, GenError>(id@));
        assert(running_default(sources, i + 1) == id@.successor());
        default = if id.offset < u32::MAX {
            Some(id.next())
        } else {
            None
        };
        ids.push(id);
        i += 1;
    }
    assert(ids_view(ids@) =~= resolve(sources)) by {
        assert forall|j: int| 0 <= j < ids.len() implies ids_view(ids@)[j] == resolve(sources)[j] by {
            assert(outcome_at(variants@, j) == Ok::<DiscriminantValue, GenError>(ids[j]@));
        }
    }
    Ok(ids)
}

} // verus!
