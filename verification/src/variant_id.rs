//! Wire discriminants: a concrete number, or a base expression plus an offset.

use vstd::prelude::*;
use vstd::string::*;

verus! {

/// The discriminant that a variant resolves to.
///
/// `Concrete(v)` is the number `v` itself. `Symbolic(e, k)` stands for the value of
/// the expression `e`, which only the host program can evaluate, plus `k`.
pub enum DiscriminantValue {
    Concrete(int),
    Symbolic(Seq<char>, int),
}

impl DiscriminantValue {
    /// The discriminant that the next variant inherits when it names none of its own.
    pub open spec fn successor(self) -> DiscriminantValue {
        match self {
            DiscriminantValue::Concrete(v) => DiscriminantValue::Concrete(v + 1),
            DiscriminantValue::Symbolic(e, k) => DiscriminantValue::Symbolic(e, k + 1),
        }
    }

    /// The integer part: the value itself, or the offset from the base expression.
    pub open spec fn offset(self) -> int {
        match self {
            DiscriminantValue::Concrete(v) => v,
            DiscriminantValue::Symbolic(_, k) => k,
        }
    }

    /// Whether the integer part fits the 32 bits of a wire discriminant.
    pub open spec fn fits(self) -> bool {
        0 <= self.offset() <= u32::MAX
    }

    /// The source text that evaluates to this discriminant in the host program:
    /// the literal, or the base expression in parentheses, a plus sign and the
    /// offset's literal. The parentheses keep the base one operand of the sum,
    /// whatever operators it holds.
    pub open spec fn token_text(self) -> Seq<char>
        recommends
            self.fits(),
    {
        match self {
            DiscriminantValue::Concrete(v) => suffixed_text(v as nat),
            DiscriminantValue::Symbolic(e, k) => seq!['('] + e + seq![')', ' ', '+', ' ']
                + suffixed_text(k as nat),
        }
    }
}

/// The decimal digits of `n`, most significant first.
pub open spec fn decimal_text(n: nat) -> Seq<char>
    decreases n,
{
    let digit = seq!['0', '1', '2', '3', '4', '5', '6', '7', '8', '9'][(n % 10) as int];
    if n < 10 {
        seq![digit]
    } else {
        decimal_text(n / 10).push(digit)
    }
}

/// The decimal digits of `n` as a string.
pub fn decimal_string(n: usize) -> (text: String)
    ensures
        text@ == decimal_text(n as nat),
    decreases n,
{
    let digit: &str = match n % 10 {
        0 => "0",
        1 => "1",
        2 => "2",
        3 => "3",
        4 => "4",
        5 => "5",
        6 => "6",
        7 => "7",
        8 => "8",
        _ => "9",
    };
    proof {
        reveal_strlit("0");
        reveal_strlit("1");
        reveal_strlit("2");
        reveal_strlit("3");
        reveal_strlit("4");
        reveal_strlit("5");
        reveal_strlit("6");
        reveal_strlit("7");
        reveal_strlit("8");
        reveal_strlit("9");
    }
    let ghost c = seq!['0', '1', '2', '3', '4', '5', '6', '7', '8', '9'][(n % 10) as int];
    assert(digit@ =~= seq![c]);
    if n < 10 {
        String::from_str(digit)
    } else {
        let mut text = decimal_string(n / 10);
        text.append(digit);
        assert(text@ =~= decimal_text((n / 10) as nat).push(c));
        text
    }
}

/// The text of the `u32` literal for `n`: its decimal digits and the type suffix.
pub open spec fn suffixed_text(n: nat) -> Seq<char> {
    decimal_text(n) + seq!['u', '3', '2']
}

/// Calls `proc_macro2::Literal::u32_suffixed` and prints the literal it makes.
///
/// Trusted: the literal's text is the decimal digits of `n` followed by `u32`.
#[verifier::external_body]
fn suffixed_literal(n: u32) -> (text: String)
    ensures
        text@ == suffixed_text(n as nat),
{
    proc_macro2::Literal::u32_suffixed(n).to_string()
}

/// The identifier of one variant while discriminants are being resolved.
#[derive(Clone, Debug)]
pub struct VariantId {
    pub expression: Option<String>,
    pub offset: u32,
}

impl View for VariantId {
    type V = DiscriminantValue;

    open spec fn view(&self) -> DiscriminantValue {
        match self.expression {
            Some(e) => DiscriminantValue::Symbolic(e@, self.offset as int),
            None => DiscriminantValue::Concrete(self.offset as int),
        }
    }
}

impl Default for VariantId {
    /// The discriminant of a first variant that names none: zero.
    fn default() -> (id: VariantId)
        ensures
            id@ == DiscriminantValue::Concrete(0),
    {
        VariantId { expression: None, offset: 0 }
    }
}

impl VariantId {
    /// The discriminant given by an annotation: the expression itself, offset zero.
    pub fn from_expression(expression: String) -> (id: VariantId)
        ensures
            id@ == DiscriminantValue::Symbolic(expression@, 0),
    {
        VariantId { expression: Some(expression), offset: 0 }
    }

    /// The discriminant given by an integer literal.
    pub fn from_value(value: u32) -> (id: VariantId)
        ensures
            id@ == DiscriminantValue::Concrete(value as int),
    {
        VariantId { expression: None, offset: value }
    }

    /// The discriminant that the following variant inherits.
    pub fn next(&self) -> (id: VariantId)
        requires
            self.offset < u32::MAX,
        ensures
            id@ == self@.successor(),
    {
        VariantId { expression: self.duplicate().expression, offset: self.offset + 1 }
    }

    /// A copy that denotes the same discriminant.
    pub fn duplicate(&self) -> (id: VariantId)
        ensures
            id@ == self@,
            id.offset == self.offset,
    {
        let expression = match &self.expression {
            Some(e) => Some(e.clone()),
            None => None,
        };
        VariantId { expression, offset: self.offset }
    }

    /// The number that a concrete discriminant stands for; `None` for a symbolic one.
    pub fn concrete_value(&self) -> (value: Option<u32>)
        ensures
            value == match self@ {
                DiscriminantValue::Concrete(v) => Some(v as u32),
                DiscriminantValue::Symbolic(_, _) => None,
            },
    {
        match &self.expression {
            Some(_) => None,
            None => Some(self.offset),
        }
    }

    /// The source text of the discriminant: the literal, or the base expression
    /// in parentheses, a plus sign and the offset's literal.
    pub fn token_text(&self) -> (text: String)
        ensures
            text@ == self@.token_text(),
    {
        let literal = suffixed_literal(self.offset);
        match &self.expression {
            Some(e) => {
                proof {
                    reveal_strlit("(");
                    reveal_strlit(") + ");
                }
                let mut text = String::from_str("(");
                text.append(e.as_str());
                text.append(") + ");
                text.append(literal.as_str());
                assert("("@ =~= seq!['(']);
                assert(") + "@ =~= seq![')', ' ', '+', ' ']);
                text
            },
            None => literal,
        }
    }
}

} // verus!
