//! Building source text out of parts.

use crate::schema::{clause_view, texts};
use vstd::prelude::*;
use vstd::string::*;

verus! {

/// The parts in order, with the separator between each two.
pub open spec fn joined(parts: Seq<Seq<char>>, separator: Seq<char>) -> Seq<char>
    decreases parts.len(),
{
    if parts.len() == 0 {
        Seq::empty()
    } else if parts.len() == 1 {
        parts[0]
    } else {
        joined(parts.drop_last(), separator) + separator + parts.last()
    }
}

/// Joins the parts in order, with the separator between each two.
pub fn join(parts: &Vec<String>, separator: &str) -> (text: String)
    ensures
        text@ == joined(texts(parts@), separator@),
{
    let mut text = String::new();
    let mut i: usize = 0;
    let ghost all = texts(parts@);
    while i < parts.len()
        invariant
            i <= parts.len(),
            all == texts(parts@),
            text@ == joined(all.take(i as int), separator@),
        decreases parts.len() - i,
    {
        let ghost before = all.take(i as int);
        let ghost after = all.take(i + 1);
        assert(after.drop_last() =~= before);
        assert(after.last() == parts[i as int]@);
        if i > 0 {
            text.append(separator);
        } else {
            assert(text@ =~= Seq::<char>::empty());
        }
        text.append(parts[i].as_str());
        assert(text@ =~= joined(after, separator@));
        i += 1;
    }
    assert(all.take(i as int) =~= all);
    text
}

/// A list of generics as it stands behind a name: nothing where there are
/// none, else the parameters between angle brackets.
pub open spec fn generics_text(generics: Seq<Seq<char>>) -> Seq<char> {
    if generics.len() == 0 {
        Seq::empty()
    } else {
        "<"@ + joined(generics, ", "@) + ">"@
    }
}

/// Writes a list of generics out as it stands behind a name.
pub fn render_generics(generics: &Vec<String>) -> (text: String)
    ensures
        text@ == generics_text(texts(generics@)),
{
    if generics.len() == 0 {
        String::new()
    } else {
        let list = join(generics, ", ");
        let mut text = String::from_str("<");
        text.append(list.as_str());
        text.append(">");
        text
    }
}

/// A where-clause as it stands in a header: nothing where there is none, else
/// a space and the clause.
pub open spec fn clause_text(clause: Option<Seq<char>>) -> Seq<char> {
    match clause {
        Some(text) => " "@ + text,
        None => Seq::empty(),
    }
}

/// Writes a where-clause out as it stands in a header.
pub fn render_clause(clause: &Option<String>) -> (text: String)
    ensures
        text@ == clause_text(clause_view(*clause)),
{
    match clause {
        Some(written) => {
            let mut text = String::from_str(" ");
            text.append(written.as_str());
            text
        },
        None => String::new(),
    }
}

} // verus!
