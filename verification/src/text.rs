//! Strings in contracts: their texts, and comparing them.

use vstd::prelude::*;
use vstd::string::*;

verus! {

/// The text of an optional string.
pub open spec fn text_of(value: Option<String>) -> Option<Seq<char>> {
    match value {
        Some(text) => Some(text@),
        None => None,
    }
}

/// The texts of a sequence of strings.
pub open spec fn texts_of(values: Seq<String>) -> Seq<Seq<char>> {
    values.map_values(|value: String| value@)
}

/// Whether `text` reads as `literal`.
pub(crate) fn text_is(text: &String, literal: &str) -> (r: bool)
    ensures
        r == (text@ == literal@),
{
    let owned = literal.to_owned();
    *text == owned
}

/// Adds a copy of `value` behind the strings in `values`.
pub(crate) fn push_text(values: &mut Vec<String>, value: &String)
    ensures
        texts_of(final(values)@) == texts_of(old(values)@).push(value@),
{
    values.push(value.clone());
    assert(texts_of(values@) =~= texts_of(old(values)@).push(value@));
}

/// A copy of an optional string.
pub(crate) fn copy_text(value: &Option<String>) -> (r: Option<String>)
    ensures
        text_of(r) == text_of(*value),
{
    match value {
        Some(text) => Some(text.clone()),
        None => None,
    }
}

} // verus!
