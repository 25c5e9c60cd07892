//! What the declaration of a VLM type says of its constants, in an
//! attribute of the form `vlm(A = 86, L = 76, M = 77, vlm = 12345, as = "Alias")`.

use crate::vlm::VlmOptions;
use vstd::prelude::*;

verus! {

/// The value of a pair in an attribute.
pub enum Literal {
    /// An integer.
    Int(i128),
    /// A text between quotes.
    Str(String),
    /// Any other literal.
    Other,
}

/// An item of an attribute's list.
pub enum MetaItem {
    /// A name alone.
    Path,
    /// A name and a list in brackets.
    List,
    /// A name, `=` and a value. The name is there where it is a single
    /// word, the value where it is a literal.
    NameValue { ident: Option<String>, value: Option<Literal> },
}

/// The value that counts for `key`: that of the last pair with this key.
pub open spec fn last_value(pairs: Seq<(String, Literal)>, key: Seq<char>) -> Option<Literal>
    decreases pairs.len(),
{
    if pairs.len() == 0 {
        None
    } else if pairs.last().0@ == key {
        Some(pairs.last().1)
    } else {
        last_value(pairs.drop_last(), key)
    }
}

/// An integer fits a letter code.
pub open spec fn fits_code(value: Option<Literal>) -> bool {
    value matches Some(Literal::Int(n)) ==> i32::MIN <= n <= i32::MAX
}

/// An integer fits the packed number.
pub open spec fn fits_number(value: Option<Literal>) -> bool {
    value matches Some(Literal::Int(n)) ==> i64::MIN <= n <= i64::MAX
}

/// The letter code that a value gives: an integer gives itself, and
/// anything else gives none, so that the default counts.
pub open spec fn code_of(value: Option<Literal>) -> Option<i32> {
    match value {
        Some(Literal::Int(n)) => Some(n as i32),
        _ => None,
    }
}

/// The packed number that a value gives: an integer gives itself, any
/// other value gives 0, and no value gives none.
pub open spec fn number_of(value: Option<Literal>) -> Option<i64> {
    match value {
        Some(Literal::Int(n)) => Some(n as i64),
        Some(_) => Some(0),
        None => None,
    }
}

/// The alias that a value gives: a text gives itself, and anything else
/// gives none, so that the name of the type counts.
pub open spec fn alias_of(value: Option<Literal>) -> Option<String> {
    match value {
        Some(Literal::Str(text)) => Some(text),
        _ => None,
    }
}

/// A copy of a literal.
fn copy_of(literal: &Literal) -> (copy: Literal)
    ensures
        copy == *literal,
{
    match literal {
        Literal::Int(n) => Literal::Int(*n),
        Literal::Str(text) => Literal::Str(text.clone()),
        Literal::Other => Literal::Other,
    }
}

/// The name and the value of an item, where the item is a name with a
/// value, the name is a single word and the value is a literal.
pub fn as_name_value_pair(meta: &MetaItem) -> (pair: Option<(String, Literal)>)
    ensures
        pair == match *meta {
            MetaItem::NameValue { ident: Some(name), value: Some(literal) } => Some(
                (name, literal),
            ),
            _ => None,
        },
{
    match meta {
        MetaItem::NameValue { ident: Some(name), value: Some(literal) } => Some(
            (name.clone(), copy_of(literal)),
        ),
        _ => None,
    }
}

/// The value that counts for `key` among the pairs.
pub fn lookup(pairs: &Vec<(String, Literal)>, key: &str) -> (value: Option<Literal>)
    ensures
        value == last_value(pairs@, key@),
{
    let wanted = String::from_str(key);
    let mut found: Option<Literal> = None;
    let mut i: usize = 0;
    while i < pairs.len()
        invariant
            i <= pairs.len(),
            wanted@ == key@,
            found == last_value(pairs@.subrange(0, i as int), key@),
        decreases pairs.len() - i,
    {
        proof {
            let next = pairs@.subrange(0, i + 1);
            assert(next.drop_last() == pairs@.subrange(0, i as int));
        }
        if pairs[i].0 == wanted {
            found = Some(copy_of(&pairs[i].1));
        }
        i += 1;
    }
    assert(pairs@.subrange(0, pairs.len() as int) == pairs@);
    found
}

/// Reads the constants that the pairs of an attribute give. Of two pairs
/// with one key the later counts. `A`, `L` and `M` give a letter code where
/// their value is an integer; `vlm` gives the packed number, which is 0
/// where its value is no integer; `as` gives the alias where its value is
/// a text.
pub fn read_options(pairs: &Vec<(String, Literal)>) -> (options: VlmOptions)
    requires
        fits_code(last_value(pairs@, "A"@)),
        fits_code(last_value(pairs@, "L"@)),
        fits_code(last_value(pairs@, "M"@)),
        fits_number(last_value(pairs@, "vlm"@)),
    ensures
        options.v == code_of(last_value(pairs@, "A"@)),
        options.l == code_of(last_value(pairs@, "L"@)),
        options.m == code_of(last_value(pairs@, "M"@)),
        options.vlm == number_of(last_value(pairs@, "vlm"@)),
        options.alias == alias_of(last_value(pairs@, "as"@)),
{
    let v = code(lookup(pairs, "A"));
    let l = code(lookup(pairs, "L"));
    let m = code(lookup(pairs, "M"));
    let vlm = match lookup(pairs, "vlm") {
        Some(Literal::Int(n)) => Some(n as i64),
        Some(_) => Some(0),
        None => None,
    };
    let alias = match lookup(pairs, "as") {
        Some(Literal::Str(text)) => Some(text),
        _ => None,
    };
    VlmOptions { v, l, m, vlm, alias }
}

/// The letter code that a value gives.
fn code(value: Option<Literal>) -> (code: Option<i32>)
    requires
        fits_code(value),
    ensures
        code == code_of(value),
{
    match value {
        Some(Literal::Int(n)) => Some(n as i32),
        _ => None,
    }
}

} // verus!
