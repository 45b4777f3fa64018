//! Reading the answer of the time endpoint: a JSON object with exactly one
//! field, named after the product, that holds the two tokens of the current
//! snapshot. The JSON itself is read by `serde_json`.

use vstd::prelude::*;
use crate::request::{ProductIdentifiers, ProductView};

verus! {

/// Makes `serde_json::Error`, the reason a text could not be read as JSON,
/// known as a type whose inside is not looked at.
#[verifier::external_type_specification]
#[verifier::external_body]
pub struct ExJsonError(serde_json::Error);

/// What `serde_json::from_slice` makes of a byte string when asked for a map
/// from strings to lists of strings: `None` where the bytes are not JSON of
/// that shape, else the fields ordered by name with the list of each.
pub uninterp spec fn parsed_token_table(body: Seq<u8>) -> Option<
    Seq<(Seq<char>, Seq<Seq<char>>)>,
>;

/// Calls `serde_json::from_slice` for a `BTreeMap<String, Vec<String>>` and
/// lists the entries of the map in its order. Trusted: the outcome depends
/// on the bytes alone.
#[verifier::external_body]
fn parse_token_table(body: &[u8]) -> (r: Result<Vec<(String, Vec<String>)>, serde_json::Error>)
    ensures
        r is Ok <==> parsed_token_table(body@) is Some,
        r is Ok ==> Some(r->Ok_0.deep_view()) == parsed_token_table(body@),
{
    match serde_json::from_slice::<std::collections::BTreeMap<String, Vec<String>>>(body) {
        Ok(table) => Ok(table.into_iter().collect()),
        Err(e) => Err(e),
    }
}

/// The tokens that a table of fields holds for a product: the table has
/// exactly one field, it is named after the product, and it lists exactly
/// two tokens.
pub open spec fn product_in(table: Seq<(Seq<char>, Seq<Seq<char>>)>, name: Seq<char>) -> Option<
    ProductView,
> {
    if table.len() == 1 && table[0].0 == name && table[0].1.len() == 2 {
        Some(ProductView { token0: table[0].1[0], token1: table[0].1[1] })
    } else {
        None
    }
}

/// The tokens that the body of an answer holds for a product, if it has the
/// expected shape.
pub open spec fn resolved_product(body: Seq<u8>, name: Seq<char>) -> Option<ProductView> {
    match parsed_token_table(body) {
        Some(table) => product_in(table, name),
        None => None,
    }
}

impl ProductIdentifiers {
    /// Picks the two tokens out of a parsed answer; `None` unless the answer
    /// has exactly one field, named `name`, with exactly two tokens.
    pub fn from_table(table: &Vec<(String, Vec<String>)>, name: &String) -> (p: Option<
        ProductIdentifiers,
    >)
        ensures
            p is Some <==> product_in(table.deep_view(), name@) is Some,
            p is Some ==> Some(p->0@) == product_in(table.deep_view(), name@),
    {
        if table.len() != 1 {
            return None;
        }
        let entry = &table[0];
        assert(table.deep_view()[0] == (entry.0@, entry.1.deep_view()));
        if entry.0 != *name {
            return None;
        }
        if entry.1.len() != 2 {
            return None;
        }
        assert(entry.1.deep_view()[0] == entry.1@[0]@);
        assert(entry.1.deep_view()[1] == entry.1@[1]@);
        Some(ProductIdentifiers { token0: entry.1[0].clone(), token1: entry.1[1].clone() })
    }

    /// Reads the tokens of a product from the body of an answer.
    pub fn parse(body: &[u8], name: &String) -> (p: Option<ProductIdentifiers>)
        ensures
            p is Some <==> resolved_product(body@, name@) is Some,
            p is Some ==> Some(p->0@) == resolved_product(body@, name@),
    {
        match parse_token_table(body) {
            Ok(table) => Self::from_table(&table, name),
            Err(_) => None,
        }
    }
}

} // verus!
