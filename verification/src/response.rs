//! The vendor's answer: a flat JSON object with the three numbers of a quote.

use vstd::prelude::*;

use crate::error::QuoteError;
use crate::float::Float64;
use crate::json::{
    json_content, json_document, read_document, read_double, read_member, read_member_count,
    read_unsigned, Json,
};

verus! {

/// The three numbers of the vendor's answer.
#[derive(Clone, Copy, Debug)]
pub struct ApiResponse {
    /// Current price.
    pub price: Float64,
    /// Number of shares traded.
    pub volume: u64,
    /// Market capitalization.
    pub market_cap: Float64,
}

/// The double under `key` in a document, by its bit pattern: the member has
/// to be there and to be a number.
pub open spec fn double_member(doc: Json, key: Seq<char>) -> Option<u64> {
    match doc.member(key) {
        Some(value) => value.as_double(),
        None => None,
    }
}

/// The unsigned integer under `key` in a document: the member has to be
/// there and to be a number that is written as an integer from 0 to
/// `u64::MAX`.
pub open spec fn unsigned_member(doc: Json, key: Seq<char>) -> Option<u64> {
    match doc.member(key) {
        Some(value) => value.as_unsigned(),
        None => None,
    }
}

/// The keys of an answer's three members.
pub open spec fn answer_keys() -> Set<Seq<char>> {
    set!["price"@, "volume"@, "market_cap"@]
}

/// The answer that a document holds: it is an object with the members
/// `price`, `volume` and `market_cap` and no other, of which `price` and
/// `market_cap` are numbers and `volume` is an unsigned integer. Any other
/// document holds none.
pub open spec fn response_of(doc: Json) -> Option<ApiResponse> {
    match doc {
        Json::Object(members) if members.dom() == answer_keys() => match (
            double_member(doc, "price"@),
            unsigned_member(doc, "volume"@),
            double_member(doc, "market_cap"@),
        ) {
            (Some(price), Some(volume), Some(market_cap)) => Some(
                ApiResponse {
                    price: Float64 { bits: price },
                    volume,
                    market_cap: Float64 { bits: market_cap },
                },
            ),
            _ => None,
        },
        _ => None,
    }
}

/// The answer that a response body holds: the body has to be a JSON document,
/// and the document has to hold an answer.
///
/// A document has each key once. Where the text of an object writes a key
/// twice, the document has the key with the value that was written last, so
/// such a body holds an answer if it does with the earlier values left out:
/// a repeated key is not seen, and not refused.
pub open spec fn decoded(body: Seq<char>) -> Option<ApiResponse> {
    match json_document(body) {
        Some(doc) => response_of(doc),
        None => None,
    }
}

/// The three keys of an answer differ from each other, so there are three.
proof fn lemma_answer_keys()
    ensures
        "price"@ != "volume"@,
        "price"@ != "market_cap"@,
        "volume"@ != "market_cap"@,
        answer_keys().finite(),
        answer_keys().len() == 3,
{
    reveal_strlit("price");
    reveal_strlit("volume");
    reveal_strlit("market_cap");
    assert("price"@.len() == 5);
    assert("volume"@.len() == 6);
    assert("market_cap"@.len() == 10);
    let one = Set::<Seq<char>>::empty().insert("price"@);
    let two = one.insert("volume"@);
    assert(one.len() == 1);
    assert(two.len() == 2);
    assert(answer_keys() =~= two.insert("market_cap"@));
}

/// An object with three keys, among them the three of an answer, has no
/// other key.
proof fn lemma_exact_keys(keys: Set<Seq<char>>)
    requires
        keys.finite(),
        keys.len() == 3,
        keys.contains("price"@),
        keys.contains("volume"@),
        keys.contains("market_cap"@),
    ensures
        keys == answer_keys(),
{
    lemma_answer_keys();
    assert(answer_keys().subset_of(keys));
    vstd::set_lib::lemma_subset_equality(answer_keys(), keys);
}

/// The double under `key` in a parsed value.
fn double_field(doc: &serde_json::Value, key: &str) -> (bits: Option<u64>)
    ensures
        bits == double_member(json_content(*doc), key@),
{
    match read_member(doc, key) {
        Some(value) => read_double(value),
        None => None,
    }
}

/// The unsigned integer under `key` in a parsed value.
fn unsigned_field(doc: &serde_json::Value, key: &str) -> (n: Option<u64>)
    ensures
        n == unsigned_member(json_content(*doc), key@),
{
    match read_member(doc, key) {
        Some(value) => read_unsigned(value),
        None => None,
    }
}

impl ApiResponse {
    /// Reads the answer out of a parsed document.
    pub fn from_value(doc: &serde_json::Value) -> (response: Option<ApiResponse>)
        ensures
            response == response_of(json_content(*doc)),
    {
        let three_members = match read_member_count(doc) {
            Some(count) => count == 3,
            None => false,
        };
        let price = double_field(doc, "price");
        let volume = unsigned_field(doc, "volume");
        let market_cap = double_field(doc, "market_cap");
        proof {
            lemma_answer_keys();
        }
        match (three_members, price, volume, market_cap) {
            (true, Some(price), Some(volume), Some(market_cap)) => {
                proof {
                    lemma_exact_keys(json_content(*doc)->Object_0.dom());
                }
                Some(
                    ApiResponse {
                        price: Float64::from_bits(price),
                        volume,
                        market_cap: Float64::from_bits(market_cap),
                    },
                )
            },
            _ => None,
        }
    }

    /// Decodes a response body. It fails with `DecodeFailure`, and with no
    /// other error, exactly on a body that holds no answer.
    pub fn decode(body: &str) -> (response: Result<ApiResponse, QuoteError>)
        ensures
            match response {
                Ok(answer) => decoded(body@) == Some(answer),
                Err(error) => decoded(body@) is None && error is DecodeFailure,
            },
    {
        match read_document(body) {
            Ok(doc) => match ApiResponse::from_value(&doc) {
                Some(answer) => Ok(answer),
                None => Err(QuoteError::DecodeFailure),
            },
            Err(_) => Err(QuoteError::DecodeFailure),
        }
    }
}

} // verus!
