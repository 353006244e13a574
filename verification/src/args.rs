//! Parsing of a tool call's raw argument payload: a flat JSON object
//! whose values are all strings, handed over by the provider as text.

use vstd::prelude::*;
use std::collections::HashMap;
use crate::text::str_eq;

verus! {

/// What `serde_json` makes of a text expected to hold a flat JSON object
/// with string values: the denoted key-to-value mapping, or nothing when
/// the text is not such an object.
pub uninterp spec fn json_string_map_of(s: Seq<char>) -> Option<Map<Seq<char>, Seq<char>>>;

/// Relies on `serde_json::from_str` deserializing into a map with string
/// keys and string values: the outcome depends on the text alone, and the
/// pairs handed back carry each key of the denoted mapping exactly once.
#[verifier::external_body]
fn parse_string_object(s: &str) -> (r: Option<Vec<(String, String)>>)
    ensures
        match r {
            Some(pairs) => json_string_map_of(s@) matches Some(m) && {
                &&& forall|i: int|
                    0 <= i < pairs@.len() ==> m.contains_pair(
                        (#[trigger] pairs@[i]).0@,
                        pairs@[i].1@,
                    )
                &&& forall|k: Seq<char>|
                    m.dom().contains(k) ==> exists|i: int|
                        0 <= i < pairs@.len() && (#[trigger] pairs@[i]).0@ == k
                &&& forall|i: int, j: int|
                    0 <= i < j < pairs@.len() ==> (#[trigger] pairs@[i]).0@ != (
                    #[trigger] pairs@[j]).0@
            },
            None => json_string_map_of(s@) is None,
        },
{
    match serde_json::from_str::<HashMap<String, String>>(s) {
        Ok(m) => Some(m.into_iter().collect()),
        Err(_) => None,
    }
}

fn lookup_pair(pairs: &Vec<(String, String)>, key: &str) -> (r: Option<String>)
    ensures
        match r {
            Some(v) => exists|i: int|
                0 <= i < pairs@.len() && (#[trigger] pairs@[i]).0@ == key@ && pairs@[i].1@ == v@,
            None => forall|i: int| 0 <= i < pairs@.len() ==> (#[trigger] pairs@[i]).0@ != key@,
        },
{
    let mut i: usize = 0;
    while i < pairs.len()
        invariant
            i <= pairs@.len(),
            forall|k: int| 0 <= k < i ==> (#[trigger] pairs@[k]).0@ != key@,
        decreases pairs@.len() - i,
    {
        if str_eq(pairs[i].0.as_str(), key) {
            return Some(pairs[i].1.clone());
        }
        i += 1;
    }
    None
}

/// The outcome of reading one required argument out of a raw payload.
pub enum ArgLookup {
    /// The payload is not a flat JSON object of strings.
    NoParse,
    /// The payload parses, but the key is absent.
    Missing,
    /// The key's value.
    Found(String),
}

/// Reads the value of `key` from the raw argument payload, telling a
/// payload that does not parse apart from a parsed payload that lacks the
/// key.
pub fn string_arg(payload: &str, key: &str) -> (r: ArgLookup)
    ensures
        match r {
            ArgLookup::NoParse => json_string_map_of(payload@) is None,
            ArgLookup::Missing => json_string_map_of(payload@) matches Some(m)
                && !m.dom().contains(key@),
            ArgLookup::Found(v) => json_string_map_of(payload@) matches Some(m) && m.dom().contains(
                key@,
            ) && v@ == m[key@],
        },
{
    match parse_string_object(payload) {
        None => ArgLookup::NoParse,
        Some(pairs) => match lookup_pair(&pairs, key) {
            Some(v) => ArgLookup::Found(v),
            None => ArgLookup::Missing,
        },
    }
}

} // verus!
