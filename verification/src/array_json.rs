use vstd::prelude::*;

use crate::db_core::ReplayCacheDbError;
use crate::text::decimal_seq;

verus! {

/// The JSON text `serde_json` writes for an array of texts.
pub uninterp spec fn json_text_of_strings(values: Seq<Seq<char>>) -> Seq<char>;

/// What `serde_json` reads from a text as an array of texts; nothing when it is not one.
pub uninterp spec fn strings_of_json_text(text: Seq<char>) -> Option<Seq<Seq<char>>>;

/// Numbers in decimal, separated by `,`.
pub open spec fn decimals_joined(values: Seq<nat>) -> Seq<char>
    decreases values.len(),
{
    if values.len() == 0 {
        Seq::empty()
    } else if values.len() == 1 {
        decimal_seq(values[0])
    } else {
        decimals_joined(values.drop_last()) + ","@ + decimal_seq(values.last())
    }
}

/// The compact JSON text of an array of whole numbers: `[`, the numbers in decimal separated
/// by `,`, then `]`.
pub open spec fn json_number_array(values: Seq<nat>) -> Seq<char> {
    "["@ + decimals_joined(values) + "]"@
}

pub open spec fn u64_nats(values: Seq<u64>) -> Seq<nat> {
    values.map_values(|x: u64| x as nat)
}

pub open spec fn u32_nats(values: Seq<u32>) -> Seq<nat> {
    values.map_values(|x: u32| x as nat)
}

/// What `serde_json` reads from a text as an array of unsigned 64-bit numbers.
pub uninterp spec fn u64s_of_json_text(text: Seq<char>) -> Option<Seq<u64>>;

/// What `serde_json` reads from a text as an array of unsigned 32-bit numbers.
pub uninterp spec fn u32s_of_json_text(text: Seq<char>) -> Option<Seq<u32>>;

pub open spec fn texts(v: Seq<String>) -> Seq<Seq<char>> {
    v.map_values(|s: String| s@)
}

/// Writes texts with `serde_json::to_string`. Serializing a slice of texts has no map and no
/// serializer that refuses, so it does not fail; the text is named [`json_text_of_strings`].
#[verifier::external_body]
fn serde_strings_to_json(values: &[String]) -> (r: Result<String, serde_json::Error>)
    ensures
        r is Ok,
        match r {
            Ok(t) => t@ == json_text_of_strings(texts(values@)),
            Err(_) => true,
        },
{
    serde_json::to_string(values)
}

/// Reads texts with `serde_json::from_str::<Vec<String>>`; the outcome is named
/// [`strings_of_json_text`]. Text that `serde_json` wrote for an array of texts (every text
/// escaped where JSON asks for it) reads back as those texts.
#[verifier::external_body]
fn serde_strings_from_json(text: &str) -> (r: Result<Vec<String>, serde_json::Error>)
    ensures
        match r {
            Ok(v) => strings_of_json_text(text@) == Some(texts(v@)),
            Err(_) => strings_of_json_text(text@) is None,
        },
        match r {
            Ok(v) => forall|w: Seq<Seq<char>>| text@ == #[trigger] json_text_of_strings(w) ==> texts(v@) == w,
            Err(_) => forall|w: Seq<Seq<char>>| text@ != #[trigger] json_text_of_strings(w),
        },
{
    serde_json::from_str::<Vec<String>>(text)
}

/// Writes numbers with `serde_json::to_string`. It does not fail (no map, no refusing
/// serializer), and its compact formatter writes `[`, each number as `itoa` formats it (plain
/// decimal) with `,` between them, and `]`: [`json_number_array`].
#[verifier::external_body]
fn serde_u64s_to_json(values: &[u64]) -> (r: Result<String, serde_json::Error>)
    ensures
        r is Ok,
        match r {
            Ok(t) => t@ == json_number_array(u64_nats(values@)),
            Err(_) => true,
        },
{
    serde_json::to_string(values)
}

/// Reads numbers with `serde_json::from_str::<Vec<u64>>`; the outcome is named
/// [`u64s_of_json_text`]. The compact text of an array of such numbers reads back as them.
#[verifier::external_body]
fn serde_u64s_from_json(text: &str) -> (r: Result<Vec<u64>, serde_json::Error>)
    ensures
        match r {
            Ok(v) => u64s_of_json_text(text@) == Some(v@),
            Err(_) => u64s_of_json_text(text@) is None,
        },
        match r {
            Ok(v) => forall|w: Seq<u64>| text@ == #[trigger] json_number_array(u64_nats(w)) ==> v@ == w,
            Err(_) => forall|w: Seq<u64>| text@ != #[trigger] json_number_array(u64_nats(w)),
        },
{
    serde_json::from_str::<Vec<u64>>(text)
}

/// Writes numbers with `serde_json::to_string`, as for 64-bit numbers: [`json_number_array`].
#[verifier::external_body]
fn serde_u32s_to_json(values: &[u32]) -> (r: Result<String, serde_json::Error>)
    ensures
        r is Ok,
        match r {
            Ok(t) => t@ == json_number_array(u32_nats(values@)),
            Err(_) => true,
        },
{
    serde_json::to_string(values)
}

/// Reads numbers with `serde_json::from_str::<Vec<u32>>`; the outcome is named
/// [`u32s_of_json_text`]. The compact text of an array of such numbers reads back as them.
#[verifier::external_body]
fn serde_u32s_from_json(text: &str) -> (r: Result<Vec<u32>, serde_json::Error>)
    ensures
        match r {
            Ok(v) => u32s_of_json_text(text@) == Some(v@),
            Err(_) => u32s_of_json_text(text@) is None,
        },
        match r {
            Ok(v) => forall|w: Seq<u32>| text@ == #[trigger] json_number_array(u32_nats(w)) ==> v@ == w,
            Err(_) => forall|w: Seq<u32>| text@ != #[trigger] json_number_array(u32_nats(w)),
        },
{
    serde_json::from_str::<Vec<u32>>(text)
}

/// Whether `e` is a JSON array error in the given context.
pub open spec fn is_array_error(e: ReplayCacheDbError, context: Seq<char>) -> bool {
    e matches ReplayCacheDbError::JsonArray { context: c, .. } && c@ == context
}

/// Arrays stored as JSON text in the replay cache.
pub struct ReplayCacheArrayJson;

impl ReplayCacheArrayJson {
    pub fn encode_strings(values: &[String]) -> (r: Result<String, ReplayCacheDbError>)
        ensures
            r matches Ok(t) && t@ == json_text_of_strings(texts(values@)),
    {
        match serde_strings_to_json(values) {
            Ok(t) => Ok(t),
            Err(source) => Err(ReplayCacheDbError::JsonArray { context: "string array", source }),
        }
    }

    pub fn decode_strings(text: &str) -> (r: Result<Vec<String>, ReplayCacheDbError>)
        ensures
            match strings_of_json_text(text@) {
                Some(v) => r matches Ok(out) && texts(out@) == v,
                None => r matches Err(e) && is_array_error(e, "string array"@),
            },
            forall|w: Seq<Seq<char>>|
                text@ == #[trigger] json_text_of_strings(w) ==> (r matches Ok(out) && texts(out@) == w),
    {
        match serde_strings_from_json(text) {
            Ok(v) => Ok(v),
            Err(source) => Err(ReplayCacheDbError::JsonArray { context: "string array", source }),
        }
    }

    pub fn encode_u64(values: &[u64]) -> (r: Result<String, ReplayCacheDbError>)
        ensures
            r matches Ok(t) && t@ == json_number_array(u64_nats(values@)),
    {
        match serde_u64s_to_json(values) {
            Ok(t) => Ok(t),
            Err(source) => Err(ReplayCacheDbError::JsonArray { context: "u64 array", source }),
        }
    }

    pub fn decode_u64(text: &str) -> (r: Result<Vec<u64>, ReplayCacheDbError>)
        ensures
            match u64s_of_json_text(text@) {
                Some(v) => r matches Ok(out) && out@ == v,
                None => r matches Err(e) && is_array_error(e, "u64 array"@),
            },
            forall|w: Seq<u64>| text@ == #[trigger] json_number_array(u64_nats(w)) ==> (r matches Ok(out) && out@ == w),
    {
        match serde_u64s_from_json(text) {
            Ok(v) => Ok(v),
            Err(source) => Err(ReplayCacheDbError::JsonArray { context: "u64 array", source }),
        }
    }

    pub fn encode_u32(values: &[u32]) -> (r: Result<String, ReplayCacheDbError>)
        ensures
            r matches Ok(t) && t@ == json_number_array(u32_nats(values@)),
    {
        match serde_u32s_to_json(values) {
            Ok(t) => Ok(t),
            Err(source) => Err(ReplayCacheDbError::JsonArray { context: "u32 array", source }),
        }
    }

    pub fn decode_u32(text: &str) -> (r: Result<Vec<u32>, ReplayCacheDbError>)
        ensures
            match u32s_of_json_text(text@) {
                Some(v) => r matches Ok(out) && out@ == v,
                None => r matches Err(e) && is_array_error(e, "u32 array"@),
            },
            forall|w: Seq<u32>| text@ == #[trigger] json_number_array(u32_nats(w)) ==> (r matches Ok(out) && out@ == w),
    {
        match serde_u32s_from_json(text) {
            Ok(v) => Ok(v),
            Err(source) => Err(ReplayCacheDbError::JsonArray { context: "u32 array", source }),
        }
    }
}

} // verus!
