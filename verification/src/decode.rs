//! Decoding of the DoH provider's JSON envelope into a [`DnsResponse`].
//!
//! The JSON document itself is parsed by `serde_json`; walking the resulting
//! tree and checking the envelope's shape is done here, in verified code.
//! The parsed tree is reasoned about through a ghost model of JSON values
//! ([`JsonModel`]), so the decoder's contract says exactly which documents
//! decode and to what.
use crate::answer::models;
use crate::{AnswerModel, DnsAnswer, DnsResponse, EnvelopeModel};
use vstd::prelude::*;

verus! {

#[verifier::external_type_specification]
#[verifier::external_body]
pub struct ExValue(serde_json::Value);

/// Ghost model of a JSON value. A number representable as an unsigned
/// 64-bit integer carries its value; every other number (negative or not an
/// integer) is collapsed into `OtherNumber`, which is all the envelope
/// decoder needs to tell apart.
pub ghost enum JsonModel {
    Null,
    Bool(bool),
    UInt(u64),
    OtherNumber,
    Text(Seq<char>),
    Array(Seq<JsonModel>),
    Object(Map<Seq<char>, JsonModel>),
}

/// The model of a parsed `serde_json` value.
pub uninterp spec fn json_model(v: serde_json::Value) -> JsonModel;

/// The model of the JSON document a byte sequence holds, when it parses.
pub uninterp spec fn doc_model(bytes: Seq<u8>) -> JsonModel;

/// Whether a byte sequence forms one well-formed JSON document, in the
/// grammar `serde_json` accepts.
pub uninterp spec fn json_parses(bytes: Seq<u8>) -> bool;

/// Relies on `serde_json::from_slice` with `serde_json::Value` as the
/// target: it succeeds exactly on well-formed JSON, whether the bytes are
/// well-formed depends on the bytes alone, and the returned value models the
/// document.
#[verifier::external_body]
fn json_parse(body: &Vec<u8>) -> (r: Result<serde_json::Value, String>)
    ensures
        r is Ok <==> json_parses(body@),
        r matches Ok(v) ==> json_model(v) == doc_model(body@),
{
    match serde_json::from_slice::<serde_json::Value>(body) {
        Ok(v) => Ok(v),
        Err(e) => Err(e.to_string()),
    }
}

/// Relies on `serde_json`'s `Value::get` with a string key: on a JSON
/// object it returns the value of the named field, if there is one; on any
/// other value it returns nothing.
#[verifier::external_body]
fn value_get<'a>(v: &'a serde_json::Value, key: &str) -> (r: Option<&'a serde_json::Value>)
    ensures
        json_model(*v) matches JsonModel::Object(f) ==> ({
            &&& (r is Some <==> f.contains_key(key@))
            &&& (r matches Some(field) ==> json_model(*field) == f[key@])
        }),
        !(json_model(*v) is Object) ==> r is None,
{
    v.get(key)
}

/// Relies on `serde_json`'s `Value::as_u64`: the value of a JSON number
/// that is representable as an unsigned 64-bit integer, and nothing for any
/// other value.
#[verifier::external_body]
fn value_as_u64(v: &serde_json::Value) -> (r: Option<u64>)
    ensures
        r is Some <==> json_model(*v) is UInt,
        r matches Some(n) ==> json_model(*v) == JsonModel::UInt(n),
{
    v.as_u64()
}

/// Relies on `serde_json`'s `Value::as_str`: the contents of a JSON string,
/// and nothing for any other value.
#[verifier::external_body]
fn value_as_str(v: &serde_json::Value) -> (r: Option<String>)
    ensures
        r is Some <==> json_model(*v) is Text,
        r matches Some(s) ==> json_model(*v) == JsonModel::Text(s@),
{
    v.as_str().map(|s| s.to_owned())
}

/// Relies on `serde_json`'s `Value::as_array`: the elements of a JSON
/// array, each modelling the corresponding element of the array's model, and
/// nothing for any other value.
#[verifier::external_body]
fn value_as_array<'a>(v: &'a serde_json::Value) -> (r: Option<&'a Vec<serde_json::Value>>)
    ensures
        r is Some <==> json_model(*v) is Array,
        r matches Some(arr) ==> json_model(*v) == JsonModel::Array(
            arr@.map_values(|e: serde_json::Value| json_model(e)),
        ),
{
    v.as_array()
}

/// Relies on `serde_json`'s `Value::is_null`: whether the value is JSON
/// `null`.
#[verifier::external_body]
fn value_is_null(v: &serde_json::Value) -> (r: bool)
    ensures
        r <==> json_model(*v) == JsonModel::Null,
{
    v.is_null()
}

/// The value of an object's field that must be a nonnegative integer
/// fitting in 32 bits.
pub open spec fn spec_field_u32(f: Map<Seq<char>, JsonModel>, key: Seq<char>) -> Option<u32> {
    if f.contains_key(key) {
        match f[key] {
            JsonModel::UInt(n) => if n <= 0xFFFF_FFFFu64 {
                Some(n as u32)
            } else {
                None
            },
            _ => None,
        }
    } else {
        None
    }
}

/// The value of an object's field that must be a string.
pub open spec fn spec_field_text(f: Map<Seq<char>, JsonModel>, key: Seq<char>) -> Option<
    Seq<char>,
> {
    if f.contains_key(key) {
        match f[key] {
            JsonModel::Text(s) => Some(s),
            _ => None,
        }
    } else {
        None
    }
}

/// Whether an optional field is absent or null, in which case it decodes to
/// nothing.
pub open spec fn spec_absent_or_null(f: Map<Seq<char>, JsonModel>, key: Seq<char>) -> bool {
    !f.contains_key(key) || f[key] == JsonModel::Null
}

/// The answer a well-formed answer object models: an object carrying a
/// string `name`, 32-bit integers `type` and `TTL`, and a string `data`;
/// anything else models no answer.
pub open spec fn spec_answer_of(m: JsonModel) -> Option<AnswerModel> {
    match m {
        JsonModel::Object(f) => match (
            spec_field_text(f, "name"@),
            spec_field_u32(f, "type"@),
            spec_field_u32(f, "TTL"@),
            spec_field_text(f, "data"@),
        ) {
            (Some(name), Some(rtype), Some(ttl), Some(data)) => Some(
                AnswerModel { name, rtype, ttl, data },
            ),
            _ => None,
        },
        _ => None,
    }
}

/// The answers a well-formed `Answer` array models: every element must be a
/// well-formed answer object.
pub open spec fn spec_answers_of(elems: Seq<JsonModel>) -> Option<Seq<AnswerModel>>
    decreases elems.len(),
{
    if elems.len() == 0 {
        Some(Seq::empty())
    } else {
        match (spec_answers_of(elems.drop_last()), spec_answer_of(elems.last())) {
            (Some(rest), Some(a)) => Some(rest.push(a)),
            _ => None,
        }
    }
}

/// The envelope a well-formed response document models: an object with a
/// 32-bit integer `Status`, an `Answer` that is absent, null, or an array
/// of well-formed answer objects, and a `Comment` that is absent, null, or
/// a string. Anything else models no envelope.
pub open spec fn spec_envelope_of(m: JsonModel) -> Option<EnvelopeModel> {
    match m {
        JsonModel::Object(f) => match spec_field_u32(f, "Status"@) {
            Some(status) => {
                let answers = if spec_absent_or_null(f, "Answer"@) {
                    Some(None)
                } else {
                    match f["Answer"@] {
                        JsonModel::Array(es) => match spec_answers_of(es) {
                            Some(list) => Some(Some(list)),
                            None => None,
                        },
                        _ => None,
                    }
                };
                let comment = if spec_absent_or_null(f, "Comment"@) {
                    Some(None)
                } else {
                    match f["Comment"@] {
                        JsonModel::Text(s) => Some(Some(s)),
                        _ => None,
                    }
                };
                match (answers, comment) {
                    (Some(a), Some(c)) => Some(EnvelopeModel { status, answers: a, comment: c }),
                    _ => None,
                }
            },
            None => None,
        },
        _ => None,
    }
}

/// If one element of an array models no answer, the whole array models no
/// answer list.
proof fn lemma_answers_of_bad(elems: Seq<JsonModel>, i: int)
    requires
        0 <= i < elems.len(),
        spec_answer_of(elems[i]) is None,
    ensures
        spec_answers_of(elems) is None,
    decreases elems.len(),
{
    if i < elems.len() - 1 {
        lemma_answers_of_bad(elems.drop_last(), i);
    }
}

/// Reads a u32 from a JSON value: the value must be a nonnegative integer
/// number that fits in 32 bits.
fn value_as_u32(v: &serde_json::Value) -> (r: Option<u32>)
    ensures
        r is Some <==> (json_model(*v) matches JsonModel::UInt(n) && n <= 0xFFFF_FFFFu64),
        r matches Some(k) ==> json_model(*v) == JsonModel::UInt(k as u64),
{
    match value_as_u64(v) {
        None => None,
        Some(n) => if n > 0xFFFF_FFFFu64 {
            None
        } else {
            Some(n as u32)
        },
    }
}

/// Decodes one element of the `Answer` array: exactly the objects
/// [`spec_answer_of`] accepts decode, to the answer they model.
fn decode_answer(v: &serde_json::Value) -> (r: Option<DnsAnswer>)
    ensures
        (match spec_answer_of(json_model(*v)) {
            Some(am) => r matches Some(a) && a@ == am,
            None => r is None,
        }),
{
    let name = match value_get(v, "name") {
        None => return None,
        Some(f) => match value_as_str(f) {
            None => return None,
            Some(s) => s,
        },
    };
    let rtype = match value_get(v, "type") {
        None => return None,
        Some(f) => match value_as_u32(f) {
            None => return None,
            Some(n) => n,
        },
    };
    let ttl = match value_get(v, "TTL") {
        None => return None,
        Some(f) => match value_as_u32(f) {
            None => return None,
            Some(n) => n,
        },
    };
    let data = match value_get(v, "data") {
        None => return None,
        Some(f) => match value_as_str(f) {
            None => return None,
            Some(s) => s,
        },
    };
    Some(DnsAnswer { name, rtype, ttl, data })
}

/// Decodes the `Answer` array: succeeds exactly when every element is a
/// well-formed answer object, and then returns the answers they model, in
/// order.
fn decode_answers(arr: &Vec<serde_json::Value>) -> (r: Option<Vec<DnsAnswer>>)
    ensures
        (match spec_answers_of(arr@.map_values(|e: serde_json::Value| json_model(e))) {
            Some(list) => r matches Some(out) && models(out@) == list,
            None => r is None,
        }),
{
    let ghost elems = arr@.map_values(|e: serde_json::Value| json_model(e));
    let mut out: Vec<DnsAnswer> = Vec::new();
    let n = arr.len();
    #[verifier::loop_isolation(false)]
    for i in 0..n
        invariant
            spec_answers_of(elems.take(i as int)) == Some(models(out@)),
    {
        proof {
            assert(elems[i as int] == json_model(arr@[i as int]));
        }
        match decode_answer(&arr[i]) {
            None => {
                proof {
                    lemma_answers_of_bad(elems, i as int);
                }
                return None;
            },
            Some(a) => {
                let ghost prev = out@;
                out.push(a);
                proof {
                    assert(models(out@) =~= models(prev).push(a@));
                    assert(elems.take(i + 1).drop_last() =~= elems.take(i as int));
                    assert(elems.take(i + 1).last() == elems[i as int]);
                }
            },
        }
    }
    proof {
        assert(elems.take(n as int) =~= elems);
    }
    Some(out)
}

/// Decodes the raw body of a 200 response into a [`DnsResponse`]: the body
/// must be well-formed JSON whose document models an envelope (see
/// [`spec_envelope_of`]); the result then carries exactly that envelope.
/// Anything else is a decode failure, reported with a message.
pub fn decode_response(body: &Vec<u8>) -> (r: Result<DnsResponse, String>)
    ensures
        !json_parses(body@) ==> r is Err,
        json_parses(body@) ==> (match spec_envelope_of(doc_model(body@)) {
            Some(env) => r matches Ok(res) && res@ == env,
            None => r is Err,
        }),
{
    let v = match json_parse(body) {
        Err(e) => return Err(e),
        Ok(v) => v,
    };
    let status = match value_get(&v, "Status") {
        None => return Err("missing Status field".to_owned()),
        Some(f) => match value_as_u32(f) {
            None => return Err("Status is not a 32-bit integer".to_owned()),
            Some(n) => n,
        },
    };
    let answers = match value_get(&v, "Answer") {
        None => None,
        Some(f) => if value_is_null(f) {
            None
        } else {
            match value_as_array(f) {
                None => return Err("Answer is not an array".to_owned()),
                Some(arr) => match decode_answers(arr) {
                    None => return Err("malformed entry in Answer".to_owned()),
                    Some(list) => Some(list),
                },
            }
        },
    };
    let comment = match value_get(&v, "Comment") {
        None => None,
        Some(f) => if value_is_null(f) {
            None
        } else {
            match value_as_str(f) {
                None => return Err("Comment is not a string".to_owned()),
                Some(s) => Some(s),
            }
        },
    };
    Ok(DnsResponse { status, answers, comment })
}

} // verus!
