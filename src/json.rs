//! A JSON document as the remote classification service returns it, and the
//! reading of its predictions.
use vstd::prelude::*;

use crate::domain::{items_view, PredictItem};
use crate::tokenizer::views_of_strings;

verus! {

/// A parsed JSON value. A number carries its value when it is an integer
/// that fits in `i64`, and `None` otherwise.
pub enum JsonValue {
    Null,
    Bool(bool),
    Number(Option<i64>),
    Str(String),
    Array(Vec<JsonValue>),
    Object(Vec<(String, JsonValue)>),
}

/// The value of the first member named `key`.
pub open spec fn field(fields: Seq<(String, JsonValue)>, key: Seq<char>) -> Option<JsonValue>
    decreases fields.len(),
{
    if fields.len() == 0 {
        None
    } else if fields[0].0@ == key {
        Some(fields[0].1)
    } else {
        field(fields.drop_first(), key)
    }
}

/// The string elements of an array, in order; other elements are skipped.
pub open spec fn strings_in(items: Seq<JsonValue>) -> Seq<Seq<char>>
    decreases items.len(),
{
    if items.len() == 0 {
        seq![]
    } else {
        let prev = strings_in(items.drop_last());
        match items.last() {
            JsonValue::Str(s) => prev.push(s@),
            _ => prev,
        }
    }
}

/// One prediction element: an object with an integer `id` and `topics` and
/// `sentiments` arrays whose string elements are as many on both sides.
/// Anything else is malformed and yields nothing.
pub open spec fn decode_item(v: JsonValue) -> Option<(i64, Seq<Seq<char>>, Seq<Seq<char>>)> {
    match v {
        JsonValue::Object(fs) => match field(fs@, "id"@) {
            Some(JsonValue::Number(Some(id))) => match field(fs@, "topics"@) {
                Some(JsonValue::Array(ts)) => match field(fs@, "sentiments"@) {
                    Some(JsonValue::Array(ss)) => if strings_in(ts@).len() == strings_in(
                        ss@,
                    ).len() {
                        Some((id, strings_in(ts@), strings_in(ss@)))
                    } else {
                        None
                    },
                    _ => None,
                },
                _ => None,
            },
            _ => None,
        },
        _ => None,
    }
}

/// The well-formed elements of an array, decoded, in order.
pub open spec fn decode_all(items: Seq<JsonValue>) -> Seq<(i64, Seq<Seq<char>>, Seq<Seq<char>>)>
    decreases items.len(),
{
    if items.len() == 0 {
        seq![]
    } else {
        let prev = decode_all(items.drop_last());
        match decode_item(items.last()) {
            Some(p) => prev.push(p),
            None => prev,
        }
    }
}

/// The predictions a response carries: none when there was no JSON answer,
/// when it is not an object, or when its `predictions` member is missing or
/// not an array.
pub open spec fn response_items(response: Option<JsonValue>) -> Seq<
    (i64, Seq<Seq<char>>, Seq<Seq<char>>),
> {
    match response {
        Some(JsonValue::Object(fs)) => match field(fs@, "predictions"@) {
            Some(JsonValue::Array(items)) => decode_all(items@),
            _ => seq![],
        },
        _ => seq![],
    }
}

pub fn get_field<'a>(fields: &'a Vec<(String, JsonValue)>, key: &str) -> (r: Option<&'a JsonValue>)
    ensures
        match r {
            Some(v) => field(fields@, key@) == Some(*v),
            None => field(fields@, key@) is None,
        },
{
    let k = key.to_owned();
    let mut i: usize = 0;
    assert(fields@.skip(0) =~= fields@);
    while i < fields.len()
        invariant
            i <= fields.len(),
            k@ == key@,
            field(fields@, key@) == field(fields@.skip(i as int), key@),
        decreases fields.len() - i,
    {
        assert(fields@.skip(i as int).drop_first() =~= fields@.skip(i + 1));
        if fields[i].0 == k {
            return Some(&fields[i].1);
        }
        i += 1;
    }
    None
}

/// The string elements of an array, copied.
pub fn strings_of(items: &Vec<JsonValue>) -> (r: Vec<String>)
    ensures
        views_of_strings(r@) == strings_in(items@),
{
    let mut out: Vec<String> = Vec::new();
    let mut i: usize = 0;
    while i < items.len()
        invariant
            i <= items.len(),
            views_of_strings(out@) == strings_in(items@.take(i as int)),
        decreases items.len() - i,
    {
        assert(items@.take(i + 1).drop_last() =~= items@.take(i as int));
        match &items[i] {
            JsonValue::Str(s) => {
                let ghost before = out@;
                out.push(s.clone());
                assert(views_of_strings(out@) =~= views_of_strings(before).push(s@));
            },
            _ => {},
        }
        i += 1;
    }
    assert(items@.take(i as int) =~= items@);
    out
}

/// Reads one prediction element.
pub fn decode_prediction(v: &JsonValue) -> (r: Option<PredictItem>)
    ensures
        match r {
            Some(p) => decode_item(*v) == Some(p@) && p.wf(),
            None => decode_item(*v) is None,
        },
{
    match v {
        JsonValue::Object(fs) => {
            let id = match get_field(fs, "id") {
                Some(JsonValue::Number(Some(id))) => *id,
                _ => {
                    return None;
                },
            };
            let topics = match get_field(fs, "topics") {
                Some(JsonValue::Array(ts)) => strings_of(ts),
                _ => {
                    return None;
                },
            };
            let sentiments = match get_field(fs, "sentiments") {
                Some(JsonValue::Array(ss)) => strings_of(ss),
                _ => {
                    return None;
                },
            };
            if topics.len() != sentiments.len() {
                return None;
            }
            Some(PredictItem { id, topics, sentiments })
        },
        _ => None,
    }
}

/// The predictions carried by a response of the remote service; `None`
/// stands for a failed call or a body that is not JSON.
pub fn decode_response(response: &Option<JsonValue>) -> (r: Vec<PredictItem>)
    ensures
        items_view(r@) == response_items(*response),
        response is None ==> r@.len() == 0,
        forall|i: int| 0 <= i < r@.len() ==> (#[trigger] r@[i]).wf(),
{
    let mut out: Vec<PredictItem> = Vec::new();
    let items = match response {
        Some(JsonValue::Object(fs)) => match get_field(fs, "predictions") {
            Some(JsonValue::Array(items)) => items,
            _ => {
                return out;
            },
        },
        _ => {
            return out;
        },
    };
    let mut i: usize = 0;
    while i < items.len()
        invariant
            i <= items.len(),
            items_view(out@) == decode_all(items@.take(i as int)),
            forall|j: int| 0 <= j < out@.len() ==> (#[trigger] out@[j]).wf(),
        decreases items.len() - i,
    {
        assert(items@.take(i + 1).drop_last() =~= items@.take(i as int));
        match decode_prediction(&items[i]) {
            Some(p) => {
                let ghost before = out@;
                out.push(p);
                assert(items_view(out@) =~= items_view(before).push(p@));
            },
            None => {},
        }
        i += 1;
    }
    assert(items@.take(i as int) =~= items@);
    out
}

} // verus!
