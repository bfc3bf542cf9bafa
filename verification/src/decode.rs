use vstd::prelude::*;

use crate::error::Error;
use crate::indicator::spec_parse;
use crate::indicator::IndicatorType;
use crate::json::json_of;
use crate::json::parse_json;
use crate::json::JsonValue;
use crate::model::Indicator;
use crate::model::IndicatorV;
use crate::model::Threat;
use crate::model::ThreatV;
use crate::model::Threats;
use crate::model::ThreatsV;
use crate::text::str_eq;

verus! {

/// The value of the first member of a JSON object with the given key,
/// if the object has one.
pub open spec fn spec_field(fields: Seq<(String, JsonValue)>, key: Seq<char>) -> Option<
    JsonValue,
>
    decreases fields.len(),
{
    if fields.len() == 0 {
        None
    } else if fields[0].0@ == key {
        Some(fields[0].1)
    } else {
        spec_field(fields.drop_first(), key)
    }
}

/// A required string member: its text, or nothing when the member is
/// missing or not a string.
pub open spec fn spec_str_field(fields: Seq<(String, JsonValue)>, key: Seq<char>) -> Option<
    Seq<char>,
> {
    match spec_field(fields, key) {
        Some(JsonValue::Str(s)) => Some(s@),
        _ => None,
    }
}

/// A string member that may be absent: its text, the empty text when it
/// is missing, or nothing when it is present but not a string.
pub open spec fn spec_opt_str_field(fields: Seq<(String, JsonValue)>, key: Seq<char>) -> Option<
    Seq<char>,
> {
    match spec_field(fields, key) {
        None => Some(Seq::empty()),
        Some(JsonValue::Str(s)) => Some(s@),
        Some(_) => None,
    }
}

/// A pagination cursor member: absent or null means no cursor, a string
/// is the cursor, and anything else is a decode failure.
pub open spec fn spec_cursor_field(fields: Seq<(String, JsonValue)>, key: Seq<char>) -> Option<
    Option<Seq<char>>,
> {
    match spec_field(fields, key) {
        None => Some(None),
        Some(JsonValue::Null) => Some(None),
        Some(JsonValue::Str(s)) => Some(Some(s@)),
        Some(_) => None,
    }
}

/// The result-count member: zero when absent, its value when it is a
/// number with an unsigned integer reading, and a decode failure
/// otherwise.
pub open spec fn spec_count_field(fields: Seq<(String, JsonValue)>, key: Seq<char>) -> Option<
    u64,
> {
    match spec_field(fields, key) {
        None => Some(0u64),
        Some(JsonValue::Num(Some(n), _)) => Some(n),
        Some(_) => None,
    }
}

/// The texts of an array whose elements must all be strings.
pub open spec fn spec_strings(items: Seq<JsonValue>) -> Option<Seq<Seq<char>>>
    decreases items.len(),
{
    if items.len() == 0 {
        Some(Seq::empty())
    } else {
        match (spec_strings(items.drop_last()), items.last()) {
            (Some(init), JsonValue::Str(s)) => Some(init.push(s@)),
            _ => None,
        }
    }
}

/// A string-array member that may be absent: its texts, the empty
/// sequence when it is missing, or nothing when it is present but not
/// an array of strings.
pub open spec fn spec_str_arr_field(fields: Seq<(String, JsonValue)>, key: Seq<char>) -> Option<
    Seq<Seq<char>>,
> {
    match spec_field(fields, key) {
        None => Some(Seq::empty()),
        Some(JsonValue::Arr(a)) => spec_strings(a@),
        Some(_) => None,
    }
}

/// The indicator record a JSON document carries, with the wire field
/// names: `_id`, `created`, `indicator`, `type` (which must name an
/// indicator type) and an optional `description`.
pub open spec fn spec_indicator(v: JsonValue) -> Option<IndicatorV> {
    match v {
        JsonValue::Obj(fields) => spec_indicator_obj(fields@),
        _ => None,
    }
}

/// The indicator record held in an object's members.
pub open spec fn spec_indicator_obj(f: Seq<(String, JsonValue)>) -> Option<IndicatorV> {
    if spec_str_field(f, "_id"@) is Some && spec_str_field(f, "created"@) is Some
        && spec_str_field(f, "indicator"@) is Some && spec_str_field(f, "type"@) is Some
        && spec_parse(spec_str_field(f, "type"@)->0) is Ok && spec_opt_str_field(
        f,
        "description"@,
    ) is Some {
        Some(
            IndicatorV {
                id: spec_str_field(f, "_id"@)->0,
                created: spec_str_field(f, "created"@)->0,
                indicator: spec_str_field(f, "indicator"@)->0,
                indicator_type: spec_parse(spec_str_field(f, "type"@)->0)->Ok_0,
                description: spec_opt_str_field(f, "description"@)->0,
            },
        )
    } else {
        None
    }
}

/// The indicator records of an array, in order; nothing when any
/// element fails to decode.
pub open spec fn spec_indicators(items: Seq<JsonValue>) -> Option<Seq<IndicatorV>>
    decreases items.len(),
{
    if items.len() == 0 {
        Some(Seq::empty())
    } else {
        match (spec_indicators(items.drop_last()), spec_indicator(items.last())) {
            (Some(init), Some(ind)) => Some(init.push(ind)),
            _ => None,
        }
    }
}

/// The required `indicators` member: an array of indicator records.
pub open spec fn spec_indicators_field(f: Seq<(String, JsonValue)>) -> Option<Seq<IndicatorV>> {
    match spec_field(f, "indicators"@) {
        Some(JsonValue::Arr(a)) => spec_indicators(a@),
        _ => None,
    }
}

/// The required `revision` member: the textual form of the version
/// number the record carries.
pub open spec fn spec_revision_field(f: Seq<(String, JsonValue)>) -> Option<Seq<char>> {
    match spec_field(f, "revision"@) {
        Some(JsonValue::Num(_, text)) => Some(text@),
        _ => None,
    }
}

/// The threat record a JSON document carries: `id`, `author_name`,
/// `name`, `created`, `modified`, `indicators` and `revision` are
/// required; `description`, `references` and `tags` default to empty
/// when absent.
pub open spec fn spec_threat(v: JsonValue) -> Option<ThreatV> {
    match v {
        JsonValue::Obj(fields) => spec_threat_obj(fields@),
        _ => None,
    }
}

/// The threat record held in an object's members.
pub open spec fn spec_threat_obj(f: Seq<(String, JsonValue)>) -> Option<ThreatV> {
    if spec_str_field(f, "id"@) is Some && spec_str_field(f, "author_name"@) is Some
        && spec_str_field(f, "name"@) is Some && spec_opt_str_field(f, "description"@) is Some
        && spec_str_field(f, "created"@) is Some && spec_str_field(f, "modified"@) is Some
        && spec_indicators_field(f) is Some && spec_revision_field(f) is Some
        && spec_str_arr_field(f, "references"@) is Some && spec_str_arr_field(f, "tags"@) is Some {
        Some(
            ThreatV {
                id: spec_str_field(f, "id"@)->0,
                author_name: spec_str_field(f, "author_name"@)->0,
                name: spec_str_field(f, "name"@)->0,
                description: spec_opt_str_field(f, "description"@)->0,
                created: spec_str_field(f, "created"@)->0,
                modified: spec_str_field(f, "modified"@)->0,
                indicators: spec_indicators_field(f)->0,
                revision: spec_revision_field(f)->0,
                references: spec_str_arr_field(f, "references"@)->0,
                tags: spec_str_arr_field(f, "tags"@)->0,
            },
        )
    } else {
        None
    }
}

/// The threat records of an array, in order; nothing when any element
/// fails to decode.
pub open spec fn spec_threats(items: Seq<JsonValue>) -> Option<Seq<ThreatV>>
    decreases items.len(),
{
    if items.len() == 0 {
        Some(Seq::empty())
    } else {
        match (spec_threats(items.drop_last()), spec_threat(items.last())) {
            (Some(init), Some(t)) => Some(init.push(t)),
            _ => None,
        }
    }
}

/// The `results` member: the page's threats, empty when absent.
pub open spec fn spec_results_field(f: Seq<(String, JsonValue)>) -> Option<Seq<ThreatV>> {
    match spec_field(f, "results"@) {
        None => Some(Seq::empty()),
        Some(JsonValue::Arr(a)) => spec_threats(a@),
        Some(_) => None,
    }
}

/// The page of threats a JSON document carries: `count`, `next`,
/// `previous` and `results` all tolerate absence.
pub open spec fn spec_threats_page(v: JsonValue) -> Option<ThreatsV> {
    match v {
        JsonValue::Obj(fields) => spec_threats_page_obj(fields@),
        _ => None,
    }
}

/// The page of threats held in an object's members.
pub open spec fn spec_threats_page_obj(f: Seq<(String, JsonValue)>) -> Option<ThreatsV> {
    if spec_count_field(f, "count"@) is Some && spec_cursor_field(f, "next"@) is Some
        && spec_cursor_field(f, "previous"@) is Some && spec_results_field(f) is Some {
        Some(
            ThreatsV {
                count: spec_count_field(f, "count"@)->0,
                next: spec_cursor_field(f, "next"@)->0,
                previous: spec_cursor_field(f, "previous"@)->0,
                results: spec_results_field(f)->0,
            },
        )
    } else {
        None
    }
}

/// A success HTTP status, meaning the body is worth decoding.
pub open spec fn spec_ok_status(status: u16) -> bool {
    200 <= status < 300
}

/// What decoding a page response yields: the status decides first, then
/// the body must be JSON carrying a page of threats.
pub open spec fn spec_threats_response(status: u16, body: Seq<char>) -> Result<ThreatsV, Error> {
    if !spec_ok_status(status) {
        Err(Error::HttpStatus(status))
    } else {
        match json_of(body) {
            None => Err(Error::Decode),
            Some(v) => match spec_threats_page(v) {
                None => Err(Error::Decode),
                Some(p) => Ok(p),
            },
        }
    }
}

/// What decoding a single-threat response yields.
pub open spec fn spec_threat_response(status: u16, body: Seq<char>) -> Result<ThreatV, Error> {
    if !spec_ok_status(status) {
        Err(Error::HttpStatus(status))
    } else {
        match json_of(body) {
            None => Err(Error::Decode),
            Some(v) => match spec_threat(v) {
                None => Err(Error::Decode),
                Some(t) => Ok(t),
            },
        }
    }
}

/// In an array of strings that decodes, every element is a string.
proof fn lemma_strings_element(items: Seq<JsonValue>, i: int)
    requires
        0 <= i < items.len(),
        spec_strings(items) is Some,
    ensures
        items[i] is Str,
    decreases items.len(),
{
    if i < items.len() - 1 {
        assert(items.drop_last()[i] == items[i]);
        lemma_strings_element(items.drop_last(), i);
    }
}

/// In an array of indicators that decodes, every element decodes.
proof fn lemma_indicators_element(items: Seq<JsonValue>, i: int)
    requires
        0 <= i < items.len(),
        spec_indicators(items) is Some,
    ensures
        spec_indicator(items[i]) is Some,
    decreases items.len(),
{
    if i < items.len() - 1 {
        assert(items.drop_last()[i] == items[i]);
        lemma_indicators_element(items.drop_last(), i);
    }
}

/// In an array of threats that decodes, every element decodes.
proof fn lemma_threats_element(items: Seq<JsonValue>, i: int)
    requires
        0 <= i < items.len(),
        spec_threats(items) is Some,
    ensures
        spec_threat(items[i]) is Some,
    decreases items.len(),
{
    if i < items.len() - 1 {
        assert(items.drop_last()[i] == items[i]);
        lemma_threats_element(items.drop_last(), i);
    }
}

/// The first member of the object with the given key, if there is one.
fn get_field<'a>(fields: &'a Vec<(String, JsonValue)>, key: &str) -> (r: Option<&'a JsonValue>)
    ensures
        match r {
            Some(v) => spec_field(fields@, key@) == Some(*v),
            None => spec_field(fields@, key@) is None,
        },
{
    let mut i: usize = 0;
    proof {
        assert(fields@.skip(0) =~= fields@);
    }
    while i < fields.len()
        invariant
            0 <= i <= fields@.len(),
            spec_field(fields@, key@) == spec_field(fields@.skip(i as int), key@),
        decreases fields@.len() - i,
    {
        proof {
            assert(fields@.skip(i as int)[0] == fields@[i as int]);
        }
        if str_eq(fields[i].0.as_str(), key) {
            return Some(&fields[i].1);
        }
        proof {
            assert(fields@.skip(i as int).drop_first() =~= fields@.skip(i as int + 1));
        }
        i += 1;
    }
    None
}

/// A required string member of the object.
fn get_str_field(fields: &Vec<(String, JsonValue)>, key: &str) -> (r: Option<String>)
    ensures
        match r {
            Some(s) => spec_str_field(fields@, key@) == Some(s@),
            None => spec_str_field(fields@, key@) is None,
        },
{
    match get_field(fields, key) {
        Some(JsonValue::Str(s)) => Some(s.clone()),
        _ => None,
    }
}

/// A string member that defaults to the empty text when absent.
fn get_opt_str_field(fields: &Vec<(String, JsonValue)>, key: &str) -> (r: Option<String>)
    ensures
        match r {
            Some(s) => spec_opt_str_field(fields@, key@) == Some(s@),
            None => spec_opt_str_field(fields@, key@) is None,
        },
{
    match get_field(fields, key) {
        Some(JsonValue::Str(s)) => Some(s.clone()),
        None => Some(String::new()),
        Some(_) => None,
    }
}

/// A pagination-cursor member: absent or null means no cursor.
fn get_cursor_field(fields: &Vec<(String, JsonValue)>, key: &str) -> (r: Option<Option<String>>)
    ensures
        match r {
            Some(None) => spec_cursor_field(fields@, key@) == Some(None::<Seq<char>>),
            Some(Some(s)) => spec_cursor_field(fields@, key@) == Some(Some(s@)),
            None => spec_cursor_field(fields@, key@) is None,
        },
{
    match get_field(fields, key) {
        None => Some(None),
        Some(JsonValue::Null) => Some(None),
        Some(JsonValue::Str(s)) => Some(Some(s.clone())),
        Some(_) => None,
    }
}

/// The result-count member, zero when absent.
fn get_count_field(fields: &Vec<(String, JsonValue)>, key: &str) -> (r: Option<u64>)
    ensures
        match r {
            Some(n) => spec_count_field(fields@, key@) == Some(n),
            None => spec_count_field(fields@, key@) is None,
        },
{
    match get_field(fields, key) {
        None => Some(0),
        Some(JsonValue::Num(Some(n), _)) => Some(*n),
        Some(_) => None,
    }
}

/// Every element of the array as a string.
fn get_strings(items: &Vec<JsonValue>) -> (r: Option<Vec<String>>)
    ensures
        match r {
            Some(v) => spec_strings(items@) == Some(v.deep_view()),
            None => spec_strings(items@) is None,
        },
{
    let mut out: Vec<String> = Vec::new();
    let mut i: usize = 0;
    proof {
        assert(items@.take(0) =~= Seq::<JsonValue>::empty());
        assert(out.deep_view() =~= Seq::<Seq<char>>::empty());
    }
    while i < items.len()
        invariant
            0 <= i <= items@.len(),
            spec_strings(items@.take(i as int)) == Some(out.deep_view()),
        decreases items@.len() - i,
    {
        let ghost prev = out.deep_view();
        match &items[i] {
            JsonValue::Str(s) => out.push(s.clone()),
            _ => {
                proof {
                    if spec_strings(items@) is Some {
                        lemma_strings_element(items@, i as int);
                    }
                }
                return None;
            },
        }
        proof {
            assert(items@.take(i as int + 1).drop_last() =~= items@.take(i as int));
            assert(items@.take(i as int + 1).last() == items@[i as int]);
            assert(out.deep_view() =~= prev.push(items@[i as int]->Str_0@));
        }
        i += 1;
    }
    proof {
        assert(items@.take(items@.len() as int) =~= items@);
    }
    Some(out)
}

/// The indicator record a JSON document carries.
pub fn decode_indicator(v: &JsonValue) -> (r: Option<Indicator>)
    ensures
        match r {
            Some(ind) => spec_indicator(*v) == Some(ind@),
            None => spec_indicator(*v) is None,
        },
{
    let fields = match v {
        JsonValue::Obj(fields) => fields,
        _ => {
            return None;
        },
    };
    let id = match get_str_field(fields, "_id") {
        Some(s) => s,
        None => {
            return None;
        },
    };
    let created = match get_str_field(fields, "created") {
        Some(s) => s,
        None => {
            return None;
        },
    };
    let indicator = match get_str_field(fields, "indicator") {
        Some(s) => s,
        None => {
            return None;
        },
    };
    let ty_text = match get_str_field(fields, "type") {
        Some(s) => s,
        None => {
            return None;
        },
    };
    let indicator_type = match IndicatorType::parse(ty_text.as_str()) {
        Ok(t) => t,
        Err(_) => {
            return None;
        },
    };
    let description = match get_opt_str_field(fields, "description") {
        Some(s) => s,
        None => {
            return None;
        },
    };
    Some(Indicator { id, created, indicator, indicator_type, description })
}

/// Every element of the array as an indicator record.
fn get_indicators(items: &Vec<JsonValue>) -> (r: Option<Vec<Indicator>>)
    ensures
        match r {
            Some(v) => spec_indicators(items@) == Some(v.deep_view()),
            None => spec_indicators(items@) is None,
        },
{
    let mut out: Vec<Indicator> = Vec::new();
    let mut i: usize = 0;
    proof {
        assert(items@.take(0) =~= Seq::<JsonValue>::empty());
        assert(out.deep_view() =~= Seq::<IndicatorV>::empty());
    }
    while i < items.len()
        invariant
            0 <= i <= items@.len(),
            spec_indicators(items@.take(i as int)) == Some(out.deep_view()),
        decreases items@.len() - i,
    {
        let ghost prev = out.deep_view();
        match decode_indicator(&items[i]) {
            Some(ind) => {
                let ghost indv = ind@;
                out.push(ind);
                proof {
                    assert(items@.take(i as int + 1).drop_last() =~= items@.take(i as int));
                    assert(items@.take(i as int + 1).last() == items@[i as int]);
                    assert(out.deep_view() =~= prev.push(indv));
                }
            },
            None => {
                proof {
                    if spec_indicators(items@) is Some {
                        lemma_indicators_element(items@, i as int);
                    }
                }
                return None;
            },
        }
        i += 1;
    }
    proof {
        assert(items@.take(items@.len() as int) =~= items@);
    }
    Some(out)
}

/// The threat record a JSON document carries.
pub fn decode_threat(v: &JsonValue) -> (r: Option<Threat>)
    ensures
        match r {
            Some(t) => spec_threat(*v) == Some(t@),
            None => spec_threat(*v) is None,
        },
{
    let fields = match v {
        JsonValue::Obj(fields) => fields,
        _ => {
            return None;
        },
    };
    let id = match get_str_field(fields, "id") {
        Some(s) => s,
        None => {
            return None;
        },
    };
    let author_name = match get_str_field(fields, "author_name") {
        Some(s) => s,
        None => {
            return None;
        },
    };
    let name = match get_str_field(fields, "name") {
        Some(s) => s,
        None => {
            return None;
        },
    };
    let description = match get_opt_str_field(fields, "description") {
        Some(s) => s,
        None => {
            return None;
        },
    };
    let created = match get_str_field(fields, "created") {
        Some(s) => s,
        None => {
            return None;
        },
    };
    let modified = match get_str_field(fields, "modified") {
        Some(s) => s,
        None => {
            return None;
        },
    };
    let indicators = match get_field(fields, "indicators") {
        Some(JsonValue::Arr(a)) => match get_indicators(a) {
            Some(v) => v,
            None => {
                return None;
            },
        },
        _ => {
            return None;
        },
    };
    let revision = match get_field(fields, "revision") {
        Some(JsonValue::Num(_, text)) => text.clone(),
        _ => {
            return None;
        },
    };
    let references = match get_field(fields, "references") {
        None => {
            let empty: Vec<String> = Vec::new();
            proof {
                assert(empty.deep_view() =~= Seq::<Seq<char>>::empty());
            }
            empty
        },
        Some(JsonValue::Arr(a)) => match get_strings(a) {
            Some(v) => v,
            None => {
                return None;
            },
        },
        Some(_) => {
            return None;
        },
    };
    let tags = match get_field(fields, "tags") {
        None => {
            let empty: Vec<String> = Vec::new();
            proof {
                assert(empty.deep_view() =~= Seq::<Seq<char>>::empty());
            }
            empty
        },
        Some(JsonValue::Arr(a)) => match get_strings(a) {
            Some(v) => v,
            None => {
                return None;
            },
        },
        Some(_) => {
            return None;
        },
    };
    Some(
        Threat {
            id,
            author_name,
            name,
            description,
            created,
            modified,
            indicators,
            revision,
            references,
            tags,
        },
    )
}

/// Every element of the array as a threat record.
fn get_threats(items: &Vec<JsonValue>) -> (r: Option<Vec<Threat>>)
    ensures
        match r {
            Some(v) => spec_threats(items@) == Some(v.deep_view()),
            None => spec_threats(items@) is None,
        },
{
    let mut out: Vec<Threat> = Vec::new();
    let mut i: usize = 0;
    proof {
        assert(items@.take(0) =~= Seq::<JsonValue>::empty());
        assert(out.deep_view() =~= Seq::<ThreatV>::empty());
    }
    while i < items.len()
        invariant
            0 <= i <= items@.len(),
            spec_threats(items@.take(i as int)) == Some(out.deep_view()),
        decreases items@.len() - i,
    {
        let ghost prev = out.deep_view();
        match decode_threat(&items[i]) {
            Some(t) => {
                let ghost tv = t@;
                out.push(t);
                proof {
                    assert(items@.take(i as int + 1).drop_last() =~= items@.take(i as int));
                    assert(items@.take(i as int + 1).last() == items@[i as int]);
                    assert(out.deep_view() =~= prev.push(tv));
                }
            },
            None => {
                proof {
                    if spec_threats(items@) is Some {
                        lemma_threats_element(items@, i as int);
                    }
                }
                return None;
            },
        }
        i += 1;
    }
    proof {
        assert(items@.take(items@.len() as int) =~= items@);
    }
    Some(out)
}

/// The page of threats a JSON document carries.
pub fn decode_threats_page(v: &JsonValue) -> (r: Option<Threats>)
    ensures
        match r {
            Some(p) => spec_threats_page(*v) == Some(p@),
            None => spec_threats_page(*v) is None,
        },
{
    let fields = match v {
        JsonValue::Obj(fields) => fields,
        _ => {
            return None;
        },
    };
    let count = match get_count_field(fields, "count") {
        Some(n) => n,
        None => {
            return None;
        },
    };
    let next = match get_cursor_field(fields, "next") {
        Some(c) => c,
        None => {
            return None;
        },
    };
    let previous = match get_cursor_field(fields, "previous") {
        Some(c) => c,
        None => {
            return None;
        },
    };
    let results = match get_field(fields, "results") {
        None => {
            let empty: Vec<Threat> = Vec::new();
            proof {
                assert(empty.deep_view() =~= Seq::<ThreatV>::empty());
            }
            empty
        },
        Some(JsonValue::Arr(a)) => match get_threats(a) {
            Some(v) => v,
            None => {
                return None;
            },
        },
        Some(_) => {
            return None;
        },
    };
    Some(Threats { count, next, previous, results })
}

/// The page of threats a transport answer carries: a non-success status
/// is an `HttpStatus` error, and a success status with a body that is
/// not JSON for a page of threats is a `Decode` error.
pub fn threats_response(status: u16, body: &str) -> (r: Result<Threats, Error>)
    ensures
        r matches Ok(p) ==> spec_threats_response(status, body@) == Ok::<ThreatsV, Error>(p@),
        r matches Err(e) ==> spec_threats_response(status, body@) == Err::<ThreatsV, Error>(e),
{
    if !(200 <= status && status < 300) {
        return Err(Error::HttpStatus(status));
    }
    let v = match parse_json(body) {
        Some(v) => v,
        None => {
            return Err(Error::Decode);
        },
    };
    match decode_threats_page(&v) {
        Some(p) => Ok(p),
        None => Err(Error::Decode),
    }
}

/// The single threat a transport answer carries: a non-success status
/// is an `HttpStatus` error, and a success status with a body that is
/// not JSON for a threat record is a `Decode` error.
pub fn threat_response(status: u16, body: &str) -> (r: Result<Threat, Error>)
    ensures
        r matches Ok(t) ==> spec_threat_response(status, body@) == Ok::<ThreatV, Error>(t@),
        r matches Err(e) ==> spec_threat_response(status, body@) == Err::<ThreatV, Error>(e),
{
    if !(200 <= status && status < 300) {
        return Err(Error::HttpStatus(status));
    }
    let v = match parse_json(body) {
        Some(v) => v,
        None => {
            return Err(Error::Decode);
        },
    };
    match decode_threat(&v) {
        Some(t) => Ok(t),
        None => Err(Error::Decode),
    }
}

} // verus!
