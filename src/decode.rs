//! Decoding a JSON document into the model, as `crate::schema` states it.

use vstd::prelude::*;
use crate::error::Error;
use crate::json::{Json, member};
use crate::model::{
    Answer, AnswerField, AnswerType, Calculated, Choice, Choices, Definition, Field, Metadata,
    Payment, Response, Responses,
};
use crate::schema::{
    answer_decodes, answer_field_decodes, answer_field_ok, answer_ok, answer_type_decodes,
    answer_type_ok, answers_decodes, answers_ok, calculated_decodes, calculated_ok, choice_decodes,
    choice_ok, choices_decodes, choices_ok, definition_decodes, definition_ok, field_decodes,
    field_ok, fields_decodes, fields_ok, i32_decodes, i32_ok, items_decodes, items_ok,
    labels_decodes, labels_ok, metadata_decodes, metadata_ok, opt_bool_decodes, opt_bool_ok,
    opt_i32_decodes, opt_i32_ok, opt_string_decodes, opt_string_ok, opt_u16_decodes, opt_u16_ok,
    opt_u8_decodes, opt_u8_ok, optional_decodes, optional_ok, payment_decodes, payment_ok,
    req_string_decodes, req_string_ok, response_decodes, response_ok, responses_decodes,
    responses_ok, string_decodes, string_ok,
};

verus! {

fn decode_string(j: &Json) -> (r: Option<String>)
    ensures
        r is Some == string_ok(*j),
        r matches Some(s) ==> string_decodes(*j, s),
{
    match j {
        Json::Str(s) => Some(s.clone()),
        _ => None,
    }
}

fn required_string(j: &Json, key: &str) -> (r: Option<String>)
    ensures
        r is Some == req_string_ok(*j, key@),
        r matches Some(s) ==> req_string_decodes(*j, key@, s),
{
    match j.get(key) {
        Some(v) => decode_string(v),
        None => None,
    }
}

fn optional_string(j: &Json, key: &str) -> (r: Option<Option<String>>)
    ensures
        r is Some == opt_string_ok(*j, key@),
        r matches Some(o) ==> opt_string_decodes(*j, key@, o),
{
    match j.get(key) {
        None => Some(None),
        Some(Json::Null) => Some(None),
        Some(v) => match decode_string(v) {
            Some(s) => Some(Some(s)),
            None => None,
        },
    }
}

fn decode_i32(j: &Json) -> (r: Option<i32>)
    ensures
        r is Some == i32_ok(*j),
        r matches Some(t) ==> i32_decodes(*j, t),
{
    match j {
        Json::Int(n) => if i32::MIN as i64 <= *n && *n <= i32::MAX as i64 {
            Some(*n as i32)
        } else {
            None
        },
        _ => None,
    }
}

fn optional_i32(j: &Json, key: &str) -> (r: Option<Option<i32>>)
    ensures
        r is Some == opt_i32_ok(*j, key@),
        r matches Some(o) ==> opt_i32_decodes(*j, key@, o),
{
    match j.get(key) {
        None => Some(None),
        Some(Json::Null) => Some(None),
        Some(v) => match decode_i32(v) {
            Some(t) => Some(Some(t)),
            None => None,
        },
    }
}

fn optional_u16(j: &Json, key: &str) -> (r: Option<Option<u16>>)
    ensures
        r is Some == opt_u16_ok(*j, key@),
        r matches Some(o) ==> opt_u16_decodes(*j, key@, o),
{
    match j.get(key) {
        None => Some(None),
        Some(Json::Null) => Some(None),
        Some(Json::Int(n)) => if 0 <= *n && *n <= u16::MAX as i64 {
            Some(Some(*n as u16))
        } else {
            None
        },
        Some(_) => None,
    }
}

fn optional_u8(j: &Json, key: &str) -> (r: Option<Option<u8>>)
    ensures
        r is Some == opt_u8_ok(*j, key@),
        r matches Some(o) ==> opt_u8_decodes(*j, key@, o),
{
    match j.get(key) {
        None => Some(None),
        Some(Json::Null) => Some(None),
        Some(Json::Int(n)) => if 0 <= *n && *n <= u8::MAX as i64 {
            Some(Some(*n as u8))
        } else {
            None
        },
        Some(_) => None,
    }
}

fn optional_bool(j: &Json, key: &str) -> (r: Option<Option<bool>>)
    ensures
        r is Some == opt_bool_ok(*j, key@),
        r matches Some(o) ==> opt_bool_decodes(*j, key@, o),
{
    match j.get(key) {
        None => Some(None),
        Some(Json::Null) => Some(None),
        Some(Json::Bool(b)) => Some(Some(*b)),
        Some(_) => None,
    }
}

fn decode_answer_type(j: &Json) -> (r: Option<AnswerType>)
    ensures
        r is Some == answer_type_ok(*j),
        r matches Some(t) ==> answer_type_decodes(*j, t),
{
    let s = match j {
        Json::Str(s) => s,
        _ => return None,
    };
    if is_named(s, "choice") {
        Some(AnswerType::Choice)
    } else if is_named(s, "choices") {
        Some(AnswerType::Choices)
    } else if is_named(s, "date") {
        Some(AnswerType::Date)
    } else if is_named(s, "email") {
        Some(AnswerType::Email)
    } else if is_named(s, "url") {
        Some(AnswerType::Url)
    } else if is_named(s, "file_url") {
        Some(AnswerType::FileUrl)
    } else if is_named(s, "number") {
        Some(AnswerType::Number)
    } else if is_named(s, "boolean") {
        Some(AnswerType::Boolean)
    } else if is_named(s, "text") {
        Some(AnswerType::Text)
    } else if is_named(s, "payment") {
        Some(AnswerType::Payment)
    } else if is_named(s, "phone_number") {
        Some(AnswerType::PhoneNumber)
    } else {
        None
    }
}

fn is_named(s: &String, name: &str) -> (r: bool)
    ensures
        r == (s@ == name@),
{
    *s == String::from_str(name)
}

fn decode_choice(j: &Json) -> (r: Option<Choice>)
    ensures
        r is Some == choice_ok(*j),
        r matches Some(c) ==> choice_decodes(*j, c),
{
    let label = required_string(j, "label")?;
    let other = optional_string(j, "other")?;
    Some(Choice { label, other })
}

fn decode_labels(j: &Json) -> (r: Option<Vec<String>>)
    ensures
        r is Some == labels_ok(*j),
        r matches Some(v) ==> labels_decodes(*j, v@),
{
    let a = match j {
        Json::Array(a) => a,
        _ => return None,
    };
    let mut out: Vec<String> = Vec::new();
    let mut i: usize = 0;
    while i < a.len()
        invariant
            j is Array && j->Array_0@ == a@,
            0 <= i <= a@.len(),
            out@.len() == i,
            forall|k: int| 0 <= k < i ==> string_ok(#[trigger] a@[k]) && string_decodes(a@[k], out@[k]),
        decreases a@.len() - i,
    {
        match decode_string(&a[i]) {
            Some(s) => out.push(s),
            None => {
                assert(!string_ok(a@[i as int]));
                return None;
            },
        }
        i = i + 1;
    }
    Some(out)
}

fn decode_choices(j: &Json) -> (r: Option<Choices>)
    ensures
        r is Some == choices_ok(*j),
        r matches Some(c) ==> choices_decodes(*j, c),
{
    let labels = match j.get("labels") {
        Some(v) => decode_labels(v)?,
        None => return None,
    };
    let other = optional_string(j, "other")?;
    Some(Choices { labels, other })
}

fn decode_payment(j: &Json) -> (r: Option<Payment>)
    ensures
        r is Some == payment_ok(*j),
        r matches Some(p) ==> payment_decodes(*j, p),
{
    let amount = required_string(j, "amount")?;
    let last4 = required_string(j, "last4")?;
    let name = required_string(j, "name")?;
    Some(Payment { amount, last4, name })
}

fn decode_answer_field(j: &Json) -> (r: Option<AnswerField>)
    ensures
        r is Some == answer_field_ok(*j),
        r matches Some(f) ==> answer_field_decodes(*j, f),
{
    let id = required_string(j, "id")?;
    let field_type = required_string(j, "type")?;
    let reference = required_string(j, "ref")?;
    let title = optional_string(j, "title")?;
    Some(AnswerField { id, field_type, reference, title })
}

fn optional_choice(j: &Json, key: &str) -> (r: Option<Option<Choice>>)
    ensures
        r is Some == optional_ok(member(*j, key@), |x: Json| choice_ok(x)),
        r matches Some(o) ==> optional_decodes(
            member(*j, key@),
            o,
            |x: Json, y: Choice| choice_decodes(x, y),
        ),
{
    match j.get(key) {
        None => Some(None),
        Some(Json::Null) => Some(None),
        Some(v) => match decode_choice(v) {
            Some(t) => Some(Some(t)),
            None => None,
        },
    }
}

fn optional_choices(j: &Json, key: &str) -> (r: Option<Option<Choices>>)
    ensures
        r is Some == optional_ok(member(*j, key@), |x: Json| choices_ok(x)),
        r matches Some(o) ==> optional_decodes(
            member(*j, key@),
            o,
            |x: Json, y: Choices| choices_decodes(x, y),
        ),
{
    match j.get(key) {
        None => Some(None),
        Some(Json::Null) => Some(None),
        Some(v) => match decode_choices(v) {
            Some(t) => Some(Some(t)),
            None => None,
        },
    }
}

fn optional_payment(j: &Json, key: &str) -> (r: Option<Option<Payment>>)
    ensures
        r is Some == optional_ok(member(*j, key@), |x: Json| payment_ok(x)),
        r matches Some(o) ==> optional_decodes(
            member(*j, key@),
            o,
            |x: Json, y: Payment| payment_decodes(x, y),
        ),
{
    match j.get(key) {
        None => Some(None),
        Some(Json::Null) => Some(None),
        Some(v) => match decode_payment(v) {
            Some(t) => Some(Some(t)),
            None => None,
        },
    }
}

impl Answer {
    /// Decodes one answer. `None` exactly when `j` is not an answer.
    pub fn from_json(j: &Json) -> (r: Option<Answer>)
        ensures
            r is Some == answer_ok(*j),
            r matches Some(a) ==> answer_decodes(*j, a),
    {
        let field = match j.get("field") {
            Some(v) => decode_answer_field(v)?,
            None => return None,
        };
        let answer_type = match j.get("type") {
            Some(v) => decode_answer_type(v)?,
            None => return None,
        };
        let choice = optional_choice(j, "choice")?;
        let choices = optional_choices(j, "choices")?;
        let date = optional_string(j, "date")?;
        let email = optional_string(j, "email")?;
        let file_url = optional_string(j, "file_url")?;
        let number = optional_i32(j, "number")?;
        let boolean = optional_bool(j, "boolean")?;
        let text = optional_string(j, "text")?;
        let url = optional_string(j, "url")?;
        let payment = optional_payment(j, "payment")?;
        let phone_number = optional_string(j, "phone_number")?;
        Some(
            Answer {
                field,
                answer_type,
                choice,
                choices,
                date,
                email,
                file_url,
                number,
                boolean,
                text,
                url,
                payment,
                phone_number,
            },
        )
    }
}

fn decode_answers(j: &Json) -> (r: Option<Vec<Answer>>)
    ensures
        r is Some == answers_ok(*j),
        r matches Some(v) ==> answers_decodes(*j, v@),
{
    let a = match j {
        Json::Array(a) => a,
        _ => return None,
    };
    let mut out: Vec<Answer> = Vec::new();
    let mut i: usize = 0;
    while i < a.len()
        invariant
            j is Array && j->Array_0@ == a@,
            0 <= i <= a@.len(),
            out@.len() == i,
            forall|k: int| 0 <= k < i ==> answer_ok(#[trigger] a@[k]) && answer_decodes(a@[k], out@[k]),
        decreases a@.len() - i,
    {
        match Answer::from_json(&a[i]) {
            Some(x) => out.push(x),
            None => {
                assert(!answer_ok(a@[i as int]));
                return None;
            },
        }
        i = i + 1;
    }
    Some(out)
}

fn decode_field(j: &Json) -> (r: Option<Field>)
    ensures
        r is Some == field_ok(*j),
        r matches Some(f) ==> field_decodes(*j, f),
{
    let id = required_string(j, "id")?;
    let field_type = required_string(j, "type")?;
    let title = required_string(j, "title")?;
    let description = required_string(j, "description")?;
    Some(Field { id, field_type, title, description })
}

fn decode_fields(j: &Json) -> (r: Option<Vec<Field>>)
    ensures
        r is Some == fields_ok(*j),
        r matches Some(v) ==> fields_decodes(*j, v@),
{
    let a = match j {
        Json::Array(a) => a,
        _ => return None,
    };
    let mut out: Vec<Field> = Vec::new();
    let mut i: usize = 0;
    while i < a.len()
        invariant
            j is Array && j->Array_0@ == a@,
            0 <= i <= a@.len(),
            out@.len() == i,
            forall|k: int| 0 <= k < i ==> field_ok(#[trigger] a@[k]) && field_decodes(a@[k], out@[k]),
        decreases a@.len() - i,
    {
        match decode_field(&a[i]) {
            Some(x) => out.push(x),
            None => {
                assert(!field_ok(a@[i as int]));
                return None;
            },
        }
        i = i + 1;
    }
    Some(out)
}

fn decode_definition(j: &Json) -> (r: Option<Definition>)
    ensures
        r is Some == definition_ok(*j),
        r matches Some(d) ==> definition_decodes(*j, d),
{
    let fields = match j.get("fields") {
        Some(v) => decode_fields(v)?,
        None => return None,
    };
    Some(Definition { fields })
}

fn optional_definition(j: &Json, key: &str) -> (r: Option<Option<Definition>>)
    ensures
        r is Some == optional_ok(member(*j, key@), |x: Json| definition_ok(x)),
        r matches Some(o) ==> optional_decodes(
            member(*j, key@),
            o,
            |x: Json, y: Definition| definition_decodes(x, y),
        ),
{
    match j.get(key) {
        None => Some(None),
        Some(Json::Null) => Some(None),
        Some(v) => match decode_definition(v) {
            Some(t) => Some(Some(t)),
            None => None,
        },
    }
}

fn optional_answers(j: &Json, key: &str) -> (r: Option<Option<Vec<Answer>>>)
    ensures
        r is Some == optional_ok(member(*j, key@), |x: Json| answers_ok(x)),
        r matches Some(o) ==> optional_decodes(
            member(*j, key@),
            o,
            |x: Json, y: Vec<Answer>| answers_decodes(x, y@),
        ),
{
    match j.get(key) {
        None => Some(None),
        Some(Json::Null) => Some(None),
        Some(v) => match decode_answers(v) {
            Some(t) => Some(Some(t)),
            None => None,
        },
    }
}

fn decode_metadata(j: &Json) -> (r: Option<Metadata>)
    ensures
        r is Some == metadata_ok(*j),
        r matches Some(m) ==> metadata_decodes(*j, m),
{
    let user_agent = required_string(j, "user_agent")?;
    let platform = optional_string(j, "platform")?;
    let referer = required_string(j, "referer")?;
    let network_id = required_string(j, "network_id")?;
    Some(Metadata { user_agent, platform, referer, network_id })
}

fn decode_calculated(j: &Json) -> (r: Option<Calculated>)
    ensures
        r is Some == calculated_ok(*j),
        r matches Some(c) ==> calculated_decodes(*j, c),
{
    let score = match j.get("score") {
        Some(v) => decode_i32(v)?,
        None => return None,
    };
    Some(Calculated { score })
}

impl Response {
    /// Decodes one response record. `None` exactly when `j` is not one.
    pub fn from_json(j: &Json) -> (r: Option<Response>)
        ensures
            r is Some == response_ok(*j),
            r matches Some(v) ==> response_decodes(*j, v),
    {
        let token = required_string(j, "token")?;
        let response_id = optional_string(j, "response_id")?;
        let landed_at = required_string(j, "landed_at")?;
        let submitted_at = required_string(j, "submitted_at")?;
        let metadata = match j.get("metadata") {
            Some(v) => decode_metadata(v)?,
            None => return None,
        };
        let definition = optional_definition(j, "definition")?;
        let answers = optional_answers(j, "answers")?;
        let calculated = match j.get("calculated") {
            Some(v) => decode_calculated(v)?,
            None => return None,
        };
        Some(
            Response {
                token,
                response_id,
                landed_at,
                submitted_at,
                metadata,
                definition,
                answers,
                calculated,
            },
        )
    }
}

fn decode_items(j: &Json) -> (r: Option<Vec<Response>>)
    ensures
        r is Some == items_ok(*j),
        r matches Some(v) ==> items_decodes(*j, v@),
{
    let a = match j {
        Json::Array(a) => a,
        _ => return None,
    };
    let mut out: Vec<Response> = Vec::new();
    let mut i: usize = 0;
    while i < a.len()
        invariant
            j is Array && j->Array_0@ == a@,
            0 <= i <= a@.len(),
            out@.len() == i,
            forall|k: int| 0 <= k < i ==> response_ok(#[trigger] a@[k]) && response_decodes(a@[k], out@[k]),
        decreases a@.len() - i,
    {
        match Response::from_json(&a[i]) {
            Some(x) => out.push(x),
            None => {
                assert(!response_ok(a@[i as int]));
                return None;
            },
        }
        i = i + 1;
    }
    Some(out)
}

impl Responses {
    /// Decodes a page of responses. Fails with [`Error::Decode`] exactly
    /// when `j` is not one.
    pub fn from_json(j: &Json) -> (r: Result<Responses, Error>)
        ensures
            r is Ok == responses_ok(*j),
            r matches Ok(v) ==> responses_decodes(*j, v),
            r matches Err(e) ==> e is Decode,
    {
        let total_items = optional_u16(j, "total_items");
        let page_count = optional_u8(j, "page_count");
        let items = match j.get("items") {
            Some(v) => decode_items(v),
            None => None,
        };
        match (total_items, page_count, items) {
            (Some(total_items), Some(page_count), Some(items)) => Ok(
                Responses { total_items, page_count, items },
            ),
            _ => Err(Error::Decode(String::from_str("the body is not a page of form responses"))),
        }
    }
}

} // verus!
