//! When a JSON document decodes, and into what.
//!
//! For each type of the model, `T_ok(j)` holds when `j` decodes into that
//! type, and `T_decodes(j, t)` when `t` is what it decodes into. The rules
//! are those of the provider's schema:
//! - a record is a JSON object; members that the schema does not name are
//!   ignored, and where a member appears twice, the first one counts;
//! - a required member must be present and of its type;
//! - an optional member may be missing or `null`, which both decode to
//!   `None`, and otherwise must be of its type;
//! - an integer must be an integer number in the range of its type.

use vstd::prelude::*;
use crate::json::{Json, member};
use crate::model::{
    Answer, AnswerField, AnswerType, Calculated, Choice, Choices, Definition, Field, Metadata,
    Payment, Response, Responses,
};

verus! {

// ----- generic shapes -----

/// A required member: present and accepted by `ok`.
pub open spec fn required_ok(v: Option<Json>, ok: spec_fn(Json) -> bool) -> bool {
    match v {
        Some(x) => ok(x),
        None => false,
    }
}

/// A required member that decodes into `t`.
pub open spec fn required_decodes<T>(v: Option<Json>, t: T, dec: spec_fn(Json, T) -> bool) -> bool {
    match v {
        Some(x) => dec(x, t),
        None => false,
    }
}

/// An optional member: missing, `null`, or accepted by `ok`.
pub open spec fn optional_ok(v: Option<Json>, ok: spec_fn(Json) -> bool) -> bool {
    match v {
        Some(x) => x is Null || ok(x),
        None => true,
    }
}

/// An optional member that decodes into `t`: `None` when it is missing or
/// `null`.
pub open spec fn optional_decodes<T>(
    v: Option<Json>,
    t: Option<T>,
    dec: spec_fn(Json, T) -> bool,
) -> bool {
    match v {
        Some(x) => if x is Null {
            t is None
        } else {
            t is Some && dec(x, t->Some_0)
        },
        None => t is None,
    }
}

/// A JSON array whose every element is accepted by `ok`.
pub open spec fn array_ok(j: Json, ok: spec_fn(Json) -> bool) -> bool {
    match j {
        Json::Array(a) => forall|i: int| 0 <= i < a@.len() ==> ok(#[trigger] a@[i]),
        _ => false,
    }
}

/// A JSON array whose elements decode, in order, into `v`.
pub open spec fn array_decodes<T>(j: Json, v: Seq<T>, dec: spec_fn(Json, T) -> bool) -> bool {
    match j {
        Json::Array(a) => a@.len() == v.len() && forall|i: int|
            0 <= i < v.len() ==> dec(#[trigger] a@[i], v[i]),
        _ => false,
    }
}

// ----- scalars -----

pub open spec fn string_ok(j: Json) -> bool {
    j is Str
}

pub open spec fn string_decodes(j: Json, s: String) -> bool {
    j matches Json::Str(x) && x@ == s@
}

pub open spec fn i32_ok(j: Json) -> bool {
    j matches Json::Int(n) && i32::MIN <= n <= i32::MAX
}

pub open spec fn i32_decodes(j: Json, t: i32) -> bool {
    j matches Json::Int(n) && n == t
}

pub open spec fn u16_ok(j: Json) -> bool {
    j matches Json::Int(n) && 0 <= n <= u16::MAX
}

pub open spec fn u16_decodes(j: Json, t: u16) -> bool {
    j matches Json::Int(n) && n == t
}

pub open spec fn u8_ok(j: Json) -> bool {
    j matches Json::Int(n) && 0 <= n <= u8::MAX
}

pub open spec fn u8_decodes(j: Json, t: u8) -> bool {
    j matches Json::Int(n) && n == t
}

pub open spec fn bool_ok(j: Json) -> bool {
    j is Bool
}

pub open spec fn bool_decodes(j: Json, t: bool) -> bool {
    j matches Json::Bool(b) && b == t
}

/// A required string member `key` of `j`.
pub open spec fn req_string_ok(j: Json, key: Seq<char>) -> bool {
    required_ok(member(j, key), |x: Json| string_ok(x))
}

pub open spec fn req_string_decodes(j: Json, key: Seq<char>, s: String) -> bool {
    required_decodes(member(j, key), s, |x: Json, y: String| string_decodes(x, y))
}

/// An optional string member `key` of `j`.
pub open spec fn opt_string_ok(j: Json, key: Seq<char>) -> bool {
    optional_ok(member(j, key), |x: Json| string_ok(x))
}

pub open spec fn opt_string_decodes(j: Json, key: Seq<char>, s: Option<String>) -> bool {
    optional_decodes(member(j, key), s, |x: Json, y: String| string_decodes(x, y))
}

pub open spec fn opt_i32_ok(j: Json, key: Seq<char>) -> bool {
    optional_ok(member(j, key), |x: Json| i32_ok(x))
}

pub open spec fn opt_i32_decodes(j: Json, key: Seq<char>, t: Option<i32>) -> bool {
    optional_decodes(member(j, key), t, |x: Json, y: i32| i32_decodes(x, y))
}

pub open spec fn opt_u16_ok(j: Json, key: Seq<char>) -> bool {
    optional_ok(member(j, key), |x: Json| u16_ok(x))
}

pub open spec fn opt_u16_decodes(j: Json, key: Seq<char>, t: Option<u16>) -> bool {
    optional_decodes(member(j, key), t, |x: Json, y: u16| u16_decodes(x, y))
}

pub open spec fn opt_u8_ok(j: Json, key: Seq<char>) -> bool {
    optional_ok(member(j, key), |x: Json| u8_ok(x))
}

pub open spec fn opt_u8_decodes(j: Json, key: Seq<char>, t: Option<u8>) -> bool {
    optional_decodes(member(j, key), t, |x: Json, y: u8| u8_decodes(x, y))
}

pub open spec fn opt_bool_ok(j: Json, key: Seq<char>) -> bool {
    optional_ok(member(j, key), |x: Json| bool_ok(x))
}

pub open spec fn opt_bool_decodes(j: Json, key: Seq<char>, t: Option<bool>) -> bool {
    optional_decodes(member(j, key), t, |x: Json, y: bool| bool_decodes(x, y))
}

// ----- the discriminant of an answer -----

/// The answer shape that the discriminant `s` names.
pub open spec fn answer_type_of(s: Seq<char>) -> Option<AnswerType> {
    if s == "choice"@ {
        Some(AnswerType::Choice)
    } else if s == "choices"@ {
        Some(AnswerType::Choices)
    } else if s == "date"@ {
        Some(AnswerType::Date)
    } else if s == "email"@ {
        Some(AnswerType::Email)
    } else if s == "url"@ {
        Some(AnswerType::Url)
    } else if s == "file_url"@ {
        Some(AnswerType::FileUrl)
    } else if s == "number"@ {
        Some(AnswerType::Number)
    } else if s == "boolean"@ {
        Some(AnswerType::Boolean)
    } else if s == "text"@ {
        Some(AnswerType::Text)
    } else if s == "payment"@ {
        Some(AnswerType::Payment)
    } else if s == "phone_number"@ {
        Some(AnswerType::PhoneNumber)
    } else {
        None
    }
}

pub open spec fn answer_type_ok(j: Json) -> bool {
    j matches Json::Str(s) && answer_type_of(s@) is Some
}

pub open spec fn answer_type_decodes(j: Json, t: AnswerType) -> bool {
    j matches Json::Str(s) && answer_type_of(s@) == Some(t)
}

// ----- records -----

pub open spec fn choice_ok(j: Json) -> bool {
    &&& req_string_ok(j, "label"@)
    &&& opt_string_ok(j, "other"@)
}

pub open spec fn choice_decodes(j: Json, c: Choice) -> bool {
    &&& req_string_decodes(j, "label"@, c.label)
    &&& opt_string_decodes(j, "other"@, c.other)
}

pub open spec fn labels_ok(j: Json) -> bool {
    array_ok(j, |x: Json| string_ok(x))
}

pub open spec fn labels_decodes(j: Json, v: Seq<String>) -> bool {
    array_decodes(j, v, |x: Json, y: String| string_decodes(x, y))
}

pub open spec fn choices_ok(j: Json) -> bool {
    &&& required_ok(member(j, "labels"@), |x: Json| labels_ok(x))
    &&& opt_string_ok(j, "other"@)
}

pub open spec fn choices_decodes(j: Json, c: Choices) -> bool {
    &&& required_decodes(member(j, "labels"@), c.labels, |x: Json, y: Vec<String>| labels_decodes(x, y@))
    &&& opt_string_decodes(j, "other"@, c.other)
}

pub open spec fn payment_ok(j: Json) -> bool {
    &&& req_string_ok(j, "amount"@)
    &&& req_string_ok(j, "last4"@)
    &&& req_string_ok(j, "name"@)
}

pub open spec fn payment_decodes(j: Json, p: Payment) -> bool {
    &&& req_string_decodes(j, "amount"@, p.amount)
    &&& req_string_decodes(j, "last4"@, p.last4)
    &&& req_string_decodes(j, "name"@, p.name)
}

pub open spec fn answer_field_ok(j: Json) -> bool {
    &&& req_string_ok(j, "id"@)
    &&& req_string_ok(j, "type"@)
    &&& req_string_ok(j, "ref"@)
    &&& opt_string_ok(j, "title"@)
}

pub open spec fn answer_field_decodes(j: Json, f: AnswerField) -> bool {
    &&& req_string_decodes(j, "id"@, f.id)
    &&& req_string_decodes(j, "type"@, f.field_type)
    &&& req_string_decodes(j, "ref"@, f.reference)
    &&& opt_string_decodes(j, "title"@, f.title)
}

pub open spec fn answer_ok(j: Json) -> bool {
    &&& required_ok(member(j, "field"@), |x: Json| answer_field_ok(x))
    &&& required_ok(member(j, "type"@), |x: Json| answer_type_ok(x))
    &&& optional_ok(member(j, "choice"@), |x: Json| choice_ok(x))
    &&& optional_ok(member(j, "choices"@), |x: Json| choices_ok(x))
    &&& opt_string_ok(j, "date"@)
    &&& opt_string_ok(j, "email"@)
    &&& opt_string_ok(j, "file_url"@)
    &&& opt_i32_ok(j, "number"@)
    &&& opt_bool_ok(j, "boolean"@)
    &&& opt_string_ok(j, "text"@)
    &&& opt_string_ok(j, "url"@)
    &&& optional_ok(member(j, "payment"@), |x: Json| payment_ok(x))
    &&& opt_string_ok(j, "phone_number"@)
}

pub open spec fn answer_decodes(j: Json, a: Answer) -> bool {
    &&& required_decodes(member(j, "field"@), a.field, |x: Json, y: AnswerField| answer_field_decodes(x, y))
    &&& required_decodes(member(j, "type"@), a.answer_type, |x: Json, y: AnswerType| answer_type_decodes(x, y))
    &&& optional_decodes(member(j, "choice"@), a.choice, |x: Json, y: Choice| choice_decodes(x, y))
    &&& optional_decodes(member(j, "choices"@), a.choices, |x: Json, y: Choices| choices_decodes(x, y))
    &&& opt_string_decodes(j, "date"@, a.date)
    &&& opt_string_decodes(j, "email"@, a.email)
    &&& opt_string_decodes(j, "file_url"@, a.file_url)
    &&& opt_i32_decodes(j, "number"@, a.number)
    &&& opt_bool_decodes(j, "boolean"@, a.boolean)
    &&& opt_string_decodes(j, "text"@, a.text)
    &&& opt_string_decodes(j, "url"@, a.url)
    &&& optional_decodes(member(j, "payment"@), a.payment, |x: Json, y: Payment| payment_decodes(x, y))
    &&& opt_string_decodes(j, "phone_number"@, a.phone_number)
}

pub open spec fn answers_ok(j: Json) -> bool {
    array_ok(j, |x: Json| answer_ok(x))
}

pub open spec fn answers_decodes(j: Json, v: Seq<Answer>) -> bool {
    array_decodes(j, v, |x: Json, y: Answer| answer_decodes(x, y))
}

pub open spec fn field_ok(j: Json) -> bool {
    &&& req_string_ok(j, "id"@)
    &&& req_string_ok(j, "type"@)
    &&& req_string_ok(j, "title"@)
    &&& req_string_ok(j, "description"@)
}

pub open spec fn field_decodes(j: Json, f: Field) -> bool {
    &&& req_string_decodes(j, "id"@, f.id)
    &&& req_string_decodes(j, "type"@, f.field_type)
    &&& req_string_decodes(j, "title"@, f.title)
    &&& req_string_decodes(j, "description"@, f.description)
}

pub open spec fn fields_ok(j: Json) -> bool {
    array_ok(j, |x: Json| field_ok(x))
}

pub open spec fn fields_decodes(j: Json, v: Seq<Field>) -> bool {
    array_decodes(j, v, |x: Json, y: Field| field_decodes(x, y))
}

pub open spec fn definition_ok(j: Json) -> bool {
    required_ok(member(j, "fields"@), |x: Json| fields_ok(x))
}

pub open spec fn definition_decodes(j: Json, d: Definition) -> bool {
    required_decodes(member(j, "fields"@), d.fields, |x: Json, y: Vec<Field>| fields_decodes(x, y@))
}

pub open spec fn metadata_ok(j: Json) -> bool {
    &&& req_string_ok(j, "user_agent"@)
    &&& opt_string_ok(j, "platform"@)
    &&& req_string_ok(j, "referer"@)
    &&& req_string_ok(j, "network_id"@)
}

pub open spec fn metadata_decodes(j: Json, m: Metadata) -> bool {
    &&& req_string_decodes(j, "user_agent"@, m.user_agent)
    &&& opt_string_decodes(j, "platform"@, m.platform)
    &&& req_string_decodes(j, "referer"@, m.referer)
    &&& req_string_decodes(j, "network_id"@, m.network_id)
}

pub open spec fn calculated_ok(j: Json) -> bool {
    required_ok(member(j, "score"@), |x: Json| i32_ok(x))
}

pub open spec fn calculated_decodes(j: Json, c: Calculated) -> bool {
    required_decodes(member(j, "score"@), c.score, |x: Json, y: i32| i32_decodes(x, y))
}

pub open spec fn response_ok(j: Json) -> bool {
    &&& req_string_ok(j, "token"@)
    &&& opt_string_ok(j, "response_id"@)
    &&& req_string_ok(j, "landed_at"@)
    &&& req_string_ok(j, "submitted_at"@)
    &&& required_ok(member(j, "metadata"@), |x: Json| metadata_ok(x))
    &&& optional_ok(member(j, "definition"@), |x: Json| definition_ok(x))
    &&& optional_ok(member(j, "answers"@), |x: Json| answers_ok(x))
    &&& required_ok(member(j, "calculated"@), |x: Json| calculated_ok(x))
}

pub open spec fn response_decodes(j: Json, r: Response) -> bool {
    &&& req_string_decodes(j, "token"@, r.token)
    &&& opt_string_decodes(j, "response_id"@, r.response_id)
    &&& req_string_decodes(j, "landed_at"@, r.landed_at)
    &&& req_string_decodes(j, "submitted_at"@, r.submitted_at)
    &&& required_decodes(member(j, "metadata"@), r.metadata, |x: Json, y: Metadata| metadata_decodes(x, y))
    &&& optional_decodes(member(j, "definition"@), r.definition, |x: Json, y: Definition| definition_decodes(x, y))
    &&& optional_decodes(member(j, "answers"@), r.answers, |x: Json, y: Vec<Answer>| answers_decodes(x, y@))
    &&& required_decodes(member(j, "calculated"@), r.calculated, |x: Json, y: Calculated| calculated_decodes(x, y))
}

pub open spec fn items_ok(j: Json) -> bool {
    array_ok(j, |x: Json| response_ok(x))
}

pub open spec fn items_decodes(j: Json, v: Seq<Response>) -> bool {
    array_decodes(j, v, |x: Json, y: Response| response_decodes(x, y))
}

/// `j` decodes into a page of responses.
pub open spec fn responses_ok(j: Json) -> bool {
    &&& opt_u16_ok(j, "total_items"@)
    &&& opt_u8_ok(j, "page_count"@)
    &&& required_ok(member(j, "items"@), |x: Json| items_ok(x))
}

/// `r` is the page of responses that `j` decodes into.
pub open spec fn responses_decodes(j: Json, r: Responses) -> bool {
    &&& opt_u16_decodes(j, "total_items"@, r.total_items)
    &&& opt_u8_decodes(j, "page_count"@, r.page_count)
    &&& required_decodes(member(j, "items"@), r.items, |x: Json, y: Vec<Response>| items_decodes(x, y@))
}

} // verus!
