//! An answer as a true tagged union: the payload its discriminant names.

use vstd::prelude::*;
use crate::model::{Answer, AnswerField, AnswerType, Choice, Choices, Payment};

verus! {

/// The payload of an answer, one variant per answer shape.
#[derive(Debug)]
pub enum AnswerValue {
    Choice(Choice),
    Choices(Choices),
    Date(String),
    Email(String),
    Url(String),
    FileUrl(String),
    Number(i32),
    Boolean(bool),
    Text(String),
    Payment(Payment),
    PhoneNumber(String),
}

/// An answer with exactly one payload.
#[derive(Debug)]
pub struct TaggedAnswer {
    /// The question answered.
    pub field: AnswerField,
    /// The answer itself.
    pub value: AnswerValue,
}

/// The slot that the discriminant names is filled, and every other slot
/// is empty.
pub open spec fn payload_consistent(a: Answer) -> bool {
    &&& (a.choice is Some) == (a.answer_type == AnswerType::Choice)
    &&& (a.choices is Some) == (a.answer_type == AnswerType::Choices)
    &&& (a.date is Some) == (a.answer_type == AnswerType::Date)
    &&& (a.email is Some) == (a.answer_type == AnswerType::Email)
    &&& (a.url is Some) == (a.answer_type == AnswerType::Url)
    &&& (a.file_url is Some) == (a.answer_type == AnswerType::FileUrl)
    &&& (a.number is Some) == (a.answer_type == AnswerType::Number)
    &&& (a.boolean is Some) == (a.answer_type == AnswerType::Boolean)
    &&& (a.text is Some) == (a.answer_type == AnswerType::Text)
    &&& (a.payment is Some) == (a.answer_type == AnswerType::Payment)
    &&& (a.phone_number is Some) == (a.answer_type == AnswerType::PhoneNumber)
}

/// `v` is the content of the slot of `a` that has `v`'s shape.
pub open spec fn carries(a: Answer, v: AnswerValue) -> bool {
    match v {
        AnswerValue::Choice(c) => a.choice == Some(c),
        AnswerValue::Choices(c) => a.choices == Some(c),
        AnswerValue::Date(s) => a.date == Some(s),
        AnswerValue::Email(s) => a.email == Some(s),
        AnswerValue::Url(s) => a.url == Some(s),
        AnswerValue::FileUrl(s) => a.file_url == Some(s),
        AnswerValue::Number(n) => a.number == Some(n),
        AnswerValue::Boolean(b) => a.boolean == Some(b),
        AnswerValue::Text(s) => a.text == Some(s),
        AnswerValue::Payment(p) => a.payment == Some(p),
        AnswerValue::PhoneNumber(s) => a.phone_number == Some(s),
    }
}

/// The shape of a payload.
pub open spec fn shape_of(v: AnswerValue) -> AnswerType {
    match v {
        AnswerValue::Choice(_) => AnswerType::Choice,
        AnswerValue::Choices(_) => AnswerType::Choices,
        AnswerValue::Date(_) => AnswerType::Date,
        AnswerValue::Email(_) => AnswerType::Email,
        AnswerValue::Url(_) => AnswerType::Url,
        AnswerValue::FileUrl(_) => AnswerType::FileUrl,
        AnswerValue::Number(_) => AnswerType::Number,
        AnswerValue::Boolean(_) => AnswerType::Boolean,
        AnswerValue::Text(_) => AnswerType::Text,
        AnswerValue::Payment(_) => AnswerType::Payment,
        AnswerValue::PhoneNumber(_) => AnswerType::PhoneNumber,
    }
}

impl Answer {
    /// The answer with its one payload, or `None` when the slot its
    /// discriminant names is empty or another slot is filled.
    pub fn into_tagged(self) -> (r: Option<TaggedAnswer>)
        ensures
            r is Some == payload_consistent(self),
            r matches Some(t) ==> {
                &&& t.field == self.field
                &&& shape_of(t.value) == self.answer_type
                &&& carries(self, t.value)
            },
    {
        let t = self.answer_type;
        let consistent = self.choice.is_some() == (t == AnswerType::Choice)
            && self.choices.is_some() == (t == AnswerType::Choices)
            && self.date.is_some() == (t == AnswerType::Date)
            && self.email.is_some() == (t == AnswerType::Email)
            && self.url.is_some() == (t == AnswerType::Url)
            && self.file_url.is_some() == (t == AnswerType::FileUrl)
            && self.number.is_some() == (t == AnswerType::Number)
            && self.boolean.is_some() == (t == AnswerType::Boolean)
            && self.text.is_some() == (t == AnswerType::Text)
            && self.payment.is_some() == (t == AnswerType::Payment)
            && self.phone_number.is_some() == (t == AnswerType::PhoneNumber);
        if !consistent {
            return None;
        }
        let value = match t {
            AnswerType::Choice => AnswerValue::Choice(self.choice.unwrap()),
            AnswerType::Choices => AnswerValue::Choices(self.choices.unwrap()),
            AnswerType::Date => AnswerValue::Date(self.date.unwrap()),
            AnswerType::Email => AnswerValue::Email(self.email.unwrap()),
            AnswerType::Url => AnswerValue::Url(self.url.unwrap()),
            AnswerType::FileUrl => AnswerValue::FileUrl(self.file_url.unwrap()),
            AnswerType::Number => AnswerValue::Number(self.number.unwrap()),
            AnswerType::Boolean => AnswerValue::Boolean(self.boolean.unwrap()),
            AnswerType::Text => AnswerValue::Text(self.text.unwrap()),
            AnswerType::Payment => AnswerValue::Payment(self.payment.unwrap()),
            AnswerType::PhoneNumber => AnswerValue::PhoneNumber(self.phone_number.unwrap()),
        };
        Some(TaggedAnswer { field: self.field, value })
    }
}

} // verus!
