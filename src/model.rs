//! The typed model of a page of form responses.

use vstd::prelude::*;

verus! {

/// Paged list of [`Response`]s.
#[derive(Debug)]
pub struct Responses {
    /// Total number of items in the retrieved collection.
    pub total_items: Option<u16>,
    /// Number of pages.
    pub page_count: Option<u8>,
    /// The responses, in the order the provider returned them.
    pub items: Vec<Response>,
}

/// One submission of the form.
#[derive(Debug)]
pub struct Response {
    /// Identifier of the submission, unique per request.
    pub token: String,
    /// Identifier of the response: unique per form, not globally.
    pub response_id: Option<String>,
    /// Time of the form landing, ISO 8601 in UTC to the second.
    pub landed_at: String,
    /// Time the response was submitted, ISO 8601 in UTC to the second.
    pub submitted_at: String,
    /// Metadata about the client's HTTP request.
    pub metadata: Metadata,
    /// The subset of the form definition relevant to this submission.
    pub definition: Option<Definition>,
    /// The answers, in order.
    pub answers: Option<Vec<Answer>>,
    /// Values computed from the answers.
    pub calculated: Calculated,
}

/// Metadata about a client's HTTP request.
#[derive(Debug)]
pub struct Metadata {
    pub user_agent: String,
    /// Derived from the user agent.
    pub platform: Option<String>,
    pub referer: String,
    /// IP of the client.
    pub network_id: String,
}

/// Subset of a complete form definition included with a submission.
#[derive(Debug)]
pub struct Definition {
    pub fields: Vec<Field>,
}

/// Definition of one form field.
#[derive(Debug)]
pub struct Field {
    pub id: String,
    /// The field's type tag.
    pub field_type: String,
    pub title: String,
    pub description: String,
}

/// The answer to one question, as the provider sends it: a discriminant and
/// one optional slot per payload shape.
#[derive(Debug)]
pub struct Answer {
    /// The question answered.
    pub field: AnswerField,
    /// The shape of the answer.
    pub answer_type: AnswerType,
    /// Single choice, for dropdown-like fields.
    pub choice: Option<Choice>,
    /// Multiple choices.
    pub choices: Option<Choices>,
    pub date: Option<String>,
    pub email: Option<String>,
    pub file_url: Option<String>,
    pub number: Option<i32>,
    pub boolean: Option<bool>,
    pub text: Option<String>,
    pub url: Option<String>,
    pub payment: Option<Payment>,
    pub phone_number: Option<String>,
}

/// The question an answer refers to.
#[derive(Debug)]
pub struct AnswerField {
    /// Id of the form field.
    pub id: String,
    /// The field's type in the form.
    pub field_type: String,
    /// The reference of the question, for matching answers with questions.
    pub reference: String,
    /// The form field's title.
    pub title: Option<String>,
}

/// The shape of an answer.
#[derive(Debug, Clone, Copy, PartialEq, Eq, Structural)]
pub enum AnswerType {
    Choice,
    Choices,
    Date,
    Email,
    Url,
    FileUrl,
    Number,
    Boolean,
    Text,
    Payment,
    PhoneNumber,
}

/// A single chosen option.
#[derive(Debug)]
pub struct Choice {
    pub label: String,
    pub other: Option<String>,
}

/// Several chosen options.
#[derive(Debug)]
pub struct Choices {
    pub labels: Vec<String>,
    pub other: Option<String>,
}

/// A payment made through the form.
#[derive(Debug)]
pub struct Payment {
    pub amount: String,
    pub last4: String,
    pub name: String,
}

/// Values computed from a submission.
#[derive(Debug)]
pub struct Calculated {
    pub score: i32,
}

} // verus!
