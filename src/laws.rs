//! Properties of decoding that hold of every document.

use vstd::prelude::*;
use crate::json::{Json, lemma_entry_insert_other, member};
use crate::model::{AnswerType, Response, Responses};
use crate::tagged::payload_consistent;
use crate::schema::{
    answer_decodes, answer_field_ok, answer_ok, items_decodes, items_ok, opt_string_ok, opt_u16_ok,
    opt_u8_ok, req_string_ok, required_ok, response_decodes, response_ok, responses_decodes,
    responses_ok,
};

verus! {

/// A page that decodes holds one response per element of its `items`
/// array, in the array's order: the `i`-th response is what the `i`-th
/// element decodes into, and carries that element's token.
pub proof fn lemma_items_follow_array(j: Json, page: Responses)
    requires
        responses_decodes(j, page),
    ensures
        member(j, "items"@) matches Some(Json::Array(a)) && page.items@.len() == a@.len(),
        forall|i: int|
            #![trigger page.items@[i]]
            0 <= i < page.items@.len() ==> {
                let e = member(j, "items"@)->Some_0->Array_0@[i];
                &&& response_decodes(e, page.items@[i])
                &&& member(e, "token"@) matches Some(Json::Str(t)) && t@ == page.items@[i].token@
            },
{
    let a = member(j, "items"@)->Some_0->Array_0@;
    assert forall|i: int| #![trigger page.items@[i]] 0 <= i < page.items@.len() implies response_decodes(
        a[i],
        page.items@[i],
    ) by {
        assert(items_decodes(member(j, "items"@)->Some_0, page.items@));
    }
}

/// A page without `total_items` and `page_count` decodes exactly when its
/// `items` do, and both counts come out absent.
pub proof fn lemma_page_counts_optional(j: Json)
    requires
        member(j, "total_items"@) is None,
        member(j, "page_count"@) is None,
    ensures
        responses_ok(j) == required_ok(member(j, "items"@), |x: Json| items_ok(x)),
        forall|page: Responses| #[trigger]
            responses_decodes(j, page) ==> page.total_items is None && page.page_count is None,
{
}

/// A response record without `definition` and `answers` decodes exactly
/// when its other members do, and both come out absent.
pub proof fn lemma_record_parts_optional(j: Json)
    requires
        member(j, "definition"@) is None,
        member(j, "answers"@) is None,
    ensures
        response_ok(j) == {
            &&& req_string_ok(j, "token"@)
            &&& opt_string_ok(j, "response_id"@)
            &&& req_string_ok(j, "landed_at"@)
            &&& req_string_ok(j, "submitted_at"@)
            &&& member(j, "metadata"@) matches Some(m) && crate::schema::metadata_ok(m)
            &&& member(j, "calculated"@) matches Some(c) && crate::schema::calculated_ok(c)
        },
        forall|r: Response| #[trigger]
            response_decodes(j, r) ==> r.definition is None && r.answers is None,
{
}

/// An answer whose discriminant is `number` and whose only payload member
/// is an integer `number` decodes, with that number in the `number` slot
/// and every other payload slot absent: its payload is consistent.
pub proof fn lemma_number_answer(j: Json, n: i64)
    requires
        member(j, "field"@) matches Some(f) && answer_field_ok(f),
        member(j, "type"@) matches Some(Json::Str(s)) && s@ == "number"@,
        member(j, "number"@) == Some(Json::Int(n)),
        i32::MIN <= n <= i32::MAX,
        member(j, "choice"@) is None,
        member(j, "choices"@) is None,
        member(j, "date"@) is None,
        member(j, "email"@) is None,
        member(j, "file_url"@) is None,
        member(j, "boolean"@) is None,
        member(j, "text"@) is None,
        member(j, "url"@) is None,
        member(j, "payment"@) is None,
        member(j, "phone_number"@) is None,
    ensures
        answer_ok(j),
        forall|a: crate::model::Answer| #[trigger]
            answer_decodes(j, a) ==> {
                &&& a.answer_type == AnswerType::Number
                &&& a.number == Some(n as i32)
                &&& a.choice is None
                &&& a.choices is None
                &&& a.date is None
                &&& a.email is None
                &&& a.file_url is None
                &&& a.boolean is None
                &&& a.text is None
                &&& a.url is None
                &&& a.payment is None
                &&& a.phone_number is None
                &&& payload_consistent(a)
            },
{
    reveal_strlit("number");
    reveal_strlit("choice");
    reveal_strlit("choices");
    reveal_strlit("date");
    reveal_strlit("email");
    reveal_strlit("url");
    reveal_strlit("file_url");
    assert(crate::schema::answer_type_of("number"@) == Some(AnswerType::Number));
}

/// A page whose `i`-th response record has no `key` member, where `key` is
/// one that a record requires, does not decode.
pub proof fn lemma_missing_required_member(j: Json, i: int, key: Seq<char>)
    requires
        member(j, "items"@) matches Some(Json::Array(a)) && 0 <= i < a@.len() && member(
            a@[i],
            key,
        ) is None,
        key == "token"@ || key == "landed_at"@ || key == "submitted_at"@ || key == "metadata"@
            || key == "calculated"@,
    ensures
        !responses_ok(j),
{
    let a = member(j, "items"@)->Some_0->Array_0@;
    assert(!response_ok(a[i]));
}

/// The names of the members of a page.
pub open spec fn page_member(k: Seq<char>) -> bool {
    k == "total_items"@ || k == "page_count"@ || k == "items"@
}

/// The names of the members of a response record.
pub open spec fn record_member(k: Seq<char>) -> bool {
    ||| k == "token"@
    ||| k == "response_id"@
    ||| k == "landed_at"@
    ||| k == "submitted_at"@
    ||| k == "metadata"@
    ||| k == "definition"@
    ||| k == "answers"@
    ||| k == "calculated"@
}

/// A member that a page does not name, inserted anywhere into it, changes
/// neither whether it decodes nor what it decodes into.
pub proof fn lemma_page_ignores_unknown_member(
    e1: Seq<(String, Json)>,
    e2: Seq<(String, Json)>,
    j1: Json,
    j2: Json,
    p: int,
    x: (String, Json),
)
    requires
        j1 matches Json::Object(o1) && o1@ == e1,
        j2 matches Json::Object(o2) && o2@ == e2,
        0 <= p <= e1.len(),
        e2 == e1.insert(p, x),
        !page_member(x.0@),
    ensures
        responses_ok(j2) == responses_ok(j1),
        forall|page: Responses| #[trigger]
            responses_decodes(j2, page) == responses_decodes(j1, page),
{
    lemma_entry_insert_other(e1, p, x, "total_items"@);
    lemma_entry_insert_other(e1, p, x, "page_count"@);
    lemma_entry_insert_other(e1, p, x, "items"@);
}

/// A member that a response record does not name, inserted anywhere into
/// it, changes neither whether it decodes nor what it decodes into.
pub proof fn lemma_record_ignores_unknown_member(
    e1: Seq<(String, Json)>,
    e2: Seq<(String, Json)>,
    j1: Json,
    j2: Json,
    p: int,
    x: (String, Json),
)
    requires
        j1 matches Json::Object(o1) && o1@ == e1,
        j2 matches Json::Object(o2) && o2@ == e2,
        0 <= p <= e1.len(),
        e2 == e1.insert(p, x),
        !record_member(x.0@),
    ensures
        response_ok(j2) == response_ok(j1),
        forall|r: Response| #[trigger] response_decodes(j2, r) == response_decodes(j1, r),
{
    lemma_entry_insert_other(e1, p, x, "token"@);
    lemma_entry_insert_other(e1, p, x, "response_id"@);
    lemma_entry_insert_other(e1, p, x, "landed_at"@);
    lemma_entry_insert_other(e1, p, x, "submitted_at"@);
    lemma_entry_insert_other(e1, p, x, "metadata"@);
    lemma_entry_insert_other(e1, p, x, "definition"@);
    lemma_entry_insert_other(e1, p, x, "answers"@);
    lemma_entry_insert_other(e1, p, x, "calculated"@);
}

/// The names of the members of an answer.
pub open spec fn answer_member(k: Seq<char>) -> bool {
    ||| k == "field"@
    ||| k == "type"@
    ||| k == "choice"@
    ||| k == "choices"@
    ||| k == "date"@
    ||| k == "email"@
    ||| k == "file_url"@
    ||| k == "number"@
    ||| k == "boolean"@
    ||| k == "text"@
    ||| k == "url"@
    ||| k == "payment"@
    ||| k == "phone_number"@
}

/// A member that an answer does not name, inserted anywhere into it,
/// changes neither whether it decodes nor what it decodes into.
pub proof fn lemma_answer_ignores_unknown_member(
    e1: Seq<(String, Json)>,
    e2: Seq<(String, Json)>,
    j1: Json,
    j2: Json,
    p: int,
    x: (String, Json),
)
    requires
        j1 matches Json::Object(o1) && o1@ == e1,
        j2 matches Json::Object(o2) && o2@ == e2,
        0 <= p <= e1.len(),
        e2 == e1.insert(p, x),
        !answer_member(x.0@),
    ensures
        answer_ok(j2) == answer_ok(j1),
        forall|a: crate::model::Answer| #[trigger] answer_decodes(j2, a) == answer_decodes(j1, a),
{
    lemma_entry_insert_other(e1, p, x, "field"@);
    lemma_entry_insert_other(e1, p, x, "type"@);
    lemma_entry_insert_other(e1, p, x, "choice"@);
    lemma_entry_insert_other(e1, p, x, "choices"@);
    lemma_entry_insert_other(e1, p, x, "date"@);
    lemma_entry_insert_other(e1, p, x, "email"@);
    lemma_entry_insert_other(e1, p, x, "file_url"@);
    lemma_entry_insert_other(e1, p, x, "number"@);
    lemma_entry_insert_other(e1, p, x, "boolean"@);
    lemma_entry_insert_other(e1, p, x, "text"@);
    lemma_entry_insert_other(e1, p, x, "url"@);
    lemma_entry_insert_other(e1, p, x, "payment"@);
    lemma_entry_insert_other(e1, p, x, "phone_number"@);
}

} // verus!
