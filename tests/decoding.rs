use typeform::json::Json;
use typeform::model::{AnswerType, Responses};
use typeform::error::Error;
use typeform::tagged::AnswerValue;

fn json_of(v: serde_json::Value) -> Json {
    match v {
        serde_json::Value::Null => Json::Null,
        serde_json::Value::Bool(b) => Json::Bool(b),
        serde_json::Value::Number(n) => match n.as_i64() {
            Some(i) => Json::Int(i),
            None => Json::OtherNumber,
        },
        serde_json::Value::String(s) => Json::Str(s),
        serde_json::Value::Array(a) => Json::Array(a.into_iter().map(json_of).collect()),
        serde_json::Value::Object(m) => {
            Json::Object(m.into_iter().map(|(k, x)| (k, json_of(x))).collect())
        }
    }
}

fn parse(text: &str) -> Json {
    json_of(serde_json::from_str(text).expect("test document is valid JSON"))
}

fn decode(text: &str) -> Result<Responses, Error> {
    Responses::from_json(&parse(text))
}

fn record(token: &str, extra: &str) -> String {
    format!(
        r#"{{"token":"{}","landed_at":"2020-01-01T10:00:00Z","submitted_at":"2020-01-01T10:05:00Z",
        "metadata":{{"user_agent":"Mozilla/5.0","platform":"other","referer":"https://example.com/to/form","network_id":"abc"}},
        "calculated":{{"score":3}}{}}}"#,
        token, extra
    )
}

#[test]
fn full_page_decodes_in_order() {
    let doc = format!(
        r#"{{"total_items":3,"page_count":1,"items":[{},{},{}]}}"#,
        record("t1", r#","response_id":"r1""#),
        record("t2", ""),
        record("t3", "")
    );
    let page = decode(&doc).expect("page decodes");
    assert_eq!(page.total_items, Some(3));
    assert_eq!(page.page_count, Some(1));
    assert_eq!(page.items.len(), 3);
    let tokens: Vec<&str> = page.items.iter().map(|r| r.token.as_str()).collect();
    assert_eq!(tokens, vec!["t1", "t2", "t3"]);
    assert_eq!(page.items[0].response_id.as_deref(), Some("r1"));
    assert_eq!(page.items[1].response_id, None);
    assert_eq!(page.items[0].landed_at, "2020-01-01T10:00:00Z");
    assert_eq!(page.items[0].submitted_at, "2020-01-01T10:05:00Z");
    assert_eq!(page.items[0].metadata.user_agent, "Mozilla/5.0");
    assert_eq!(page.items[0].metadata.platform.as_deref(), Some("other"));
    assert_eq!(page.items[0].metadata.referer, "https://example.com/to/form");
    assert_eq!(page.items[0].metadata.network_id, "abc");
    assert_eq!(page.items[0].calculated.score, 3);
}

#[test]
fn empty_items_decode() {
    let page = decode(r#"{"total_items":0,"page_count":1,"items":[]}"#).expect("page decodes");
    assert!(page.items.is_empty());
}

#[test]
fn optional_members_absent() {
    let doc = format!(r#"{{"items":[{}]}}"#, record("t1", ""));
    let page = decode(&doc).expect("page decodes");
    assert_eq!(page.total_items, None);
    assert_eq!(page.page_count, None);
    assert!(page.items[0].definition.is_none());
    assert!(page.items[0].answers.is_none());
    assert!(page.items[0].response_id.is_none());
}

#[test]
fn optional_members_null() {
    let doc = format!(
        r#"{{"total_items":null,"page_count":null,"items":[{}]}}"#,
        record("t1", r#","definition":null,"answers":null,"response_id":null"#)
    );
    let page = decode(&doc).expect("page decodes");
    assert_eq!(page.total_items, None);
    assert!(page.items[0].definition.is_none());
    assert!(page.items[0].answers.is_none());
}

#[test]
fn number_answer_fills_only_its_slot() {
    let answers = r#","answers":[{"field":{"id":"f1","type":"number","ref":"ref1"},"type":"number","number":42}]"#;
    let doc = format!(r#"{{"items":[{}]}}"#, record("t1", answers));
    let page = decode(&doc).expect("page decodes");
    let answers = page.items[0].answers.as_ref().expect("answers present");
    assert_eq!(answers.len(), 1);
    let a = &answers[0];
    assert_eq!(a.answer_type, AnswerType::Number);
    assert_eq!(a.number, Some(42));
    assert_eq!(a.field.id, "f1");
    assert_eq!(a.field.field_type, "number");
    assert_eq!(a.field.reference, "ref1");
    assert!(a.field.title.is_none());
    assert!(a.choice.is_none() && a.choices.is_none() && a.date.is_none());
    assert!(a.email.is_none() && a.file_url.is_none() && a.boolean.is_none());
    assert!(a.text.is_none() && a.url.is_none() && a.payment.is_none());
    assert!(a.phone_number.is_none());
}

#[test]
fn every_answer_shape_decodes() {
    let answers = r#","answers":[
        {"field":{"id":"a","type":"dropdown","ref":"r","title":"Pick"},"type":"choice","choice":{"label":"Red"}},
        {"field":{"id":"b","type":"multiple_choice","ref":"r"},"type":"choices","choices":{"labels":["A","B"],"other":"C"}},
        {"field":{"id":"c","type":"date","ref":"r"},"type":"date","date":"2020-02-03"},
        {"field":{"id":"d","type":"email","ref":"r"},"type":"email","email":"x@y.z"},
        {"field":{"id":"e","type":"website","ref":"r"},"type":"url","url":"https://a.b"},
        {"field":{"id":"f","type":"file_upload","ref":"r"},"type":"file_url","file_url":"https://f"},
        {"field":{"id":"g","type":"yes_no","ref":"r"},"type":"boolean","boolean":true},
        {"field":{"id":"h","type":"short_text","ref":"r"},"type":"text","text":"hi"},
        {"field":{"id":"i","type":"payment","ref":"r"},"type":"payment","payment":{"amount":"1.00","last4":"4242","name":"Jo"}},
        {"field":{"id":"j","type":"phone_number","ref":"r"},"type":"phone_number","phone_number":"+100"}
    ]"#;
    let doc = format!(r#"{{"items":[{}]}}"#, record("t1", answers));
    let page = decode(&doc).expect("page decodes");
    let a = page.items[0].answers.as_ref().expect("answers present");
    assert_eq!(a.len(), 10);
    assert_eq!(a[0].answer_type, AnswerType::Choice);
    assert_eq!(a[0].field.title.as_deref(), Some("Pick"));
    let choice = a[0].choice.as_ref().expect("choice");
    assert_eq!(choice.label, "Red");
    assert!(choice.other.is_none());
    assert_eq!(a[1].answer_type, AnswerType::Choices);
    let choices = a[1].choices.as_ref().expect("choices");
    assert_eq!(choices.labels, vec!["A".to_string(), "B".to_string()]);
    assert_eq!(choices.other.as_deref(), Some("C"));
    assert_eq!(a[2].answer_type, AnswerType::Date);
    assert_eq!(a[2].date.as_deref(), Some("2020-02-03"));
    assert_eq!(a[3].answer_type, AnswerType::Email);
    assert_eq!(a[3].email.as_deref(), Some("x@y.z"));
    assert_eq!(a[4].answer_type, AnswerType::Url);
    assert_eq!(a[4].url.as_deref(), Some("https://a.b"));
    assert_eq!(a[5].answer_type, AnswerType::FileUrl);
    assert_eq!(a[5].file_url.as_deref(), Some("https://f"));
    assert_eq!(a[6].answer_type, AnswerType::Boolean);
    assert_eq!(a[6].boolean, Some(true));
    assert_eq!(a[7].answer_type, AnswerType::Text);
    assert_eq!(a[7].text.as_deref(), Some("hi"));
    assert_eq!(a[8].answer_type, AnswerType::Payment);
    let payment = a[8].payment.as_ref().expect("payment");
    assert_eq!(payment.amount, "1.00");
    assert_eq!(payment.last4, "4242");
    assert_eq!(payment.name, "Jo");
    assert_eq!(a[9].answer_type, AnswerType::PhoneNumber);
    assert_eq!(a[9].phone_number.as_deref(), Some("+100"));
}

#[test]
fn definition_fields_decode() {
    let def = r#","definition":{"fields":[{"id":"f1","type":"short_text","title":"Name?","description":"Your name"}]}"#;
    let doc = format!(r#"{{"items":[{}]}}"#, record("t1", def));
    let page = decode(&doc).expect("page decodes");
    let d = page.items[0].definition.as_ref().expect("definition");
    assert_eq!(d.fields.len(), 1);
    assert_eq!(d.fields[0].id, "f1");
    assert_eq!(d.fields[0].field_type, "short_text");
    assert_eq!(d.fields[0].title, "Name?");
    assert_eq!(d.fields[0].description, "Your name");
}

#[test]
fn unknown_members_ignored() {
    let extra = r#","hidden":{"x":1},"variables":[],"metadata2":"x""#;
    let doc = format!(r#"{{"total_items":1,"unknown_top":[1,2.5,null],"items":[{}]}}"#, record("t1", extra));
    let page = decode(&doc).expect("page decodes");
    assert_eq!(page.items.len(), 1);
    assert_eq!(page.items[0].token, "t1");
    assert_eq!(page.total_items, Some(1));
}

#[test]
fn unknown_nested_member_ignored() {
    let answers = r#","answers":[{"field":{"id":"f","type":"t","ref":"r","extra":5},"type":"text","text":"x","more":true}]"#;
    let doc = format!(r#"{{"items":[{}]}}"#, record("t1", answers));
    let page = decode(&doc).expect("page decodes");
    let a = page.items[0].answers.as_ref().expect("answers present");
    assert_eq!(a[0].text.as_deref(), Some("x"));
}

#[test]
fn missing_token_is_decode_error() {
    let doc = r#"{"items":[{"landed_at":"a","submitted_at":"b",
        "metadata":{"user_agent":"u","referer":"r","network_id":"n"},"calculated":{"score":0}}]}"#;
    let err = decode(doc).err().expect("decoding fails");
    assert!(matches!(err, Error::Decode(_)));
    assert!(!err.message().is_empty());
}

#[test]
fn missing_items_is_decode_error() {
    assert!(matches!(decode(r#"{"total_items":1}"#), Err(Error::Decode(_))));
}

#[test]
fn non_object_document_is_decode_error() {
    assert!(matches!(decode(r#"[1,2]"#), Err(Error::Decode(_))));
    assert!(matches!(decode(r#""items""#), Err(Error::Decode(_))));
}

#[test]
fn wrong_member_type_is_decode_error() {
    let doc = format!(r#"{{"items":[{}]}}"#, record("t1", "").replace(r#""score":3"#, r#""score":"3""#));
    assert!(matches!(decode(&doc), Err(Error::Decode(_))));
    assert!(matches!(decode(r#"{"items":{}}"#), Err(Error::Decode(_))));
}

#[test]
fn null_required_member_is_decode_error() {
    let doc = format!(r#"{{"items":[{}]}}"#, record("t1", "").replace(r#""referer":"https://example.com/to/form""#, r#""referer":null"#));
    assert!(matches!(decode(&doc), Err(Error::Decode(_))));
}

#[test]
fn counts_out_of_range_are_decode_errors() {
    assert!(decode(r#"{"total_items":65535,"page_count":255,"items":[]}"#).is_ok());
    assert!(matches!(decode(r#"{"total_items":65536,"items":[]}"#), Err(Error::Decode(_))));
    assert!(matches!(decode(r#"{"page_count":256,"items":[]}"#), Err(Error::Decode(_))));
    assert!(matches!(decode(r#"{"total_items":-1,"items":[]}"#), Err(Error::Decode(_))));
    assert!(matches!(decode(r#"{"total_items":1.5,"items":[]}"#), Err(Error::Decode(_))));
}

#[test]
fn score_range_is_i32() {
    let low = format!(r#"{{"items":[{}]}}"#, record("t1", "").replace(r#""score":3"#, r#""score":-2147483648"#));
    assert_eq!(decode(&low).expect("decodes").items[0].calculated.score, i32::MIN);
    let high = format!(r#"{{"items":[{}]}}"#, record("t1", "").replace(r#""score":3"#, r#""score":2147483648"#));
    assert!(matches!(decode(&high), Err(Error::Decode(_))));
}

#[test]
fn unknown_answer_type_is_decode_error() {
    let answers = r#","answers":[{"field":{"id":"f","type":"t","ref":"r"},"type":"rating","number":3}]"#;
    let doc = format!(r#"{{"items":[{}]}}"#, record("t1", answers));
    assert!(matches!(decode(&doc), Err(Error::Decode(_))));
}

#[test]
fn first_of_repeated_members_counts() {
    let j = Json::Object(vec![
        ("items".to_string(), Json::Array(vec![])),
        ("page_count".to_string(), Json::Int(2)),
        ("page_count".to_string(), Json::Str("x".to_string())),
    ]);
    let page = Responses::from_json(&j).expect("page decodes");
    assert_eq!(page.page_count, Some(2));
    assert_eq!(j.get("page_count").map(|v| matches!(v, Json::Int(2))), Some(true));
    assert!(j.get("missing").is_none());
}

fn one_answer(answer: &str) -> typeform::model::Answer {
    let doc = format!(r#"{{"items":[{}]}}"#, record("t1", &format!(r#","answers":[{}]"#, answer)));
    let mut page = decode(&doc).expect("page decodes");
    let mut answers = page.items.remove(0).answers.expect("answers present");
    answers.remove(0)
}

#[test]
fn consistent_answer_becomes_tagged() {
    let a = one_answer(r#"{"field":{"id":"f","type":"number","ref":"r"},"type":"number","number":42}"#);
    let tagged = a.into_tagged().expect("payload is consistent");
    assert_eq!(tagged.field.id, "f");
    assert!(matches!(tagged.value, AnswerValue::Number(42)));
    let a = one_answer(r#"{"field":{"id":"g","type":"t","ref":"r"},"type":"choices","choices":{"labels":["x"]}}"#);
    match a.into_tagged().expect("payload is consistent").value {
        AnswerValue::Choices(c) => assert_eq!(c.labels, vec!["x".to_string()]),
        other => panic!("unexpected payload {:?}", other),
    }
}

#[test]
fn inconsistent_answer_is_not_tagged() {
    let extra = one_answer(r#"{"field":{"id":"f","type":"t","ref":"r"},"type":"number","number":1,"text":"x"}"#);
    assert!(extra.into_tagged().is_none());
    let missing = one_answer(r#"{"field":{"id":"f","type":"t","ref":"r"},"type":"email","text":"x"}"#);
    assert!(missing.into_tagged().is_none());
    let empty = one_answer(r#"{"field":{"id":"f","type":"t","ref":"r"},"type":"boolean","boolean":null}"#);
    assert!(empty.into_tagged().is_none());
}
