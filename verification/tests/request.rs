use api::{
    build_request, frame, request_body, request_headers, variable_name, IdKind, QueryDocuments,
    UPSTREAM_URL,
};
use serde_json::Value;

fn documents() -> QueryDocuments {
    QueryDocuments {
        by_name: "query($name: String!) { playerByUsername(username: $name) { uuid } }"
            .to_string(),
        by_uuid: "query($uuid: UUID!) { player(uuid: $uuid) { uuid } }".to_string(),
    }
}

#[test]
fn variable_is_named_after_the_kind() {
    assert_eq!(variable_name(IdKind::Uuid), "uuid");
    assert_eq!(variable_name(IdKind::Username), "name");
}

#[test]
fn document_is_chosen_by_the_kind() {
    let documents = documents();
    assert_eq!(documents.document(IdKind::Uuid), documents.by_uuid);
    assert_eq!(documents.document(IdKind::Username), documents.by_name);
}

#[test]
fn frame_puts_the_three_texts_in_place() {
    assert_eq!(
        frame("\"q\"", "\"name\"", "\"x\""),
        "{\"query\":\"q\",\"variables\":{\"name\":\"x\"}}"
    );
    assert_eq!(frame("", "", ""), "{\"query\":,\"variables\":{:}}");
}

#[test]
fn body_is_compact_json() {
    assert_eq!(
        request_body("query { x }", "name", "notch"),
        "{\"query\":\"query { x }\",\"variables\":{\"name\":\"notch\"}}"
    );
}

#[test]
fn body_escapes_what_json_asks_for() {
    assert_eq!(
        request_body("a \"b\"\n\\c\t\u{1}", "na\"me", "no\\tch\u{e9}"),
        "{\"query\":\"a \\\"b\\\"\\n\\\\c\\t\\u0001\",\"variables\":{\"na\\\"me\":\"no\\\\tch\u{e9}\"}}"
    );
}

#[test]
fn body_is_what_serde_json_writes_for_the_object() {
    let documents = documents();
    for (id, kind) in [
        ("notch", IdKind::Username),
        ("123e4567-e89b-12d3-a456-426614174000", IdKind::Uuid),
        ("we\"ird\\ \u{7f}\u{0}\r\n key \u{1f600}", IdKind::Username),
        ("", IdKind::Username),
    ] {
        let mut variables = serde_json::Map::new();
        variables.insert(variable_name(kind).to_string(), Value::String(id.to_string()));
        let mut object = serde_json::Map::new();
        object.insert("query".to_string(), Value::String(documents.document(kind).to_string()));
        object.insert("variables".to_string(), Value::Object(variables));
        assert_eq!(build_request(&documents, id, kind), Value::Object(object).to_string());
    }
}

#[test]
fn body_reads_back_as_query_and_variable() {
    let documents = documents();
    let body = build_request(&documents, "notch", IdKind::Username);
    let value: Value = serde_json::from_str(&body).unwrap();
    assert_eq!(value["query"], Value::String(documents.by_name.clone()));
    assert_eq!(value["variables"]["name"], Value::String("notch".to_string()));
    assert_eq!(value["variables"].as_object().unwrap().len(), 1);
    assert_eq!(value.as_object().unwrap().len(), 2);

    let body = build_request(&documents, "123e4567-e89b-12d3-a456-426614174000", IdKind::Uuid);
    let value: Value = serde_json::from_str(&body).unwrap();
    assert_eq!(value["query"], Value::String(documents.by_uuid.clone()));
    assert_eq!(
        value["variables"]["uuid"],
        Value::String("123e4567-e89b-12d3-a456-426614174000".to_string())
    );
}

#[test]
fn headers_carry_type_key_and_agent() {
    let headers = request_headers("k-123");
    assert_eq!(headers.len(), 3);
    assert_eq!(headers[0].name, "Content-Type");
    assert_eq!(headers[0].value, "application/json");
    assert_eq!(headers[1].name, "X-API-Key");
    assert_eq!(headers[1].value, "k-123");
    assert_eq!(headers[2].name, "User-Agent");
    assert_eq!(headers[2].value, "iStats/1.0 <radsteve@radsteve.net>");
}

#[test]
fn requests_go_to_the_graphql_endpoint() {
    assert_eq!(UPSTREAM_URL, "https://api.mccisland.net/graphql");
}
