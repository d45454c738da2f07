use animal_facts::error::{ServiceError, Violation};
use animal_facts::facts::adapters::dog::{Adapter, DogFactEndpointResponse};
use animal_facts::facts::Transformable;
use animal_facts::json::{parse, Json};

fn to_value(json: &Json) -> serde_json::Value {
    match json {
        Json::Null => serde_json::Value::Null,
        Json::Bool(b) => serde_json::Value::Bool(*b),
        Json::Number(n) => serde_json::from_str(n).unwrap(),
        Json::Text(s) => serde_json::Value::String(s.clone()),
        Json::Array(items) => serde_json::Value::Array(items.iter().map(to_value).collect()),
        Json::Object(members) => serde_json::Value::Object(
            members.iter().map(|(name, value)| (name.clone(), to_value(value))).collect(),
        ),
    }
}

fn render(json: &Json) -> String {
    serde_json::to_string(&to_value(json)).unwrap()
}

/// A valid response in the provider's format is transformed into its fact.
#[test]
fn dog_transforming_valid() {
    let dog_fact = "some dog fact";
    let plain_text_input = render(
        &DogFactEndpointResponse { facts: vec![dog_fact.to_string()], success: true }.to_json(),
    );
    let transformed = Adapter.transform(&plain_text_input).unwrap();

    assert_eq!(transformed, dog_fact, "transformed fact is not equal");
}

/// Input that is no JSON gives an error.
#[test]
fn dog_transforming_invalid() {
    let plain_text_input = "just a plain text, not json";
    let transformed = Adapter.transform(plain_text_input);

    assert!(transformed.is_err());
}

#[test]
fn dog_plain_text_is_malformed() {
    let transformed = Adapter.transform("just a plain text, not json");
    match transformed {
        Err(ServiceError::MalformedPayload(reason)) => assert!(reason.contains("line 1")),
        other => panic!("unexpected result: {:?}", other),
    }
}

#[test]
fn dog_literal_body_is_transformed() {
    let body = "{\"facts\": [\"Dogs have three eyelids.\"], \"success\": true}";
    assert_eq!(Adapter.transform(body), Ok("Dogs have three eyelids.".to_string()));
}

#[test]
fn dog_unsuccessful_fails() {
    let with_fact = "{\"facts\": [\"a fact\"], \"success\": false}";
    assert_eq!(
        Adapter.transform(with_fact),
        Err(ServiceError::InvalidResponse(Violation::Unsuccessful))
    );
    let without_facts = "{\"facts\": [], \"success\": false}";
    assert_eq!(
        Adapter.transform(without_facts),
        Err(ServiceError::InvalidResponse(Violation::Unsuccessful))
    );
    let several = "{\"facts\": [\"a\", \"b\"], \"success\": false}";
    assert_eq!(
        Adapter.transform(several),
        Err(ServiceError::InvalidResponse(Violation::Unsuccessful))
    );
}

#[test]
fn dog_several_facts_fail() {
    let body = "{\"facts\": [\"one\", \"two\", \"three\"], \"success\": true}";
    assert_eq!(
        Adapter.transform(body),
        Err(ServiceError::InvalidResponse(Violation::TooManyFacts(3)))
    );
}

#[test]
fn dog_no_fact_is_malformed() {
    let body = "{\"facts\": [], \"success\": true}";
    assert!(matches!(Adapter.transform(body), Err(ServiceError::MalformedPayload(_))));
}

#[test]
fn dog_unexpected_shape_is_malformed() {
    for body in [
        "{\"success\": true}",
        "{\"facts\": [\"a\"]}",
        "{\"facts\": \"a\", \"success\": true}",
        "{\"facts\": [1], \"success\": true}",
        "{\"facts\": [\"a\"], \"success\": \"yes\"}",
        "[[\"a\"], true]",
        "null",
        "",
    ] {
        assert!(
            matches!(Adapter.transform(body), Err(ServiceError::MalformedPayload(_))),
            "body: {}",
            body
        );
    }
}

#[test]
fn dog_other_members_are_passed_over() {
    let body = "{\"extra\": {\"a\": [1, 2.5, null]}, \"facts\": [\"a fact\"], \"success\": true}";
    assert_eq!(Adapter.transform(body), Ok("a fact".to_string()));
}

#[test]
fn dog_response_round_trip() {
    let response =
        DogFactEndpointResponse { facts: vec!["x".to_string(), "y".to_string()], success: false };
    assert_eq!(DogFactEndpointResponse::from_json(&response.to_json()), Some(response.clone()));
    let read_back = DogFactEndpointResponse::from_json(&parse(&render(&response.to_json())).unwrap());
    assert_eq!(read_back, Some(response));
}

#[test]
fn dog_interpret_takes_the_reader_result() {
    let document = Json::Object(vec![
        ("facts".to_string(), Json::Array(vec![Json::Text("only".to_string())])),
        ("success".to_string(), Json::Bool(true)),
    ]);
    assert_eq!(Adapter.interpret(Ok(document)), Ok("only".to_string()));
    assert_eq!(
        Adapter.interpret(Err("no document".to_string())),
        Err(ServiceError::MalformedPayload("no document".to_string()))
    );
}

#[test]
fn dog_fact_of_a_response() {
    let one = DogFactEndpointResponse { facts: vec!["f".to_string()], success: true };
    assert_eq!(one.fact(), Ok("f".to_string()));
}
