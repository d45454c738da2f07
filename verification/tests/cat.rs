use animal_facts::error::{ServiceError, Violation};
use animal_facts::facts::adapters::cat::{Adapter, CatFactEndpointResponse};
use animal_facts::facts::Transformable;
use animal_facts::json::{parse, Json};

fn to_value(json: &Json) -> serde_json::Value {
    match json {
        Json::Null => serde_json::Value::Null,
        Json::Bool(b) => serde_json::Value::Bool(*b),
        Json::Number(n) => serde_json::from_str(n).unwrap(),
        Json::Text(s) => serde_json::Value::String(s.clone()),
        Json::Array(items) => serde_json::Value::Array(items.iter().map(to_value).collect()),
        Json::Object(members) => serde_json::Value::Object(
            members.iter().map(|(name, value)| (name.clone(), to_value(value))).collect(),
        ),
    }
}

fn render(json: &Json) -> String {
    serde_json::to_string(&to_value(json)).unwrap()
}

/// A valid response in the provider's format is transformed into its fact.
#[test]
fn cat_transforming_valid() {
    let fact = "some cat fact";
    let plain_text_input = render(
        &CatFactEndpointResponse {
            text: fact.to_string(),
            animal_type: "cat".to_string(),
            deleted: false,
        }
        .to_json(),
    );
    let transformed = Adapter.transform(&plain_text_input).unwrap();

    assert_eq!(transformed, fact, "transformed fact are not equal");
}

/// Input that is no JSON gives an error.
#[test]
fn cat_transforming_invalid() {
    let plain_text_input = "just a plain text, not json";
    let transformed = Adapter.transform(plain_text_input);

    assert!(transformed.is_err());
}

#[test]
fn cat_plain_text_is_malformed() {
    assert!(matches!(
        Adapter.transform("just a plain text, not json"),
        Err(ServiceError::MalformedPayload(_))
    ));
}

#[test]
fn cat_literal_body_is_transformed() {
    let body = "{\"text\": \"Cats sleep a lot.\", \"type\": \"cat\", \"deleted\": false}";
    assert_eq!(Adapter.transform(body), Ok("Cats sleep a lot.".to_string()));
}

#[test]
fn cat_deleted_fails() {
    let cat = "{\"text\": \"t\", \"type\": \"cat\", \"deleted\": true}";
    assert_eq!(Adapter.transform(cat), Err(ServiceError::InvalidResponse(Violation::Deleted)));
    let dog = "{\"text\": \"\", \"type\": \"dog\", \"deleted\": true}";
    assert_eq!(Adapter.transform(dog), Err(ServiceError::InvalidResponse(Violation::Deleted)));
}

#[test]
fn cat_other_type_fails() {
    let body = "{\"text\": \"t\", \"type\": \"horse\", \"deleted\": false}";
    assert_eq!(
        Adapter.transform(body),
        Err(ServiceError::InvalidResponse(Violation::NotACat("horse".to_string())))
    );
    let upper = "{\"text\": \"t\", \"type\": \"Cat\", \"deleted\": false}";
    assert_eq!(
        Adapter.transform(upper),
        Err(ServiceError::InvalidResponse(Violation::NotACat("Cat".to_string())))
    );
}

#[test]
fn cat_unexpected_shape_is_malformed() {
    for body in [
        "{\"type\": \"cat\", \"deleted\": false}",
        "{\"text\": \"t\", \"deleted\": false}",
        "{\"text\": \"t\", \"type\": \"cat\"}",
        "{\"text\": 1, \"type\": \"cat\", \"deleted\": false}",
        "{\"text\": \"t\", \"animal_type\": \"cat\", \"deleted\": false}",
        "{\"text\": \"t\", \"type\": \"cat\", \"deleted\": 0}",
        "\"cat\"",
    ] {
        assert!(
            matches!(Adapter.transform(body), Err(ServiceError::MalformedPayload(_))),
            "body: {}",
            body
        );
    }
}

#[test]
fn cat_response_round_trip() {
    let response = CatFactEndpointResponse {
        text: "t".to_string(),
        animal_type: "cat".to_string(),
        deleted: true,
    };
    assert_eq!(CatFactEndpointResponse::from_json(&response.to_json()), Some(response.clone()));
    let read_back = CatFactEndpointResponse::from_json(&parse(&render(&response.to_json())).unwrap());
    assert_eq!(read_back, Some(response));
}

#[test]
fn cat_interpret_takes_the_reader_result() {
    let document = Json::Object(vec![
        ("text".to_string(), Json::Text("purr".to_string())),
        ("type".to_string(), Json::Text("cat".to_string())),
        ("deleted".to_string(), Json::Bool(false)),
    ]);
    assert_eq!(Adapter.interpret(Ok(document)), Ok("purr".to_string()));
    assert_eq!(
        Adapter.interpret(Err("no document".to_string())),
        Err(ServiceError::MalformedPayload("no document".to_string()))
    );
}
