use animal_facts::error::{decimal, ServiceError, Violation};

#[test]
fn decimal_writes_numbers() {
    assert_eq!(decimal(0), "0");
    assert_eq!(decimal(7), "7");
    assert_eq!(decimal(10), "10");
    assert_eq!(decimal(1234567890), "1234567890");
    assert_eq!(decimal(usize::MAX), usize::MAX.to_string());
}

#[test]
fn violation_messages() {
    assert_eq!(
        Violation::Unsuccessful.message(),
        "dog fact endpoint returned `success`=false on the fact"
    );
    assert_eq!(
        Violation::TooManyFacts(12).message(),
        "dog fact endpoint returned more than one fact result: 12"
    );
    assert_eq!(
        Violation::Deleted.message(),
        "cat fact endpoint returned `deleted`=true on the fact"
    );
    assert_eq!(
        Violation::NotACat("horse".to_string()).message(),
        "cat fact endpoint returned fact not for a cat: horse"
    );
}

#[test]
fn failure_messages() {
    assert_eq!(ServiceError::MalformedPayload("eof".to_string()).message(), "eof");
    assert_eq!(
        ServiceError::InvalidResponse(Violation::TooManyFacts(2)).message(),
        "dog fact endpoint returned more than one fact result: 2"
    );
    assert_eq!(
        ServiceError::UnknownAnimal("cow".to_string()).message(),
        "the animal type does not exist in the configuration file: cow"
    );
    assert_eq!(
        ServiceError::UnsupportedAnimal("cow".to_string()).message(),
        "invalid animal type: cow"
    );
    assert_eq!(ServiceError::UpstreamUnreachable("refused".to_string()).message(), "refused");
    assert_eq!(ServiceError::UpstreamError("502".to_string()).message(), "502");
    assert_eq!(ServiceError::ConfigLoad("missing".to_string()).message(), "missing");
}
