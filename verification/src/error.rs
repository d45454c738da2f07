//! The failures that the service reports, and the message of each.

use vstd::prelude::*;
use vstd::string::*;

verus! {

/// The provider rule that a well-formed response broke.
#[derive(Debug, PartialEq, Eq)]
pub enum Violation {
    /// The dog provider reported `success` as false.
    Unsuccessful,
    /// The dog provider sent this many facts where one was expected.
    TooManyFacts(usize),
    /// The cat provider marked the fact as deleted.
    Deleted,
    /// The cat provider sent a fact of this other type.
    NotACat(String),
}

/// The model of a `Violation`.
pub enum ViolationView {
    Unsuccessful,
    TooManyFacts(nat),
    Deleted,
    NotACat(Seq<char>),
}

impl View for Violation {
    type V = ViolationView;

    open spec fn view(&self) -> ViolationView {
        match self {
            Violation::Unsuccessful => ViolationView::Unsuccessful,
            Violation::TooManyFacts(count) => ViolationView::TooManyFacts(*count as nat),
            Violation::Deleted => ViolationView::Deleted,
            Violation::NotACat(animal_type) => ViolationView::NotACat(animal_type@),
        }
    }
}

impl Clone for Violation {
    fn clone(&self) -> (r: Violation)
        ensures
            r == *self,
    {
        match self {
            Violation::Unsuccessful => Violation::Unsuccessful,
            Violation::TooManyFacts(count) => Violation::TooManyFacts(*count),
            Violation::Deleted => Violation::Deleted,
            Violation::NotACat(animal_type) => Violation::NotACat(animal_type.clone()),
        }
    }
}

/// A failure of the service. Where a variant carries free text (the reason a
/// reader or a transport gave), the text is its message.
#[derive(Debug, PartialEq, Eq)]
pub enum ServiceError {
    /// A provider's body is no JSON document of the expected shape.
    MalformedPayload(String),
    /// A provider's response has the expected shape and breaks a provider rule.
    InvalidResponse(Violation),
    /// The selected animal has no endpoint in the configuration.
    UnknownAnimal(String),
    /// The selected animal has no adapter.
    UnsupportedAnimal(String),
    /// The provider could not be reached.
    UpstreamUnreachable(String),
    /// The provider answered, and the client reported the answer as an error.
    UpstreamError(String),
    /// The configuration could not be read or has the wrong shape.
    ConfigLoad(String),
}

/// The model of a `ServiceError`: the kind of failure and what determines it,
/// without the free text.
pub enum Failure {
    MalformedPayload,
    InvalidResponse(ViolationView),
    UnknownAnimal(Seq<char>),
    UnsupportedAnimal(Seq<char>),
    UpstreamUnreachable,
    UpstreamError,
    ConfigLoad,
}

impl View for ServiceError {
    type V = Failure;

    open spec fn view(&self) -> Failure {
        match self {
            ServiceError::MalformedPayload(_) => Failure::MalformedPayload,
            ServiceError::InvalidResponse(violation) => Failure::InvalidResponse(violation@),
            ServiceError::UnknownAnimal(animal) => Failure::UnknownAnimal(animal@),
            ServiceError::UnsupportedAnimal(animal) => Failure::UnsupportedAnimal(animal@),
            ServiceError::UpstreamUnreachable(_) => Failure::UpstreamUnreachable,
            ServiceError::UpstreamError(_) => Failure::UpstreamError,
            ServiceError::ConfigLoad(_) => Failure::ConfigLoad,
        }
    }
}

impl Clone for ServiceError {
    fn clone(&self) -> (r: ServiceError)
        ensures
            r == *self,
    {
        match self {
            ServiceError::MalformedPayload(reason) => ServiceError::MalformedPayload(
                reason.clone(),
            ),
            ServiceError::InvalidResponse(violation) => ServiceError::InvalidResponse(
                violation.clone(),
            ),
            ServiceError::UnknownAnimal(animal) => ServiceError::UnknownAnimal(animal.clone()),
            ServiceError::UnsupportedAnimal(animal) => ServiceError::UnsupportedAnimal(
                animal.clone(),
            ),
            ServiceError::UpstreamUnreachable(reason) => ServiceError::UpstreamUnreachable(
                reason.clone(),
            ),
            ServiceError::UpstreamError(reason) => ServiceError::UpstreamError(reason.clone()),
            ServiceError::ConfigLoad(reason) => ServiceError::ConfigLoad(reason.clone()),
        }
    }
}

/// The model of a result that carries a text or a `ServiceError`.
pub open spec fn outcome_of(result: Result<String, ServiceError>) -> Result<Seq<char>, Failure> {
    match result {
        Ok(text) => Ok(text@),
        Err(error) => Err(error@),
    }
}

/// The text of one decimal digit.
pub open spec fn digit_text(digit: nat) -> Seq<char> {
    if digit == 0 {
        "0"@
    } else if digit == 1 {
        "1"@
    } else if digit == 2 {
        "2"@
    } else if digit == 3 {
        "3"@
    } else if digit == 4 {
        "4"@
    } else if digit == 5 {
        "5"@
    } else if digit == 6 {
        "6"@
    } else if digit == 7 {
        "7"@
    } else if digit == 8 {
        "8"@
    } else {
        "9"@
    }
}

/// The decimal text of a number, without leading zeros.
pub open spec fn decimal_text(n: nat) -> Seq<char>
    decreases n,
{
    if n < 10 {
        digit_text(n)
    } else {
        decimal_text(n / 10) + digit_text(n % 10)
    }
}

fn digit(d: usize) -> (r: &'static str)
    requires
        d < 10,
    ensures
        r@ == digit_text(d as nat),
{
    if d == 0 {
        "0"
    } else if d == 1 {
        "1"
    } else if d == 2 {
        "2"
    } else if d == 3 {
        "3"
    } else if d == 4 {
        "4"
    } else if d == 5 {
        "5"
    } else if d == 6 {
        "6"
    } else if d == 7 {
        "7"
    } else if d == 8 {
        "8"
    } else {
        "9"
    }
}

/// Writes a number in decimal.
pub fn decimal(n: usize) -> (r: String)
    ensures
        r@ == decimal_text(n as nat),
    decreases n,
{
    if n < 10 {
        digit(n).to_owned()
    } else {
        let mut text = decimal(n / 10);
        text.append(digit(n % 10));
        text
    }
}

impl Violation {
    /// The message of the violation.
    pub open spec fn message_text(&self) -> Seq<char> {
        match self {
            Violation::Unsuccessful => "dog fact endpoint returned `success`=false on the fact"@,
            Violation::TooManyFacts(count) => "dog fact endpoint returned more than one fact result: "@
                + decimal_text(*count as nat),
            Violation::Deleted => "cat fact endpoint returned `deleted`=true on the fact"@,
            Violation::NotACat(animal_type) => "cat fact endpoint returned fact not for a cat: "@
                + animal_type@,
        }
    }

    /// Writes the message of the violation.
    pub fn message(&self) -> (r: String)
        ensures
            r@ == self.message_text(),
    {
        match self {
            Violation::Unsuccessful => {
                "dog fact endpoint returned `success`=false on the fact".to_owned()
            },
            Violation::TooManyFacts(count) => {
                let mut text = "dog fact endpoint returned more than one fact result: ".to_owned();
                let number = decimal(*count);
                text.append(number.as_str());
                text
            },
            Violation::Deleted => "cat fact endpoint returned `deleted`=true on the fact".to_owned(),
            Violation::NotACat(animal_type) => {
                let mut text = "cat fact endpoint returned fact not for a cat: ".to_owned();
                text.append(animal_type.as_str());
                text
            },
        }
    }
}

impl ServiceError {
    /// The message of the failure, as a caller of the service reads it.
    pub open spec fn message_text(&self) -> Seq<char> {
        match self {
            ServiceError::MalformedPayload(reason) => reason@,
            ServiceError::InvalidResponse(violation) => violation.message_text(),
            ServiceError::UnknownAnimal(animal) =>
                "the animal type does not exist in the configuration file: "@ + animal@,
            ServiceError::UnsupportedAnimal(animal) => "invalid animal type: "@ + animal@,
            ServiceError::UpstreamUnreachable(reason) => reason@,
            ServiceError::UpstreamError(reason) => reason@,
            ServiceError::ConfigLoad(reason) => reason@,
        }
    }

    /// Writes the message of the failure.
    pub fn message(&self) -> (r: String)
        ensures
            r@ == self.message_text(),
    {
        match self {
            ServiceError::MalformedPayload(reason) => reason.clone(),
            ServiceError::InvalidResponse(violation) => violation.message(),
            ServiceError::UnknownAnimal(animal) => {
                let mut text =
                    "the animal type does not exist in the configuration file: ".to_owned();
                text.append(animal.as_str());
                text
            },
            ServiceError::UnsupportedAnimal(animal) => {
                let mut text = "invalid animal type: ".to_owned();
                text.append(animal.as_str());
                text
            },
            ServiceError::UpstreamUnreachable(reason) => reason.clone(),
            ServiceError::UpstreamError(reason) => reason.clone(),
            ServiceError::ConfigLoad(reason) => reason.clone(),
        }
    }
}

} // verus!
