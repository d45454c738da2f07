//! Resolving a fact: which animal, which endpoint, and what the provider's
//! answer says.
//!
//! The resolver does not talk to a provider itself. `begin` says which
//! endpoint to ask, the caller asks it, and `conclude` turns what came back
//! into the animal and its fact.

use self::adapters::dog::DogResponse;
use self::config::{FactsConfig, FactsModel};
use crate::error::{outcome_of, Failure, ServiceError};
use crate::json::{json_document, JsonTree};
use rand::seq::SliceRandom;
use vstd::prelude::*;

pub mod adapters;
pub mod config;

verus! {

/// What every adapter does: extract the fact from a provider's response body.
pub trait Transformable {
    /// What `transform` makes of a response body: the fact, or the failure.
    spec fn outcome(&self, response_content: Seq<char>) -> Result<Seq<char>, Failure>;

    /// Transforms a provider's response body into the fact.
    fn transform(&self, response_content: &str) -> (r: Result<String, ServiceError>)
        ensures
            outcome_of(r) == self.outcome(response_content@),
    ;
}

/// The request to send to a provider: a GET to `endpoint`, for a fact about
/// `animal`.
#[derive(Debug, PartialEq, Eq)]
pub struct FactRequest {
    pub animal: String,
    pub endpoint: String,
}

/// What sending a request to a provider gave.
#[derive(Debug, PartialEq, Eq)]
pub enum Fetched {
    /// The provider answered with this body.
    Body(String),
    /// The provider could not be reached, for this reason.
    Unreachable(String),
    /// The provider answered, and the client reported this error.
    Failed(String),
}

/// The model of a `Fetched`: the body, where there is one.
pub enum FetchedView {
    Body(Seq<char>),
    Unreachable,
    Failed,
}

impl View for Fetched {
    type V = FetchedView;

    open spec fn view(&self) -> FetchedView {
        match self {
            Fetched::Body(body) => FetchedView::Body(body@),
            Fetched::Unreachable(_) => FetchedView::Unreachable,
            Fetched::Failed(_) => FetchedView::Failed,
        }
    }
}

impl Fetched {
    /// What a request without a body gave. The client tells whether the
    /// provider answered: an answer that it reports as an error is `Failed`,
    /// anything else means that the provider was not reached.
    pub fn failure(answered: bool, reason: String) -> (r: Fetched)
        ensures
            r == if answered {
                Fetched::Failed(reason)
            } else {
                Fetched::Unreachable(reason)
            },
    {
        if answered {
            Fetched::Failed(reason)
        } else {
            Fetched::Unreachable(reason)
        }
    }
}

/// Resolves facts according to a configuration that it keeps a copy of.
#[derive(Debug)]
pub struct FactResolver {
    config: FactsConfig,
}

impl View for FactResolver {
    type V = FactsModel;

    closed spec fn view(&self) -> FactsModel {
        self.config@
    }
}

impl Clone for FactResolver {
    fn clone(&self) -> (r: FactResolver)
        ensures
            r@ == self@,
    {
        FactResolver { config: self.config.clone() }
    }
}

/// `rand::seq::SliceRandom::choose` on the slice of `options`, with the
/// generator of `rand::thread_rng`. Trusted: the call returns nothing for an
/// empty slice and one of the slice's elements otherwise. Which element is
/// left open. The generator is seeded by the system when a thread first uses
/// it, and `rand` panics where the system has no randomness to give.
#[verifier::external_body]
fn choose_one(options: &Vec<String>) -> (r: Option<String>)
    ensures
        options@.len() == 0 ==> r is None,
        options@.len() > 0 ==> r is Some,
        r matches Some(chosen) ==> exists|i: int|
            0 <= i < options@.len() && options@[i]@ == chosen@,
{
    options.choose(&mut rand::thread_rng()).cloned()
}

impl FactResolver {
    /// Whether `animal` may be selected under the default `default`: under
    /// `any` the dog and the cat may, under any other default only the
    /// default itself.
    pub open spec fn may_select(default: Seq<char>, animal: Seq<char>) -> bool {
        if default == "any"@ {
            animal == "dog"@ || animal == "cat"@
        } else {
            animal == default
        }
    }

    /// What the adapter of `animal_type` makes of the body `input`. An animal
    /// other than the dog and the cat has no adapter.
    pub open spec fn adapted(animal_type: Seq<char>, input: Seq<char>) -> Result<
        Seq<char>,
        Failure,
    > {
        if animal_type == "dog"@ {
            adapters::dog::Adapter.outcome(input)
        } else if animal_type == "cat"@ {
            adapters::cat::Adapter.outcome(input)
        } else {
            Err(Failure::UnsupportedAnimal(animal_type))
        }
    }

    /// The result of a request for `animal` that gave `fetched`: the animal
    /// and its fact, or the failure.
    pub open spec fn concluded(animal: Seq<char>, fetched: FetchedView) -> Result<
        (Seq<char>, Seq<char>),
        Failure,
    > {
        match fetched {
            FetchedView::Body(body) => match Self::adapted(animal, body) {
                Ok(fact) => Ok((animal, fact)),
                Err(failure) => Err(failure),
            },
            FetchedView::Unreachable => Err(Failure::UpstreamUnreachable),
            FetchedView::Failed => Err(Failure::UpstreamError),
        }
    }

    /// The model of a result of `conclude`.
    pub open spec fn resolved(result: Result<(String, String), ServiceError>) -> Result<
        (Seq<char>, Seq<char>),
        Failure,
    > {
        match result {
            Ok(found) => Ok((found.0@, found.1@)),
            Err(error) => Err(error@),
        }
    }

    /// Makes a resolver that works on a copy of `config`.
    pub fn new(config: &FactsConfig) -> (r: FactResolver)
        ensures
            r@ == config@,
    {
        FactResolver { config: config.clone() }
    }

    /// Calls the `transform` of the given adapter.
    pub fn transfrom(&self, adapter: &impl Transformable, input: &str) -> (r: Result<
        String,
        ServiceError,
    >)
        ensures
            outcome_of(r) == adapter.outcome(input@),
    {
        adapter.transform(input)
    }

    /// Chooses the adapter by the animal's name and lets it transform `input`.
    pub fn use_adapter(&self, animal_type: &str, input: &str) -> (r: Result<String, ServiceError>)
        ensures
            outcome_of(r) == Self::adapted(animal_type@, input@),
    {
        let animal = animal_type.to_owned();
        if animal == "dog".to_owned() {
            self.transfrom(&adapters::dog::Adapter, input)
        } else if animal == "cat".to_owned() {
            self.transfrom(&adapters::cat::Adapter, input)
        } else {
            Err(ServiceError::UnsupportedAnimal(animal))
        }
    }

    /// Selects the animal of the next fact: the default, or under the
    /// default `any` the dog or the cat, drawn at random.
    pub fn select_animal(&self) -> (animal: String)
        ensures
            Self::may_select(self@.default, animal@),
    {
        if self.config.default == "any".to_owned() {
            let mut options: Vec<String> = Vec::new();
            options.push("dog".to_owned());
            options.push("cat".to_owned());
            // The list is not empty, so there is a choice.
            match choose_one(&options) {
                Some(animal) => animal,
                None => "dog".to_owned(),
            }
        } else {
            self.config.default.clone()
        }
    }

    /// The request for a fact about `animal`: it goes to the endpoint that the
    /// configuration gives the animal. Fails with `UnknownAnimal` exactly
    /// where the configuration gives it none.
    pub fn request_for(&self, animal: String) -> (r: Result<FactRequest, ServiceError>)
        ensures
            match r {
                Ok(request) => self@.facts.contains_key(animal@) && request.animal@ == animal@
                    && request.endpoint@ == self@.facts[animal@],
                Err(error) => !self@.facts.contains_key(animal@) && error@
                    == Failure::UnknownAnimal(animal@),
            },
    {
        match self.config.endpoint(animal.as_str()) {
            Some(endpoint) => {
                let endpoint = endpoint.clone();
                Ok(FactRequest { animal, endpoint })
            },
            None => Err(ServiceError::UnknownAnimal(animal)),
        }
    }

    /// Selects an animal and gives the request to send for it. Fails with
    /// `UnknownAnimal` exactly where the configuration has no endpoint for
    /// the animal selected.
    pub fn begin(&self) -> (r: Result<FactRequest, ServiceError>)
        ensures
            match r {
                Ok(request) => Self::may_select(self@.default, request.animal@)
                    && self@.facts.contains_key(request.animal@) && request.endpoint@
                    == self@.facts[request.animal@],
                Err(error) => error@ matches Failure::UnknownAnimal(animal) && Self::may_select(
                    self@.default,
                    animal,
                ) && !self@.facts.contains_key(animal),
            },
            self@.default != "any"@ ==> (r is Ok <==> self@.facts.contains_key(self@.default)),
            self@.default == "any"@ && self@.facts.contains_key("dog"@)
                && self@.facts.contains_key("cat"@) ==> r is Ok,
    {
        let animal = self.select_animal();
        self.request_for(animal)
    }

    /// Turns what the request for `animal` gave into the animal and its fact.
    /// A body goes to the adapter of the animal; a failed request fails with
    /// the reason that the client gave.
    pub fn conclude(&self, animal: String, fetched: Fetched) -> (r: Result<
        (String, String),
        ServiceError,
    >)
        ensures
            Self::resolved(r) == Self::concluded(animal@, fetched@),
            fetched matches Fetched::Unreachable(reason) ==> r == Err::<
                (String, String),
                ServiceError,
            >(ServiceError::UpstreamUnreachable(reason)),
            fetched matches Fetched::Failed(reason) ==> r == Err::<(String, String), ServiceError>(
                ServiceError::UpstreamError(reason),
            ),
    {
        match fetched {
            Fetched::Body(body) => match self.use_adapter(animal.as_str(), body.as_str()) {
                Ok(fact) => Ok((animal, fact)),
                Err(error) => Err(error),
            },
            Fetched::Unreachable(reason) => Err(ServiceError::UpstreamUnreachable(reason)),
            Fetched::Failed(reason) => Err(ServiceError::UpstreamError(reason)),
        }
    }
}

/// Under the default `dog` the dog is selected and nothing else, and a body
/// that holds a successful response with one fact resolves to the dog and
/// that fact.
pub proof fn lemma_default_dog_resolves(
    animal: Seq<char>,
    body: Seq<char>,
    tree: JsonTree,
    response: DogResponse,
)
    requires
        json_document(body) == Some(tree),
        DogResponse::of_tree(tree) == Some(response),
        response.success,
        response.facts.len() == 1,
    ensures
        FactResolver::may_select("dog"@, animal) <==> animal == "dog"@,
        FactResolver::concluded("dog"@, FetchedView::Body(body)) == Ok::<
            (Seq<char>, Seq<char>),
            Failure,
        >(("dog"@, response.facts[0])),
{
    reveal_strlit("dog");
    reveal_strlit("any");
    assert("dog"@[0] != "any"@[0]);
}

/// Under the default `any` nothing but the dog and the cat is selected,
/// whatever the configuration lists.
pub proof fn lemma_any_selects_dog_or_cat(animal: Seq<char>)
    ensures
        FactResolver::may_select("any"@, animal) <==> animal == "dog"@ || animal == "cat"@,
{
}

} // verus!
