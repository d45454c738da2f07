//! The adapter for the dog provider.

use crate::error::{outcome_of, Failure, ServiceError, Violation, ViolationView};
use crate::facts::Transformable;
use crate::json::{
    copy_texts, json_document, lemma_array_tree, lemma_named_at, lemma_object_tree,
    member_trees, parse, text_views, Json, JsonTree,
};
use vstd::prelude::*;

verus! {

/// What the dog provider answers.
#[derive(Debug, PartialEq, Eq)]
pub struct DogFactEndpointResponse {
    pub facts: Vec<String>,
    pub success: bool,
}

/// The model of a dog provider's response.
pub struct DogResponse {
    pub facts: Seq<Seq<char>>,
    pub success: bool,
}

impl View for DogFactEndpointResponse {
    type V = DogResponse;

    open spec fn view(&self) -> DogResponse {
        DogResponse { facts: text_views(self.facts@), success: self.success }
    }
}

impl Clone for DogFactEndpointResponse {
    fn clone(&self) -> (r: DogFactEndpointResponse)
        ensures
            r@ == self@,
    {
        DogFactEndpointResponse { facts: copy_texts(&self.facts), success: self.success }
    }
}

impl DogResponse {
    /// The response that a document holds: an object whose member `facts` is
    /// an array of texts and whose member `success` is a boolean. Other
    /// members are passed over.
    pub open spec fn of_tree(tree: JsonTree) -> Option<DogResponse> {
        match (tree.member("facts"@), tree.member("success"@)) {
            (Some(JsonTree::Array(items)), Some(JsonTree::Bool(success))) => if JsonTree::all_texts(
                items,
            ) {
                Some(DogResponse { facts: JsonTree::texts(items), success })
            } else {
                None
            },
            _ => None,
        }
    }

    /// The document that holds the response.
    pub open spec fn tree(self) -> JsonTree {
        JsonTree::Object(
            seq![
                ("facts"@, JsonTree::array_of_texts(self.facts)),
                ("success"@, JsonTree::Bool(self.success)),
            ],
        )
    }

    /// The fact of the response. An unsuccessful response is invalid, and so
    /// is one with more than one fact; one without a fact is malformed.
    pub open spec fn fact(self) -> Result<Seq<char>, Failure> {
        if !self.success {
            Err(Failure::InvalidResponse(ViolationView::Unsuccessful))
        } else if self.facts.len() > 1 {
            Err(Failure::InvalidResponse(ViolationView::TooManyFacts(self.facts.len())))
        } else if self.facts.len() == 0 {
            Err(Failure::MalformedPayload)
        } else {
            Ok(self.facts[0])
        }
    }
}

impl DogFactEndpointResponse {
    /// Reads the response out of a document, if it holds one.
    pub fn from_json(json: &Json) -> (r: Option<DogFactEndpointResponse>)
        ensures
            match r {
                Some(response) => DogResponse::of_tree(json@) == Some(response@),
                None => DogResponse::of_tree(json@) is None,
            },
    {
        let items = match json.member("facts") {
            Some(Json::Array(items)) => items,
            _ => return None,
        };
        let success = match json.member("success") {
            Some(Json::Bool(success)) => *success,
            _ => return None,
        };
        proof {
            lemma_array_tree(*items);
        }
        match Json::text_items(items) {
            Some(facts) => Some(DogFactEndpointResponse { facts, success }),
            None => None,
        }
    }

    /// Writes the response as a document.
    pub fn to_json(&self) -> (r: Json)
        ensures
            r@ == self@.tree(),
    {
        let mut members: Vec<(String, Json)> = Vec::new();
        members.push(("facts".to_owned(), Json::array_of_texts(&self.facts)));
        members.push(("success".to_owned(), Json::Bool(self.success)));
        proof {
            lemma_object_tree(members);
            assert(member_trees(members@) =~= self@.tree()->Object_0);
        }
        Json::Object(members)
    }

    /// The fact of the response, or why it has none to give.
    pub fn fact(self) -> (r: Result<String, ServiceError>)
        ensures
            outcome_of(r) == self@.fact(),
    {
        if !self.success {
            return Err(ServiceError::InvalidResponse(Violation::Unsuccessful));
        }
        if self.facts.len() > 1 {
            return Err(ServiceError::InvalidResponse(Violation::TooManyFacts(self.facts.len())));
        }
        if self.facts.len() == 0 {
            return Err(
                ServiceError::MalformedPayload("dog fact endpoint returned no fact".to_owned()),
            );
        }
        Ok(self.facts[0].clone())
    }
}

/// The adapter for the dog provider.
#[derive(Debug)]
pub struct Adapter;

impl Adapter {
    /// What the adapter makes of a body, given the document that the body
    /// has, if it has one.
    pub open spec fn reading(document: Option<JsonTree>) -> Result<Seq<char>, Failure> {
        match document {
            Some(tree) => match DogResponse::of_tree(tree) {
                Some(response) => response.fact(),
                None => Err(Failure::MalformedPayload),
            },
            None => Err(Failure::MalformedPayload),
        }
    }

    /// Extracts the fact from what reading the body as JSON gave.
    pub fn interpret(&self, document: Result<Json, String>) -> (r: Result<String, ServiceError>)
        ensures
            outcome_of(r) == Self::reading(
                match document {
                    Ok(json) => Some(json@),
                    Err(_) => None,
                },
            ),
            document matches Err(reason) ==> r == Err::<String, ServiceError>(
                ServiceError::MalformedPayload(reason),
            ),
    {
        match document {
            Ok(json) => match DogFactEndpointResponse::from_json(&json) {
                Some(response) => response.fact(),
                None => Err(
                    ServiceError::MalformedPayload(
                        "dog fact endpoint returned a response of an unexpected shape".to_owned(),
                    ),
                ),
            },
            Err(reason) => Err(ServiceError::MalformedPayload(reason)),
        }
    }
}

impl Transformable for Adapter {
    open spec fn outcome(&self, response_content: Seq<char>) -> Result<Seq<char>, Failure> {
        Adapter::reading(json_document(response_content))
    }

    /// Transforms the body of the dog provider's answer into the fact.
    fn transform(&self, response_content: &str) -> (r: Result<String, ServiceError>) {
        self.interpret(parse(response_content))
    }
}

/// A successful response with exactly one fact yields that fact unchanged,
/// and so does the adapter on every body that holds such a response.
pub proof fn lemma_single_fact_is_returned(
    response_content: Seq<char>,
    tree: JsonTree,
    response: DogResponse,
)
    requires
        response.success,
        response.facts.len() == 1,
    ensures
        response.fact() == Ok::<Seq<char>, Failure>(response.facts[0]),
        json_document(response_content) == Some(tree) && DogResponse::of_tree(tree) == Some(
            response,
        ) ==> Adapter.outcome(response_content) == Ok::<Seq<char>, Failure>(response.facts[0]),
{
}

/// An unsuccessful response fails, whatever its facts are, and so does the
/// adapter on every body that holds such a response.
pub proof fn lemma_unsuccessful_fails(
    response_content: Seq<char>,
    tree: JsonTree,
    response: DogResponse,
)
    requires
        !response.success,
    ensures
        response.fact() == Err::<Seq<char>, Failure>(
            Failure::InvalidResponse(ViolationView::Unsuccessful),
        ),
        json_document(response_content) == Some(tree) && DogResponse::of_tree(tree) == Some(
            response,
        ) ==> Adapter.outcome(response_content) == Err::<Seq<char>, Failure>(
            Failure::InvalidResponse(ViolationView::Unsuccessful),
        ),
{
}

/// A response with more than one fact fails, successful or not, and so does
/// the adapter on every body that holds such a response.
pub proof fn lemma_several_facts_fail(
    response_content: Seq<char>,
    tree: JsonTree,
    response: DogResponse,
)
    requires
        response.facts.len() > 1,
    ensures
        response.fact() matches Err(Failure::InvalidResponse(_)),
        json_document(response_content) == Some(tree) && DogResponse::of_tree(tree) == Some(
            response,
        ) ==> Adapter.outcome(response_content) matches Err(Failure::InvalidResponse(_)),
{
}

/// The adapter fails on every body that is no JSON, and on every body whose
/// document does not hold a response.
pub proof fn lemma_malformed_body_fails(response_content: Seq<char>)
    requires
        json_document(response_content) matches Some(tree) ==> DogResponse::of_tree(tree) is None,
    ensures
        Adapter.outcome(response_content) == Err::<Seq<char>, Failure>(Failure::MalformedPayload),
{
}

/// Reading back the document that a response was written as gives the
/// response.
pub proof fn lemma_response_round_trip(response: DogResponse)
    ensures
        DogResponse::of_tree(response.tree()) == Some(response),
{
    reveal_strlit("facts");
    reveal_strlit("success");
    let members = response.tree()->Object_0;
    assert(members.len() == 2 && members[0].0 == "facts"@ && members[1].0 == "success"@);
    lemma_named_at(members, "facts"@, 0);
    lemma_named_at(members, "success"@, 1);
    let items = JsonTree::array_of_texts(response.facts)->Array_0;
    assert(JsonTree::all_texts(items));
    assert(JsonTree::texts(items) =~= response.facts);
}

} // verus!
