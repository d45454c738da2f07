//! What the service answers to a request for a fact.

use crate::error::ServiceError;
use crate::facts::{FactResolver, FetchedView};
use crate::json::{lemma_named_at, lemma_object_tree, member_trees, Json, JsonTree};
use vstd::prelude::*;

verus! {

/// The body of a successful answer.
#[derive(Debug, PartialEq, Eq)]
pub struct FactResponse {
    pub fact: String,
    pub animal: String,
}

/// The model of a `FactResponse`.
pub struct FactResponseView {
    pub fact: Seq<char>,
    pub animal: Seq<char>,
}

impl View for FactResponse {
    type V = FactResponseView;

    open spec fn view(&self) -> FactResponseView {
        FactResponseView { fact: self.fact@, animal: self.animal@ }
    }
}

impl Clone for FactResponse {
    fn clone(&self) -> (r: FactResponse)
        ensures
            r == *self,
    {
        FactResponse { fact: self.fact.clone(), animal: self.animal.clone() }
    }
}

impl FactResponseView {
    /// The body that a document holds: an object whose members `fact` and
    /// `animal` are texts.
    pub open spec fn of_tree(tree: JsonTree) -> Option<FactResponseView> {
        match (tree.member("fact"@), tree.member("animal"@)) {
            (Some(JsonTree::Text(fact)), Some(JsonTree::Text(animal))) => Some(
                FactResponseView { fact, animal },
            ),
            _ => None,
        }
    }

    /// The document that holds the body.
    pub open spec fn tree(self) -> JsonTree {
        JsonTree::Object(
            seq![("fact"@, JsonTree::Text(self.fact)), ("animal"@, JsonTree::Text(self.animal))],
        )
    }
}

impl FactResponse {
    /// Reads the body out of a document, if it holds one.
    pub fn from_json(json: &Json) -> (r: Option<FactResponse>)
        ensures
            match r {
                Some(response) => FactResponseView::of_tree(json@) == Some(response@),
                None => FactResponseView::of_tree(json@) is None,
            },
    {
        let fact = match json.member("fact") {
            Some(Json::Text(fact)) => fact.clone(),
            _ => return None,
        };
        let animal = match json.member("animal") {
            Some(Json::Text(animal)) => animal.clone(),
            _ => return None,
        };
        Some(FactResponse { fact, animal })
    }

    /// Writes the body as a document.
    pub fn to_json(&self) -> (r: Json)
        ensures
            r@ == self@.tree(),
    {
        let mut members: Vec<(String, Json)> = Vec::new();
        members.push(("fact".to_owned(), Json::Text(self.fact.clone())));
        members.push(("animal".to_owned(), Json::Text(self.animal.clone())));
        proof {
            lemma_object_tree(members);
            assert(member_trees(members@) =~= self@.tree()->Object_0);
        }
        Json::Object(members)
    }
}

/// The path of the one route of the service; it is asked with GET.
pub const FACT_ROUTE: &'static str = "/fact";

/// The status of a successful answer.
pub const STATUS_OK: u16 = 200;

/// The status of a failed answer.
pub const STATUS_INTERNAL_SERVER_ERROR: u16 = 500;

/// The answer to a request for a fact.
#[derive(Debug, PartialEq, Eq)]
pub enum Reply {
    /// Status 200, with the fact as a JSON body.
    Fact(FactResponse),
    /// Status 500, with the failure's message as a plain text body.
    Error(String),
}

/// The model of a `Reply`.
pub enum ReplyView {
    Fact(FactResponseView),
    Error(Seq<char>),
}

impl View for Reply {
    type V = ReplyView;

    open spec fn view(&self) -> ReplyView {
        match self {
            Reply::Fact(response) => ReplyView::Fact(response@),
            Reply::Error(message) => ReplyView::Error(message@),
        }
    }
}

impl ReplyView {
    /// The status of the answer.
    pub open spec fn status(self) -> int {
        match self {
            ReplyView::Fact(_) => 200,
            ReplyView::Error(_) => 500,
        }
    }
}

impl Reply {
    /// The status of the answer.
    pub fn status(&self) -> (r: u16)
        ensures
            r == self@.status(),
    {
        match self {
            Reply::Fact(_) => STATUS_OK,
            Reply::Error(_) => STATUS_INTERNAL_SERVER_ERROR,
        }
    }
}

/// The answer to give for the result of resolving a fact: the fact and its
/// animal, or the message of the failure, whatever kind of failure it is.
pub open spec fn reply_of(outcome: Result<(String, String), ServiceError>) -> ReplyView {
    match outcome {
        Ok(found) => ReplyView::Fact(FactResponseView { fact: found.1@, animal: found.0@ }),
        Err(error) => ReplyView::Error(error.message_text()),
    }
}

/// Answers a request for a fact with the result of resolving it, given as
/// the animal and its fact.
pub fn respond(outcome: Result<(String, String), ServiceError>) -> (reply: Reply)
    ensures
        reply@ == reply_of(outcome),
{
    match outcome {
        Ok((animal, fact)) => Reply::Fact(FactResponse { fact, animal }),
        Err(error) => Reply::Error(error.message()),
    }
}

/// Every failure is answered with status 500, and every fact with status 200.
pub proof fn lemma_status_of_reply(outcome: Result<(String, String), ServiceError>)
    ensures
        reply_of(outcome).status() == if outcome is Ok {
            200int
        } else {
            500int
        },
{
}

/// A request that did not reach its provider fails, and the answer to the
/// failure has status 500.
pub proof fn lemma_unreachable_is_answered_with_500(
    animal: Seq<char>,
    outcome: Result<(String, String), ServiceError>,
)
    requires
        FactResolver::resolved(outcome) == FactResolver::concluded(
            animal,
            FetchedView::Unreachable,
        ),
    ensures
        outcome is Err,
        reply_of(outcome).status() == 500,
{
}

/// Reading back the document that a body was written as gives the body.
pub proof fn lemma_fact_response_round_trip(response: FactResponseView)
    ensures
        FactResponseView::of_tree(response.tree()) == Some(response),
{
    reveal_strlit("fact");
    reveal_strlit("animal");
    let members = response.tree()->Object_0;
    assert(members.len() == 2 && members[0].0 == "fact"@ && members[1].0 == "animal"@);
    lemma_named_at(members, "fact"@, 0);
    lemma_named_at(members, "animal"@, 1);
}

} // verus!
