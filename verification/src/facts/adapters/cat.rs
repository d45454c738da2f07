//! The adapter for the cat provider.

use crate::error::{outcome_of, Failure, ServiceError, Violation, ViolationView};
use crate::facts::Transformable;
use crate::json::{
    json_document, lemma_named_at, lemma_object_tree, member_trees, parse, Json, JsonTree,
};
use vstd::prelude::*;

verus! {

/// What the cat provider answers. In the document, `animal_type` is the
/// member `type`.
#[derive(Debug, PartialEq, Eq)]
pub struct CatFactEndpointResponse {
    pub text: String,
    pub animal_type: String,
    pub deleted: bool,
}

/// The model of a cat provider's response.
pub struct CatResponse {
    pub text: Seq<char>,
    pub animal_type: Seq<char>,
    pub deleted: bool,
}

impl View for CatFactEndpointResponse {
    type V = CatResponse;

    open spec fn view(&self) -> CatResponse {
        CatResponse { text: self.text@, animal_type: self.animal_type@, deleted: self.deleted }
    }
}

impl Clone for CatFactEndpointResponse {
    fn clone(&self) -> (r: CatFactEndpointResponse)
        ensures
            r == *self,
    {
        CatFactEndpointResponse {
            text: self.text.clone(),
            animal_type: self.animal_type.clone(),
            deleted: self.deleted,
        }
    }
}

impl CatResponse {
    /// The response that a document holds: an object whose members `text` and
    /// `type` are texts and whose member `deleted` is a boolean. Other members
    /// are passed over.
    pub open spec fn of_tree(tree: JsonTree) -> Option<CatResponse> {
        match (tree.member("text"@), tree.member("type"@), tree.member("deleted"@)) {
            (
                Some(JsonTree::Text(text)),
                Some(JsonTree::Text(animal_type)),
                Some(JsonTree::Bool(deleted)),
            ) => Some(CatResponse { text, animal_type, deleted }),
            _ => None,
        }
    }

    /// The document that holds the response.
    pub open spec fn tree(self) -> JsonTree {
        JsonTree::Object(
            seq![
                ("text"@, JsonTree::Text(self.text)),
                ("type"@, JsonTree::Text(self.animal_type)),
                ("deleted"@, JsonTree::Bool(self.deleted)),
            ],
        )
    }

    /// The fact of the response. A deleted fact is invalid, and so is a fact
    /// about anything but a cat.
    pub open spec fn fact(self) -> Result<Seq<char>, Failure> {
        if self.deleted {
            Err(Failure::InvalidResponse(ViolationView::Deleted))
        } else if self.animal_type != "cat"@ {
            Err(Failure::InvalidResponse(ViolationView::NotACat(self.animal_type)))
        } else {
            Ok(self.text)
        }
    }
}

impl CatFactEndpointResponse {
    /// Reads the response out of a document, if it holds one.
    pub fn from_json(json: &Json) -> (r: Option<CatFactEndpointResponse>)
        ensures
            match r {
                Some(response) => CatResponse::of_tree(json@) == Some(response@),
                None => CatResponse::of_tree(json@) is None,
            },
    {
        let text = match json.member("text") {
            Some(Json::Text(text)) => text.clone(),
            _ => return None,
        };
        let animal_type = match json.member("type") {
            Some(Json::Text(animal_type)) => animal_type.clone(),
            _ => return None,
        };
        let deleted = match json.member("deleted") {
            Some(Json::Bool(deleted)) => *deleted,
            _ => return None,
        };
        Some(CatFactEndpointResponse { text, animal_type, deleted })
    }

    /// Writes the response as a document.
    pub fn to_json(&self) -> (r: Json)
        ensures
            r@ == self@.tree(),
    {
        let mut members: Vec<(String, Json)> = Vec::new();
        members.push(("text".to_owned(), Json::Text(self.text.clone())));
        members.push(("type".to_owned(), Json::Text(self.animal_type.clone())));
        members.push(("deleted".to_owned(), Json::Bool(self.deleted)));
        proof {
            lemma_object_tree(members);
            assert(member_trees(members@) =~= self@.tree()->Object_0);
        }
        Json::Object(members)
    }

    /// The fact of the response, or why it has none to give.
    pub fn fact(self) -> (r: Result<String, ServiceError>)
        ensures
            outcome_of(r) == self@.fact(),
    {
        if self.deleted {
            return Err(ServiceError::InvalidResponse(Violation::Deleted));
        }
        if self.animal_type != "cat".to_owned() {
            return Err(ServiceError::InvalidResponse(Violation::NotACat(self.animal_type)));
        }
        Ok(self.text)
    }
}

/// The adapter for the cat provider.
#[derive(Debug)]
pub struct Adapter;

impl Adapter {
    /// What the adapter makes of a body, given the document that the body
    /// has, if it has one.
    pub open spec fn reading(document: Option<JsonTree>) -> Result<Seq<char>, Failure> {
        match document {
            Some(tree) => match CatResponse::of_tree(tree) {
                Some(response) => response.fact(),
                None => Err(Failure::MalformedPayload),
            },
            None => Err(Failure::MalformedPayload),
        }
    }

    /// Extracts the fact from what reading the body as JSON gave.
    pub fn interpret(&self, document: Result<Json, String>) -> (r: Result<String, ServiceError>)
        ensures
            outcome_of(r) == Self::reading(
                match document {
                    Ok(json) => Some(json@),
                    Err(_) => None,
                },
            ),
            document matches Err(reason) ==> r == Err::<String, ServiceError>(
                ServiceError::MalformedPayload(reason),
            ),
    {
        match document {
            Ok(json) => match CatFactEndpointResponse::from_json(&json) {
                Some(response) => response.fact(),
                None => Err(
                    ServiceError::MalformedPayload(
                        "cat fact endpoint returned a response of an unexpected shape".to_owned(),
                    ),
                ),
            },
            Err(reason) => Err(ServiceError::MalformedPayload(reason)),
        }
    }
}

impl Transformable for Adapter {
    open spec fn outcome(&self, response_content: Seq<char>) -> Result<Seq<char>, Failure> {
        Adapter::reading(json_document(response_content))
    }

    /// Transforms the body of the cat provider's answer into the fact.
    fn transform(&self, response_content: &str) -> (r: Result<String, ServiceError>) {
        self.interpret(parse(response_content))
    }
}

/// A deleted fact fails, whatever its type and text are, and so does the
/// adapter on every body that holds such a response.
pub proof fn lemma_deleted_fails(response_content: Seq<char>, tree: JsonTree, response: CatResponse)
    requires
        response.deleted,
    ensures
        response.fact() == Err::<Seq<char>, Failure>(
            Failure::InvalidResponse(ViolationView::Deleted),
        ),
        json_document(response_content) == Some(tree) && CatResponse::of_tree(tree) == Some(
            response,
        ) ==> Adapter.outcome(response_content) == Err::<Seq<char>, Failure>(
            Failure::InvalidResponse(ViolationView::Deleted),
        ),
{
}

/// A fact of a type other than `cat` fails, deleted or not, and so does the
/// adapter on every body that holds such a response.
pub proof fn lemma_other_type_fails(
    response_content: Seq<char>,
    tree: JsonTree,
    response: CatResponse,
)
    requires
        response.animal_type != "cat"@,
    ensures
        response.fact() matches Err(Failure::InvalidResponse(_)),
        json_document(response_content) == Some(tree) && CatResponse::of_tree(tree) == Some(
            response,
        ) ==> Adapter.outcome(response_content) matches Err(Failure::InvalidResponse(_)),
{
}

/// A fact about a cat that is not deleted is returned unchanged, and so it is
/// by the adapter on every body that holds such a response.
pub proof fn lemma_cat_fact_is_returned(
    response_content: Seq<char>,
    tree: JsonTree,
    response: CatResponse,
)
    requires
        !response.deleted,
        response.animal_type == "cat"@,
    ensures
        response.fact() == Ok::<Seq<char>, Failure>(response.text),
        json_document(response_content) == Some(tree) && CatResponse::of_tree(tree) == Some(
            response,
        ) ==> Adapter.outcome(response_content) == Ok::<Seq<char>, Failure>(response.text),
{
}

/// The adapter fails on every body that is no JSON, and on every body whose
/// document does not hold a response.
pub proof fn lemma_malformed_body_fails(response_content: Seq<char>)
    requires
        json_document(response_content) matches Some(tree) ==> CatResponse::of_tree(tree) is None,
    ensures
        Adapter.outcome(response_content) == Err::<Seq<char>, Failure>(Failure::MalformedPayload),
{
}

/// Reading back the document that a response was written as gives the
/// response.
pub proof fn lemma_response_round_trip(response: CatResponse)
    ensures
        CatResponse::of_tree(response.tree()) == Some(response),
{
    reveal_strlit("text");
    reveal_strlit("type");
    reveal_strlit("deleted");
    assert("text"@[1] != "type"@[1]);
    let members = response.tree()->Object_0;
    assert(members.len() == 3 && members[0].0 == "text"@ && members[1].0 == "type"@
        && members[2].0 == "deleted"@);
    lemma_named_at(members, "text"@, 0);
    lemma_named_at(members, "type"@, 1);
    lemma_named_at(members, "deleted"@, 2);
}

} // verus!
