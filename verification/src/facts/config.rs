//! The configuration of the resolver: the default animal and the endpoint of
//! each animal.

use crate::json::{
    entry_names, find_entry, last_position, lemma_last_position, lemma_named_at,
    lemma_object_tree, member_trees, named, names_of, pair_views, Json, JsonTree,
};
use vstd::prelude::*;
use vstd::std_specs::cmp::PartialEqSpecImpl;

verus! {

/// The default animal, and the endpoint of each animal. `facts` lists pairs
/// of an animal's name and its endpoint; where a name is listed more than
/// once, its last pair counts. Two configurations are equal where their
/// defaults are and they map the same animals to the same endpoints, in
/// whatever order they list them.
#[derive(Debug)]
pub struct FactsConfig {
    pub default: String,
    pub facts: Vec<(String, String)>,
}

/// The model of a `FactsConfig`: `facts` maps each animal to its endpoint.
pub struct FactsModel {
    pub default: Seq<char>,
    pub facts: Map<Seq<char>, Seq<char>>,
}

/// The mapping that a list of (animal, endpoint) pairs stands for.
pub open spec fn endpoints(pairs: Seq<(Seq<char>, Seq<char>)>) -> Map<Seq<char>, Seq<char>> {
    Map::new(
        |animal: Seq<char>| named(pairs, animal) is Some,
        |animal: Seq<char>| named(pairs, animal)->0,
    )
}

impl View for FactsConfig {
    type V = FactsModel;

    open spec fn view(&self) -> FactsModel {
        FactsModel { default: self.default@, facts: endpoints(pair_views(self.facts@)) }
    }
}

impl FactsModel {
    /// The configuration that a document holds: an object whose member
    /// `default` is a text and whose member `facts` is an object of texts.
    pub open spec fn of_tree(tree: JsonTree) -> Option<FactsModel> {
        match (tree.member("default"@), tree.member("facts"@)) {
            (Some(JsonTree::Text(default)), Some(JsonTree::Object(members))) => {
                if JsonTree::all_text_members(members) {
                    Some(FactsModel { default, facts: endpoints(JsonTree::text_members(members)) })
                } else {
                    None
                }
            },
            _ => None,
        }
    }
}

impl PartialEq for FactsConfig {
    fn eq(&self, other: &FactsConfig) -> (r: bool) {
        let equal = self.default == other.default && self.is_within(other) && other.is_within(
            self,
        );
        proof {
            if equal {
                assert forall|animal: Seq<char>|
                    self@.facts.contains_key(animal) == other@.facts.contains_key(
                        animal,
                    ) by {
                    if self@.facts.contains_key(animal) {
                        assert(self.agrees_on(other, animal));
                    }
                    if other@.facts.contains_key(animal) {
                        assert(other.agrees_on(self, animal));
                    }
                }
                assert forall|animal: Seq<char>| self@.facts.contains_key(animal) implies self@.facts[animal]
                    == other@.facts[animal] by {
                    assert(self.agrees_on(other, animal));
                }
                assert(self@.facts =~= other@.facts);
            }
        }
        equal
    }
}

impl PartialEqSpecImpl for FactsConfig {
    open spec fn obeys_eq_spec() -> bool {
        true
    }

    open spec fn eq_spec(&self, other: &FactsConfig) -> bool {
        self@ == other@
    }
}

impl Eq for FactsConfig {

}

impl Clone for FactsConfig {
    fn clone(&self) -> (r: FactsConfig)
        ensures
            r.default@ == self.default@,
            pair_views(r.facts@) == pair_views(self.facts@),
            r@ == self@,
    {
        let mut facts: Vec<(String, String)> = Vec::new();
        let mut i: usize = 0;
        while i < self.facts.len()
            invariant
                i <= self.facts.len(),
                facts@.len() == i,
                forall|j: int| 0 <= j < i ==> facts@[j] == self.facts@[j],
            decreases self.facts.len() - i,
        {
            facts.push((self.facts[i].0.clone(), self.facts[i].1.clone()));
            i = i + 1;
        }
        assert(pair_views(facts@) =~= pair_views(self.facts@));
        FactsConfig { default: self.default.clone(), facts }
    }
}

impl FactsConfig {
    /// Whether `other` has `animal` and gives it the endpoint that `self`
    /// gives it.
    pub open spec fn agrees_on(&self, other: &FactsConfig, animal: Seq<char>) -> bool {
        other@.facts.contains_key(animal) && other@.facts[animal] == self@.facts[animal]
    }

    /// Whether `other` gives every animal of `self` the endpoint that `self`
    /// gives it.
    pub open spec fn within(&self, other: &FactsConfig) -> bool {
        forall|animal: Seq<char>|
            self@.facts.contains_key(animal) ==> #[trigger] self.agrees_on(other, animal)
    }

    /// Tells whether `other` gives every animal of `self` the endpoint that
    /// `self` gives it.
    pub fn is_within(&self, other: &FactsConfig) -> (r: bool)
        ensures
            r == self.within(other),
    {
        let ghost names = names_of(pair_views(self.facts@));
        let mut i: usize = 0;
        while i < self.facts.len()
            invariant
                i <= self.facts.len(),
                names == names_of(pair_views(self.facts@)),
                forall|j: int| 0 <= j < i ==> self.agrees_on(other, #[trigger] names[j]),
            decreases self.facts.len() - i,
        {
            let animal = self.facts[i].0.as_str();
            proof {
                assert(names[i as int] == animal@);
                lemma_last_position(names, animal@);
            }
            let agreed = match (self.endpoint(animal), other.endpoint(animal)) {
                (Some(mine), Some(theirs)) => *mine == *theirs,
                _ => false,
            };
            if !agreed {
                assert(self@.facts.contains_key(animal@) && !self.agrees_on(other, animal@));
                return false;
            }
            i = i + 1;
        }
        proof {
            assert forall|animal: Seq<char>| self@.facts.contains_key(animal) implies #[trigger]
            self.agrees_on(other, animal) by {
                lemma_last_position(names, animal);
                let k = last_position(names, animal)->0;
                assert(names[k] == animal);
            }
        }
        true
    }

    /// The document that holds the configuration.
    pub open spec fn tree(&self) -> JsonTree {
        JsonTree::Object(
            seq![
                ("default"@, JsonTree::Text(self.default@)),
                ("facts"@, JsonTree::object_of_texts(pair_views(self.facts@))),
            ],
        )
    }

    /// The endpoint of `animal`, if the configuration has one.
    pub fn endpoint(&self, animal: &str) -> (r: Option<&String>)
        ensures
            match r {
                Some(url) => self@.facts.contains_key(animal@) && self@.facts[animal@] == url@,
                None => !self@.facts.contains_key(animal@),
            },
    {
        proof {
            assert(entry_names(self.facts@) =~= names_of(pair_views(self.facts@)));
            lemma_last_position(entry_names(self.facts@), animal@);
        }
        match find_entry(&self.facts, animal) {
            Some(i) => Some(&self.facts[i].1),
            None => None,
        }
    }

    /// Reads the configuration out of a document, if it holds one.
    pub fn from_json(json: &Json) -> (r: Option<FactsConfig>)
        ensures
            match r {
                Some(config) => FactsModel::of_tree(json@) == Some(config@),
                None => FactsModel::of_tree(json@) is None,
            },
    {
        let default = match json.member("default") {
            Some(Json::Text(default)) => default.clone(),
            _ => return None,
        };
        let members = match json.member("facts") {
            Some(Json::Object(members)) => members,
            _ => return None,
        };
        proof {
            lemma_object_tree(*members);
        }
        match Json::text_members(members) {
            Some(facts) => Some(FactsConfig { default, facts }),
            None => None,
        }
    }

    /// Writes the configuration as a document.
    pub fn to_json(&self) -> (r: Json)
        ensures
            r@ == self.tree(),
    {
        let mut members: Vec<(String, Json)> = Vec::new();
        members.push(("default".to_owned(), Json::Text(self.default.clone())));
        members.push(("facts".to_owned(), Json::object_of_texts(&self.facts)));
        proof {
            lemma_object_tree(members);
            assert(member_trees(members@) =~= self.tree()->Object_0);
        }
        Json::Object(members)
    }
}

/// Reading back the document that a configuration was written as gives the
/// configuration.
pub proof fn lemma_facts_config_round_trip(config: FactsConfig)
    ensures
        FactsModel::of_tree(config.tree()) == Some(config@),
{
    reveal_strlit("default");
    reveal_strlit("facts");
    let pairs = pair_views(config.facts@);
    let members = config.tree()->Object_0;
    assert(members.len() == 2 && members[0].0 == "default"@ && members[1].0 == "facts"@);
    lemma_named_at(members, "default"@, 0);
    lemma_named_at(members, "facts"@, 1);
    let listed = JsonTree::object_of_texts(pairs)->Object_0;
    assert(JsonTree::all_text_members(listed));
    assert(JsonTree::text_members(listed) =~= pairs);
}

} // verus!
