//! JSON documents as trees: the model, reading a text with `serde_json`, and
//! looking up members of an object.

use vstd::prelude::*;

verus! {

/// The mathematical model of a JSON document.
pub enum JsonTree {
    Null,
    Bool(bool),
    /// A number, as its decimal text.
    Number(Seq<char>),
    Text(Seq<char>),
    Array(Seq<JsonTree>),
    /// The members of an object, each a name and its value, in the order in
    /// which the object lists them.
    Object(Seq<(Seq<char>, JsonTree)>),
}

/// A JSON document held in memory.
#[derive(Debug, PartialEq)]
pub enum Json {
    Null,
    Bool(bool),
    /// A number, kept as its decimal text.
    Number(String),
    Text(String),
    Array(Vec<Json>),
    /// The members of an object, each a name and its value, in the order in
    /// which the object lists them.
    Object(Vec<(String, Json)>),
}

/// The tree that a document in memory stands for.
pub open spec fn tree_of(json: Json) -> JsonTree
    decreases json,
{
    match json {
        Json::Null => JsonTree::Null,
        Json::Bool(b) => JsonTree::Bool(b),
        Json::Number(n) => JsonTree::Number(n@),
        Json::Text(s) => JsonTree::Text(s@),
        Json::Array(items) => JsonTree::Array(
            Seq::new(
                items@.len(),
                |i: int|
                    if 0 <= i < items@.len() {
                        tree_of(items@[i])
                    } else {
                        JsonTree::Null
                    },
            ),
        ),
        Json::Object(members) => JsonTree::Object(
            Seq::new(
                members@.len(),
                |i: int|
                    if 0 <= i < members@.len() {
                        (members@[i].0@, tree_of(members@[i].1))
                    } else {
                        (Seq::empty(), JsonTree::Null)
                    },
            ),
        ),
    }
}

impl View for Json {
    type V = JsonTree;

    open spec fn view(&self) -> JsonTree {
        tree_of(*self)
    }
}

/// The index of the last of `names` that equals `name`, if there is one.
pub open spec fn last_position(names: Seq<Seq<char>>, name: Seq<char>) -> Option<int>
    decreases names.len(),
{
    if names.len() == 0 {
        None
    } else if names.last() == name {
        Some(names.len() - 1)
    } else {
        last_position(names.drop_last(), name)
    }
}

/// What `last_position` finds is an index at which `name` stands, and `name`
/// stands nowhere behind it; it finds nothing only where `name` is absent.
pub proof fn lemma_last_position(names: Seq<Seq<char>>, name: Seq<char>)
    ensures
        match last_position(names, name) {
            Some(i) => 0 <= i < names.len() && names[i] == name && forall|j: int|
                i < j < names.len() ==> names[j] != name,
            None => forall|j: int| 0 <= j < names.len() ==> names[j] != name,
        },
    decreases names.len(),
{
    if names.len() > 0 && names.last() != name {
        let front = names.drop_last();
        lemma_last_position(front, name);
        assert(forall|j: int| 0 <= j < front.len() ==> front[j] == names[j]);
    }
}

/// The names of a list of named entries.
pub open spec fn entry_names<V>(entries: Seq<(String, V)>) -> Seq<Seq<char>> {
    Seq::new(entries.len(), |i: int| entries[i].0@)
}

/// Finds the last entry named `name`.
pub fn find_entry<V>(entries: &Vec<(String, V)>, name: &str) -> (r: Option<usize>)
    ensures
        match r {
            Some(i) => last_position(entry_names(entries@), name@) == Some(i as int),
            None => last_position(entry_names(entries@), name@) is None,
        },
{
    let wanted = name.to_owned();
    let ghost names = entry_names(entries@);
    let mut i: usize = entries.len();
    assert(names.take(i as int) == names);
    while i > 0
        invariant
            i <= entries.len(),
            names == entry_names(entries@),
            wanted@ == name@,
            last_position(names, name@) == last_position(names.take(i as int), name@),
        decreases i,
    {
        proof {
            let front = names.take(i as int);
            assert(front.last() == entries@[i - 1].0@);
            assert(front.drop_last() == names.take(i - 1));
        }
        if entries[i - 1].0 == wanted {
            return Some(i - 1);
        }
        i = i - 1;
    }
    None
}

/// The views of a list of texts.
pub open spec fn text_views(texts: Seq<String>) -> Seq<Seq<char>> {
    Seq::new(texts.len(), |i: int| texts[i]@)
}

/// The views of a list of named texts.
pub open spec fn pair_views(pairs: Seq<(String, String)>) -> Seq<(Seq<char>, Seq<char>)> {
    Seq::new(pairs.len(), |i: int| (pairs[i].0@, pairs[i].1@))
}

/// The trees of a list of documents.
pub open spec fn item_trees(items: Seq<Json>) -> Seq<JsonTree> {
    Seq::new(items.len(), |i: int| items[i]@)
}

/// The trees of a list of named documents.
pub open spec fn member_trees(members: Seq<(String, Json)>) -> Seq<(Seq<char>, JsonTree)> {
    Seq::new(members.len(), |i: int| (members[i].0@, members[i].1@))
}

/// An array in memory stands for the array of its items' trees.
pub proof fn lemma_array_tree(items: Vec<Json>)
    ensures
        Json::Array(items)@ == JsonTree::Array(item_trees(items@)),
{
    assert(Json::Array(items)@->Array_0 =~= item_trees(items@));
}

/// An object in memory stands for the object of its members' trees.
pub proof fn lemma_object_tree(members: Vec<(String, Json)>)
    ensures
        Json::Object(members)@ == JsonTree::Object(member_trees(members@)),
{
    assert(Json::Object(members)@->Object_0 =~= member_trees(members@));
}

/// The names of a list of named values.
pub open spec fn names_of<V>(members: Seq<(Seq<char>, V)>) -> Seq<Seq<char>> {
    Seq::new(members.len(), |i: int| members[i].0)
}

/// The value that a list of named values gives to `name`: that of the last
/// one, where several carry the name.
pub open spec fn named<V>(members: Seq<(Seq<char>, V)>, name: Seq<char>) -> Option<V> {
    match last_position(names_of(members), name) {
        Some(i) => Some(members[i].1),
        None => None,
    }
}

/// Copies a list of texts.
pub fn copy_texts(texts: &Vec<String>) -> (r: Vec<String>)
    ensures
        r@ == texts@,
{
    let mut copy: Vec<String> = Vec::new();
    let mut i: usize = 0;
    while i < texts.len()
        invariant
            i <= texts.len(),
            copy@ == texts@.take(i as int),
        decreases texts.len() - i,
    {
        copy.push(texts[i].clone());
        assert(copy@ == texts@.take(i + 1));
        i = i + 1;
    }
    assert(texts@.take(i as int) == texts@);
    copy
}

/// A name that stands at `i` and nowhere behind it has the value given at `i`.
pub proof fn lemma_named_at<V>(members: Seq<(Seq<char>, V)>, name: Seq<char>, i: int)
    requires
        0 <= i < members.len(),
        members[i].0 == name,
        forall|j: int| i < j < members.len() ==> members[j].0 != name,
    ensures
        named(members, name) == Some(members[i].1),
{
    let names = names_of(members);
    lemma_last_position(names, name);
    assert(names[i] == name);
    let found = last_position(names, name);
    assert(found is Some);
    let k = found->0;
    assert(names[k] == members[k].0);
    assert(k == i);
}

impl JsonTree {
    /// The value of the member called `name`: that of the last one, where
    /// several carry the name. `None` where `self` is no object or has no such
    /// member.
    pub open spec fn member(self, name: Seq<char>) -> Option<JsonTree> {
        match self {
            JsonTree::Object(members) => named(members, name),
            _ => None,
        }
    }

    /// Whether every one of `items` is a text.
    pub open spec fn all_texts(items: Seq<JsonTree>) -> bool {
        forall|i: int| 0 <= i < items.len() ==> items[i] is Text
    }

    /// The texts of `items`, where every one of them is a text.
    pub open spec fn texts(items: Seq<JsonTree>) -> Seq<Seq<char>> {
        Seq::new(items.len(), |i: int| items[i]->Text_0)
    }

    /// The array of the given texts.
    pub open spec fn array_of_texts(texts: Seq<Seq<char>>) -> JsonTree {
        JsonTree::Array(Seq::new(texts.len(), |i: int| JsonTree::Text(texts[i])))
    }

    /// Whether the value of every one of `members` is a text.
    pub open spec fn all_text_members(members: Seq<(Seq<char>, JsonTree)>) -> bool {
        forall|i: int| 0 <= i < members.len() ==> members[i].1 is Text
    }

    /// The named texts of `members`, where every value is a text.
    pub open spec fn text_members(members: Seq<(Seq<char>, JsonTree)>) -> Seq<
        (Seq<char>, Seq<char>),
    > {
        Seq::new(members.len(), |i: int| (members[i].0, members[i].1->Text_0))
    }

    /// The object whose members are the given named texts.
    pub open spec fn object_of_texts(pairs: Seq<(Seq<char>, Seq<char>)>) -> JsonTree {
        JsonTree::Object(Seq::new(pairs.len(), |i: int| (pairs[i].0, JsonTree::Text(pairs[i].1))))
    }
}

impl Json {
    /// The value of the member called `name`, if `self` is an object that has one.
    pub fn member(&self, name: &str) -> (r: Option<&Json>)
        ensures
            match r {
                Some(value) => self@.member(name@) == Some(value@),
                None => self@.member(name@) is None,
            },
    {
        match self {
            Json::Object(members) => {
                proof {
                    lemma_object_tree(*members);
                    assert(entry_names(members@) =~= names_of(member_trees(members@)));
                    lemma_last_position(entry_names(members@), name@);
                }
                match find_entry(members, name) {
                    Some(i) => Some(&members[i].1),
                    None => None,
                }
            },
            _ => None,
        }
    }

    /// The texts of `items`, if every one of them is a text.
    pub fn text_items(items: &Vec<Json>) -> (r: Option<Vec<String>>)
        ensures
            match r {
                Some(texts) => JsonTree::all_texts(item_trees(items@)) && text_views(texts@)
                    == JsonTree::texts(item_trees(items@)),
                None => !JsonTree::all_texts(item_trees(items@)),
            },
    {
        let ghost trees = item_trees(items@);
        let mut texts: Vec<String> = Vec::new();
        let mut i: usize = 0;
        while i < items.len()
            invariant
                i <= items.len(),
                trees == item_trees(items@),
                texts@.len() == i,
                forall|j: int| 0 <= j < i ==> trees[j] is Text && texts@[j]@ == trees[j]->Text_0,
            decreases items.len() - i,
        {
            match &items[i] {
                Json::Text(text) => texts.push(text.clone()),
                _ => {
                    assert(!(trees[i as int] is Text));
                    return None;
                },
            }
            i = i + 1;
        }
        assert(text_views(texts@) =~= JsonTree::texts(trees));
        Some(texts)
    }

    /// The array of the given texts.
    pub fn array_of_texts(texts: &Vec<String>) -> (r: Json)
        ensures
            r@ == JsonTree::array_of_texts(text_views(texts@)),
    {
        let mut items: Vec<Json> = Vec::new();
        let mut i: usize = 0;
        while i < texts.len()
            invariant
                i <= texts.len(),
                items@.len() == i,
                forall|j: int| 0 <= j < i ==> items@[j]@ == JsonTree::Text(texts@[j]@),
            decreases texts.len() - i,
        {
            items.push(Json::Text(texts[i].clone()));
            i = i + 1;
        }
        proof {
            lemma_array_tree(items);
            assert(item_trees(items@) =~= JsonTree::array_of_texts(text_views(texts@))->Array_0);
        }
        Json::Array(items)
    }

    /// The named texts of `members`, if the value of every one of them is a text.
    pub fn text_members(members: &Vec<(String, Json)>) -> (r: Option<Vec<(String, String)>>)
        ensures
            match r {
                Some(pairs) => JsonTree::all_text_members(member_trees(members@)) && pair_views(
                    pairs@,
                ) == JsonTree::text_members(member_trees(members@)),
                None => !JsonTree::all_text_members(member_trees(members@)),
            },
    {
        let ghost trees = member_trees(members@);
        let mut pairs: Vec<(String, String)> = Vec::new();
        let mut i: usize = 0;
        while i < members.len()
            invariant
                i <= members.len(),
                trees == member_trees(members@),
                pairs@.len() == i,
                forall|j: int|
                    0 <= j < i ==> trees[j].1 is Text && pairs@[j].0@ == trees[j].0 && pairs@[j].1@
                        == trees[j].1->Text_0,
            decreases members.len() - i,
        {
            match &members[i].1 {
                Json::Text(text) => pairs.push((members[i].0.clone(), text.clone())),
                _ => {
                    assert(!(trees[i as int].1 is Text));
                    return None;
                },
            }
            i = i + 1;
        }
        assert(pair_views(pairs@) =~= JsonTree::text_members(trees));
        Some(pairs)
    }

    /// The object whose members are the given named texts.
    pub fn object_of_texts(pairs: &Vec<(String, String)>) -> (r: Json)
        ensures
            r@ == JsonTree::object_of_texts(pair_views(pairs@)),
    {
        let mut members: Vec<(String, Json)> = Vec::new();
        let mut i: usize = 0;
        while i < pairs.len()
            invariant
                i <= pairs.len(),
                members@.len() == i,
                forall|j: int|
                    0 <= j < i ==> members@[j].0@ == pairs@[j].0@ && members@[j].1@
                        == JsonTree::Text(pairs@[j].1@),
            decreases pairs.len() - i,
        {
            members.push((pairs[i].0.clone(), Json::Text(pairs[i].1.clone())));
            i = i + 1;
        }
        proof {
            lemma_object_tree(members);
            assert(member_trees(members@) =~= JsonTree::object_of_texts(
                pair_views(pairs@),
            )->Object_0);
        }
        Json::Object(members)
    }
}

/// `serde_json::Value`, as a value that is handed on unread.
#[verifier::external_type_specification]
#[verifier::external_body]
pub struct ExValue(serde_json::Value);

/// `serde_json::Error`, as a value that is handed on unread.
#[verifier::external_type_specification]
#[verifier::external_body]
pub struct ExError(serde_json::Error);

/// The tree that `serde_json` reads from `text`; `None` where it rejects `text`.
pub uninterp spec fn json_document(text: Seq<char>) -> Option<JsonTree>;

/// The tree that a `serde_json::Value` holds.
pub uninterp spec fn value_tree(value: serde_json::Value) -> JsonTree;

/// `serde_json::from_str`, asked for a `serde_json::Value`. Trusted: the call
/// succeeds exactly on the texts that have a document, and the value it
/// returns holds that document.
#[verifier::external_body]
fn read_value(text: &str) -> (r: Result<serde_json::Value, serde_json::Error>)
    ensures
        match r {
            Ok(value) => json_document(text@) == Some(value_tree(value)),
            Err(_) => json_document(text@) is None,
        },
{
    serde_json::from_str::<serde_json::Value>(text)
}

/// Moves a `serde_json::Value` into a `Json`, variant by variant; a number
/// becomes the text that `serde_json::Number` displays. Trusted: the result
/// stands for the tree that the value holds.
#[verifier::external_body]
fn lift(value: serde_json::Value) -> (r: Json)
    ensures
        r@ == value_tree(value),
{
    match value {
        serde_json::Value::Null => Json::Null,
        serde_json::Value::Bool(b) => Json::Bool(b),
        serde_json::Value::Number(n) => Json::Number(n.to_string()),
        serde_json::Value::String(s) => Json::Text(s),
        serde_json::Value::Array(items) => Json::Array(items.into_iter().map(lift).collect()),
        serde_json::Value::Object(members) => Json::Object(
            members.into_iter().map(|(name, value)| (name, lift(value))).collect(),
        ),
    }
}

/// The message that a `serde_json::Error` displays. Nothing is claimed of it.
#[verifier::external_body]
fn describe(error: &serde_json::Error) -> String {
    error.to_string()
}

/// Reads a JSON text. Succeeds exactly where the text has a document, and
/// then returns it; fails with the reader's message otherwise.
pub fn parse(text: &str) -> (r: Result<Json, String>)
    ensures
        match r {
            Ok(json) => json_document(text@) == Some(json@),
            Err(_) => json_document(text@) is None,
        },
{
    match read_value(text) {
        Ok(value) => Ok(lift(value)),
        Err(error) => Err(describe(&error)),
    }
}

} // verus!
