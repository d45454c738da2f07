//! The configuration of the service: where it listens, and the
//! configuration of the resolver.

use crate::error::{Failure, ServiceError};
use crate::facts::config::{lemma_facts_config_round_trip, FactsConfig, FactsModel};
use crate::json::{
    json_document, lemma_named_at, lemma_object_tree, member_trees, parse, Json, JsonTree,
};
use vstd::prelude::*;
use vstd::std_specs::cmp::PartialEqSpecImpl;

verus! {

/// The environment variable that names the configuration file.
pub const CONFIG_FILE_VARIABLE: &'static str = "RUST_FACTS_CONFIG_FILE";

/// The configuration file that is read where the environment names none.
pub const DEFAULT_CONFIG_FILE: &'static str = "config.json";

/// The name of the configuration file, given what the environment says of
/// it: the name given there, or the default one.
pub fn config_file_name(configured: Option<String>) -> (r: String)
    ensures
        r@ == match configured {
            Some(name) => name@,
            None => DEFAULT_CONFIG_FILE@,
        },
{
    match configured {
        Some(name) => name,
        None => DEFAULT_CONFIG_FILE.to_owned(),
    }
}

/// Where the service listens.
#[derive(Debug)]
pub struct ServerConfig {
    pub address: String,
}

/// The configuration of the service. Two configurations are equal where
/// they say the same, in whatever order they list the endpoints.
#[derive(Debug)]
pub struct ConfigData {
    pub server: ServerConfig,
    pub animals: FactsConfig,
}

/// The model of a `ServerConfig`.
pub struct ServerModel {
    pub address: Seq<char>,
}

/// The model of a `ConfigData`.
pub struct ConfigModel {
    pub server: ServerModel,
    pub animals: FactsModel,
}

impl View for ServerConfig {
    type V = ServerModel;

    open spec fn view(&self) -> ServerModel {
        ServerModel { address: self.address@ }
    }
}

impl View for ConfigData {
    type V = ConfigModel;

    open spec fn view(&self) -> ConfigModel {
        ConfigModel { server: self.server@, animals: self.animals@ }
    }
}

impl ServerModel {
    /// The server configuration that a document holds: an object whose
    /// member `address` is a text.
    pub open spec fn of_tree(tree: JsonTree) -> Option<ServerModel> {
        match tree.member("address"@) {
            Some(JsonTree::Text(address)) => Some(ServerModel { address }),
            _ => None,
        }
    }
}

impl ConfigModel {
    /// The configuration that a document holds: an object whose member
    /// `server` holds a server configuration and whose member `animals`
    /// holds a resolver configuration.
    pub open spec fn of_tree(tree: JsonTree) -> Option<ConfigModel> {
        match (tree.member("server"@), tree.member("animals"@)) {
            (Some(server), Some(animals)) => match (
                ServerModel::of_tree(server),
                FactsModel::of_tree(animals),
            ) {
                (Some(server), Some(animals)) => Some(ConfigModel { server, animals }),
                _ => None,
            },
            _ => None,
        }
    }

    /// The configuration that a text holds, given the document that the text
    /// has, if it has one.
    pub open spec fn of_document(document: Option<JsonTree>) -> Option<ConfigModel> {
        match document {
            Some(tree) => Self::of_tree(tree),
            None => None,
        }
    }
}

impl PartialEq for ServerConfig {
    fn eq(&self, other: &ServerConfig) -> (r: bool) {
        self.address == other.address
    }
}

impl PartialEqSpecImpl for ServerConfig {
    open spec fn obeys_eq_spec() -> bool {
        true
    }

    open spec fn eq_spec(&self, other: &ServerConfig) -> bool {
        self@ == other@
    }
}

impl Eq for ServerConfig {

}

impl PartialEq for ConfigData {
    fn eq(&self, other: &ConfigData) -> (r: bool) {
        self.server == other.server && self.animals == other.animals
    }
}

impl PartialEqSpecImpl for ConfigData {
    open spec fn obeys_eq_spec() -> bool {
        true
    }

    open spec fn eq_spec(&self, other: &ConfigData) -> bool {
        self@ == other@
    }
}

impl Eq for ConfigData {

}

impl Clone for ServerConfig {
    fn clone(&self) -> (r: ServerConfig)
        ensures
            r@ == self@,
    {
        ServerConfig { address: self.address.clone() }
    }
}

impl Clone for ConfigData {
    fn clone(&self) -> (r: ConfigData)
        ensures
            r@ == self@,
    {
        ConfigData { server: self.server.clone(), animals: self.animals.clone() }
    }
}

impl ServerConfig {
    /// The document that holds the server configuration.
    pub open spec fn tree(&self) -> JsonTree {
        JsonTree::Object(seq![("address"@, JsonTree::Text(self.address@))])
    }

    /// Reads the server configuration out of a document, if it holds one.
    pub fn from_json(json: &Json) -> (r: Option<ServerConfig>)
        ensures
            match r {
                Some(config) => ServerModel::of_tree(json@) == Some(config@),
                None => ServerModel::of_tree(json@) is None,
            },
    {
        match json.member("address") {
            Some(Json::Text(address)) => Some(ServerConfig { address: address.clone() }),
            _ => None,
        }
    }

    /// Writes the server configuration as a document.
    pub fn to_json(&self) -> (r: Json)
        ensures
            r@ == self.tree(),
    {
        let mut members: Vec<(String, Json)> = Vec::new();
        members.push(("address".to_owned(), Json::Text(self.address.clone())));
        proof {
            lemma_object_tree(members);
            assert(member_trees(members@) =~= self.tree()->Object_0);
        }
        Json::Object(members)
    }
}

impl ConfigData {
    /// The document that holds the configuration.
    pub open spec fn tree(&self) -> JsonTree {
        JsonTree::Object(seq![("server"@, self.server.tree()), ("animals"@, self.animals.tree())])
    }

    /// Reads the configuration out of a document, if it holds one.
    pub fn from_json(json: &Json) -> (r: Option<ConfigData>)
        ensures
            match r {
                Some(config) => ConfigModel::of_tree(json@) == Some(config@),
                None => ConfigModel::of_tree(json@) is None,
            },
    {
        let server = match json.member("server") {
            Some(server) => server,
            None => return None,
        };
        let animals = match json.member("animals") {
            Some(animals) => animals,
            None => return None,
        };
        match (ServerConfig::from_json(server), FactsConfig::from_json(animals)) {
            (Some(server), Some(animals)) => Some(ConfigData { server, animals }),
            _ => None,
        }
    }

    /// Writes the configuration as a document.
    pub fn to_json(&self) -> (r: Json)
        ensures
            r@ == self.tree(),
    {
        let mut members: Vec<(String, Json)> = Vec::new();
        members.push(("server".to_owned(), self.server.to_json()));
        members.push(("animals".to_owned(), self.animals.to_json()));
        proof {
            lemma_object_tree(members);
            assert(member_trees(members@) =~= self.tree()->Object_0);
        }
        Json::Object(members)
    }

    /// Makes the configuration out of what reading the configuration text
    /// as JSON gave. Fails where there is no document, and where the document
    /// holds no configuration.
    pub fn from_document(document: Result<Json, String>) -> (r: Result<ConfigData, ServiceError>)
        ensures
            match ConfigModel::of_document(
                match document {
                    Ok(json) => Some(json@),
                    Err(_) => None,
                },
            ) {
                Some(model) => r matches Ok(config) && config@ == model,
                None => r matches Err(error) && error@ == Failure::ConfigLoad,
            },
            document matches Err(reason) ==> r == Err::<ConfigData, ServiceError>(
                ServiceError::ConfigLoad(reason),
            ),
    {
        match document {
            Ok(json) => match ConfigData::from_json(&json) {
                Some(config) => Ok(config),
                None => Err(
                    ServiceError::ConfigLoad(
                        "the configuration does not have the expected shape".to_owned(),
                    ),
                ),
            },
            Err(reason) => Err(ServiceError::ConfigLoad(reason)),
        }
    }

    /// Loads the configuration from what reading the configuration file
    /// gave: its contents, or the reason why it could not be read. Fails
    /// where the file could not be read, where the contents are no JSON, and
    /// where the JSON does not hold a configuration; nothing stands in for a
    /// configuration that could not be loaded.
    pub fn new(read: Result<String, String>) -> (r: Result<ConfigData, ServiceError>)
        ensures
            match read {
                Ok(contents) => match ConfigModel::of_document(json_document(contents@)) {
                    Some(model) => r matches Ok(config) && config@ == model,
                    None => r matches Err(error) && error@ == Failure::ConfigLoad,
                },
                Err(reason) => r == Err::<ConfigData, ServiceError>(
                    ServiceError::ConfigLoad(reason),
                ),
            },
            read is Err ==> r is Err,
            read matches Ok(contents) && json_document(contents@) is None ==> r is Err,
    {
        match read {
            Ok(contents) => Self::from_document(parse(contents.as_str())),
            Err(reason) => Err(ServiceError::ConfigLoad(reason)),
        }
    }
}

/// Reading back the document that a configuration was written as gives the
/// configuration.
pub proof fn lemma_config_round_trip(config: ConfigData)
    ensures
        ConfigModel::of_tree(config.tree()) == Some(config@),
{
    reveal_strlit("server");
    reveal_strlit("animals");
    let members = config.tree()->Object_0;
    assert(members.len() == 2 && members[0].0 == "server"@ && members[1].0 == "animals"@);
    assert(config.server.tree()->Object_0.len() == 1);
    lemma_named_at(members, "server"@, 0);
    lemma_named_at(members, "animals"@, 1);
    lemma_named_at(config.server.tree()->Object_0, "address"@, 0);
    lemma_facts_config_round_trip(config.animals);
}

} // verus!
