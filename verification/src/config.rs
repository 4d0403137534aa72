//! The configuration of the servers to start: for each, under its name,
//! the program, its arguments and its environment.

use vstd::prelude::*;
use crate::builder::{environment_model, lemma_environment_agrees, Variable};
use crate::error::{ClientError, ClientErrorModel};
use crate::json::{items_model, lemma_members_model_lookup, members_model, JsonModel, JsonValue};
use crate::json_text::{json_parsed, parse};
use crate::text::{same_text, texts};
use crate::types::text_member;

verus! {

/// How to start one server.
#[derive(Debug, PartialEq, Eq)]
pub struct MCPServerConfig {
    pub command: String,
    pub args: Vec<String>,
    pub env: Vec<Variable>,
}

/// An `MCPServerConfig` as a mathematical value.
pub struct ServerConfigModel {
    pub command: Seq<char>,
    pub args: Seq<Seq<char>>,
    pub env: Map<Seq<char>, Seq<char>>,
}

impl View for MCPServerConfig {
    type V = ServerConfigModel;

    open spec fn view(&self) -> ServerConfigModel {
        ServerConfigModel {
            command: self.command@,
            args: texts(self.args@),
            env: environment_model(self.env@, self.env@.len()),
        }
    }
}

/// A server under its name.
#[derive(Debug, PartialEq, Eq)]
pub struct ServerEntry {
    pub name: String,
    pub config: MCPServerConfig,
}

/// The servers that the first `n` entries configure: a later entry
/// overrides an earlier one of the same name.
pub open spec fn servers_model(servers: Seq<ServerEntry>, n: nat) -> Map<
    Seq<char>,
    ServerConfigModel,
>
    decreases n,
{
    if n == 0 || n > servers.len() {
        Map::empty()
    } else {
        servers_model(servers, (n - 1) as nat).insert(
            servers[n - 1].name@,
            servers[n - 1].config@,
        )
    }
}

/// The servers to start.
#[derive(Debug, PartialEq, Eq)]
pub struct Config {
    pub mcp_servers: Vec<ServerEntry>,
}

impl View for Config {
    type V = Map<Seq<char>, ServerConfigModel>;

    open spec fn view(&self) -> Map<Seq<char>, ServerConfigModel> {
        servers_model(self.mcp_servers@, self.mcp_servers@.len())
    }
}

/// The texts that the items of an array are, if each is a string.
pub open spec fn decode_arguments(items: Seq<JsonModel>) -> Option<Seq<Seq<char>>> {
    if forall|i: int| 0 <= i < items.len() ==> (#[trigger] items[i]) is Text {
        Some(Seq::new(items.len(), |i: int| items[i]->Text_0))
    } else {
        None
    }
}

/// The environment that an optional document is read as: none where there
/// is no document, and the entries of the document where it is an object
/// of strings.
pub open spec fn decode_environment(document: Option<JsonModel>) -> Option<
    Map<Seq<char>, Seq<char>>,
> {
    match document {
        None => Some(Map::empty()),
        Some(JsonModel::Object(fields)) => if forall|k: Seq<char>|
            fields.contains_key(k) ==> (#[trigger] fields[k]) is Text {
            Some(Map::new(|k: Seq<char>| fields.contains_key(k), |k: Seq<char>| fields[k]->Text_0))
        } else {
            None
        },
        Some(_) => None,
    }
}

/// The server configuration that a document is read as: it needs a string
/// `command` and an array `args` of strings; `env`, where it is there, is
/// an object of strings.
pub open spec fn decode_server(document: JsonModel) -> Option<ServerConfigModel> {
    match (text_member(document, "command"@), document.member("args"@)) {
        (Some(command), Some(JsonModel::Array(items))) => match (
            decode_arguments(items),
            decode_environment(document.member("env"@)),
        ) {
            (Some(args), Some(env)) => Some(ServerConfigModel { command, args, env }),
            _ => None,
        },
        _ => None,
    }
}

/// The configuration that a document is read as: it needs an object
/// `mcpServers` whose every entry is a server configuration.
pub open spec fn decode_config(document: JsonModel) -> Option<Map<Seq<char>, ServerConfigModel>> {
    match document.member("mcpServers"@) {
        Some(JsonModel::Object(fields)) => if forall|k: Seq<char>|
            fields.contains_key(k) ==> (#[trigger] decode_server(fields[k])) is Some {
            Some(
                Map::new(
                    |k: Seq<char>| fields.contains_key(k),
                    |k: Seq<char>| decode_server(fields[k])->0,
                ),
            )
        } else {
            None
        },
        _ => None,
    }
}

/// What the first `n` entries configure depends on those entries alone.
pub proof fn lemma_servers_agree(a: Seq<ServerEntry>, b: Seq<ServerEntry>, n: nat)
    requires
        n <= a.len(),
        n <= b.len(),
        forall|j: int| 0 <= j < n ==> a[j] == b[j],
    ensures
        servers_model(a, n) == servers_model(b, n),
    decreases n,
{
    if n > 0 {
        lemma_servers_agree(a, b, (n - 1) as nat);
    }
}

/// A name is among the first `n` entries exactly when they configure a
/// server of that name, and the configuration is that of the last of them.
pub proof fn lemma_servers_lookup(servers: Seq<ServerEntry>, n: nat, name: Seq<char>)
    requires
        n <= servers.len(),
    ensures
        servers_model(servers, n).contains_key(name) <==> exists|j: int|
            0 <= j < n && #[trigger] servers[j].name@ == name,
        forall|j: int|
            0 <= j < n && #[trigger] servers[j].name@ == name && (forall|k: int|
                j < k < n ==> #[trigger] servers[k].name@ != name) ==> servers_model(
                servers,
                n,
            )[name] == servers[j].config@,
    decreases n,
{
    if n > 0 {
        lemma_servers_lookup(servers, (n - 1) as nat, name);
        if servers[n - 1].name@ != name {
            assert forall|j: int|
                0 <= j < n && #[trigger] servers[j].name@ == name && (forall|k: int|
                    j < k < n ==> #[trigger] servers[k].name@ != name) implies servers_model(
                servers,
                n,
            )[name] == servers[j].config@ by {
                assert(j < n - 1);
                assert(forall|k: int| j < k < n - 1 ==> #[trigger] servers[k].name@ != name);
            }
        }
    }
}

/// Reads the arguments of a server: an array of strings.
fn read_arguments(items: &Vec<JsonValue>) -> (args: Option<Vec<String>>)
    ensures
        match args {
            Some(a) => decode_arguments(items_model(items@)) == Some(texts(a@)),
            None => decode_arguments(items_model(items@)) is None,
        },
{
    let mut args: Vec<String> = Vec::new();
    let mut i: usize = 0;
    while i < items.len()
        invariant
            i <= items.len(),
            args.len() == i,
            forall|j: int|
                0 <= j < i ==> (#[trigger] items_model(items@)[j]) == JsonModel::Text(args@[j]@),
        decreases items.len() - i,
    {
        match items[i].as_text() {
            Some(text) => {
                args.push(text.to_owned());
            },
            None => {
                assert(!(items_model(items@)[i as int] is Text));
                return None;
            },
        }
        i += 1;
    }
    assert(decode_arguments(items_model(items@))->0 =~= texts(args@));
    Some(args)
}

/// Reads the environment of a server: an object of strings.
fn read_environment(document: &JsonValue) -> (env: Option<Vec<Variable>>)
    ensures
        match env {
            Some(e) => decode_environment(Some(document@)) == Some(
                environment_model(e@, e@.len()),
            ),
            None => decode_environment(Some(document@)) is None,
        },
{
    let members = match document {
        JsonValue::Object(members) => members,
        _ => {
            return None;
        },
    };
    let ghost fields = members_model(members@, members@.len());
    let mut env: Vec<Variable> = Vec::new();
    let mut i: usize = 0;
    while i < members.len()
        invariant
            i <= members.len(),
            env.len() == i,
            document@ == JsonModel::Object(fields),
            fields == members_model(members@, members@.len()),
            environment_model(env@, i as nat).dom() =~= members_model(members@, i as nat).dom(),
            forall|k: Seq<char>|
                #[trigger] members_model(members@, i as nat).contains_key(k) ==> fields.contains_key(k)
                    && fields[k] == JsonModel::Text(environment_model(env@, i as nat)[k]),
        decreases members.len() - i,
    {
        let key = members[i].key.as_str();
        proof {
            lemma_members_model_lookup(members@, members@.len(), key@);
            assert(members@[i as int].key@ == key@);
        }
        let text = match document.get(key) {
            None => {
                return None;
            },
            Some(value) => match value.as_text() {
                None => {
                    assert(!(fields[key@] is Text));
                    return None;
                },
                Some(text) => text,
            },
        };
        let variable = Variable { key: key.to_owned(), value: text.to_owned() };
        proof {
            lemma_environment_agrees(env@.push(variable), env@, i as nat);
        }
        env.push(variable);
        i += 1;
    }
    proof {
        let made = environment_model(env@, env@.len());
        let read = Map::new(
            |k: Seq<char>| fields.contains_key(k),
            |k: Seq<char>| fields[k]->Text_0,
        );
        assert forall|k: Seq<char>| fields.contains_key(k) implies (#[trigger] fields[k]) is Text by {
            assert(members_model(members@, members@.len()).contains_key(k));
        }
        assert(made =~= read) by {
            assert forall|k: Seq<char>| made.contains_key(k) implies #[trigger] made[k] == read[k] by {
                assert(members_model(members@, members@.len()).contains_key(k));
            }
        }
    }
    Some(env)
}

impl MCPServerConfig {
    /// Reads the configuration of one server.
    pub fn from_json(document: &JsonValue) -> (config: Option<MCPServerConfig>)
        ensures
            match config {
                Some(c) => decode_server(document@) == Some(c@),
                None => decode_server(document@) is None,
            },
    {
        let command = crate::types::read_text(document, "command")?;
        let listed = document.get("args")?;
        let items = listed.as_array()?;
        let args = read_arguments(items)?;
        let env = match document.get("env") {
            None => Vec::new(),
            Some(given) => read_environment(given)?,
        };
        Some(MCPServerConfig { command, args, env })
    }
}

/// The error of a configuration that is not of the expected shape.
pub open spec fn malformed_config() -> ClientErrorModel {
    ClientErrorModel::Serialization("configuration is not of the expected shape"@)
}

impl Config {
    /// Reads a configuration.
    pub fn from_json(document: &JsonValue) -> (config: Option<Config>)
        ensures
            match config {
                Some(c) => decode_config(document@) == Some(c@),
                None => decode_config(document@) is None,
            },
    {
        let listed = document.get("mcpServers")?;
        let members = match listed {
            JsonValue::Object(members) => members,
            _ => {
                return None;
            },
        };
        let ghost fields = members_model(members@, members@.len());
        let mut servers: Vec<ServerEntry> = Vec::new();
        let mut i: usize = 0;
        while i < members.len()
            invariant
                i <= members.len(),
                servers.len() == i,
                document@.member("mcpServers"@) == Some(JsonModel::Object(fields)),
                listed@ == JsonModel::Object(fields),
                fields == members_model(members@, members@.len()),
                servers_model(servers@, i as nat).dom() =~= members_model(members@, i as nat).dom(),
                forall|k: Seq<char>|
                    #[trigger] members_model(members@, i as nat).contains_key(k)
                        ==> fields.contains_key(k) && decode_server(fields[k]) == Some(
                        servers_model(servers@, i as nat)[k],
                    ),
            decreases members.len() - i,
        {
            let name = members[i].key.as_str();
            proof {
                lemma_members_model_lookup(members@, members@.len(), name@);
                assert(members@[i as int].key@ == name@);
            }
            let config = match listed.get(name) {
                None => {
                    return None;
                },
                Some(value) => match MCPServerConfig::from_json(value) {
                    None => {
                        assert(decode_server(fields[name@]) is None);
                        return None;
                    },
                    Some(config) => config,
                },
            };
            let entry = ServerEntry { name: name.to_owned(), config };
            proof {
                lemma_servers_agree(servers@.push(entry), servers@, i as nat);
            }
            servers.push(entry);
            i += 1;
        }
        proof {
            let made = servers_model(servers@, servers@.len());
            let read = Map::new(
                |k: Seq<char>| fields.contains_key(k),
                |k: Seq<char>| decode_server(fields[k])->0,
            );
            assert forall|k: Seq<char>| fields.contains_key(k) implies (#[trigger] decode_server(
                fields[k],
            )) is Some by {
                assert(members_model(members@, members@.len()).contains_key(k));
            }
            assert(made =~= read) by {
                assert forall|k: Seq<char>| made.contains_key(k) implies #[trigger] made[k]
                    == read[k] by {
                    assert(members_model(members@, members@.len()).contains_key(k));
                }
            }
        }
        Some(Config { mcp_servers: servers })
    }

    /// Reads a configuration from JSON text. A text that is not JSON, and
    /// a document of another shape, are serialization errors.
    pub fn load_config(text: &str) -> (r: Result<Config, ClientError>)
        ensures
            match r {
                Ok(config) => json_parsed(text@) matches Some(document) && decode_config(document)
                    == Some(config@),
                Err(e) => e is Serialization && (json_parsed(text@) matches Some(document)
                    ==> decode_config(document) is None && e@ == malformed_config()),
            },
    {
        let document = parse(text)?;
        match Config::from_json(&document) {
            Some(config) => Ok(config),
            None => Err(
                ClientError::Serialization("configuration is not of the expected shape".to_owned()),
            ),
        }
    }

    /// The configuration of the server of the given name.
    pub fn server(&self, name: &str) -> (found: Option<&MCPServerConfig>)
        ensures
            match found {
                Some(config) => self@.contains_key(name@) && self@[name@] == config@,
                None => !self@.contains_key(name@),
            },
    {
        let mut i: usize = self.mcp_servers.len();
        while i > 0
            invariant
                i <= self.mcp_servers.len(),
                forall|k: int|
                    i <= k < self.mcp_servers.len() ==> #[trigger] self.mcp_servers@[k].name@
                        != name@,
            decreases i,
        {
            i -= 1;
            if same_text(self.mcp_servers[i].name.as_str(), name) {
                proof {
                    lemma_servers_lookup(self.mcp_servers@, self.mcp_servers@.len(), name@);
                }
                return Some(&self.mcp_servers[i].config);
            }
        }
        proof {
            lemma_servers_lookup(self.mcp_servers@, self.mcp_servers@.len(), name@);
        }
        None
    }
}

} // verus!
