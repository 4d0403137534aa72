//! What a manager of several sessions needs to know about tools: which
//! server offers a tool, and how the tools of a server are described.

use vstd::prelude::*;
use vstd::string::StringExecFns;
use crate::json::{items_model, JsonModel, JsonValue};
use crate::text::same_text;
use crate::types::{read_text, text_member};

verus! {

/// A tool as it is offered to a language model.
#[derive(Debug, PartialEq, Eq)]
pub struct ToolDescription {
    pub name: String,
    pub description: String,
    pub parameters: JsonValue,
}

/// A `ToolDescription` as a mathematical value.
pub struct ToolDescriptionModel {
    pub name: Seq<char>,
    pub description: Seq<char>,
    pub parameters: JsonModel,
}

impl View for ToolDescription {
    type V = ToolDescriptionModel;

    open spec fn view(&self) -> ToolDescriptionModel {
        ToolDescriptionModel {
            name: self.name@,
            description: self.description@,
            parameters: self.parameters@,
        }
    }
}

/// The description that a document gives of a tool: it needs a string
/// `name`, a string `description` and `parameters`.
pub open spec fn described(document: JsonModel) -> Option<ToolDescriptionModel> {
    match (
        text_member(document, "name"@),
        text_member(document, "description"@),
        document.member("parameters"@),
    ) {
        (Some(name), Some(description), Some(parameters)) => Some(
            ToolDescriptionModel { name, description, parameters },
        ),
        _ => None,
    }
}

/// The descriptions that the first `n` items give, in order; an item that
/// describes no tool is passed over.
pub open spec fn descriptions(items: Seq<JsonModel>, n: nat) -> Seq<ToolDescriptionModel>
    decreases n,
{
    if n == 0 || n > items.len() {
        Seq::empty()
    } else {
        match described(items[n - 1]) {
            Some(d) => descriptions(items, (n - 1) as nat).push(d),
            None => descriptions(items, (n - 1) as nat),
        }
    }
}

/// The names that the first `n` items carry, in order; an item without a
/// string `name` is passed over.
pub open spec fn names(items: Seq<JsonModel>, n: nat) -> Seq<Seq<char>>
    decreases n,
{
    if n == 0 || n > items.len() {
        Seq::empty()
    } else {
        match text_member(items[n - 1], "name"@) {
            Some(name) => names(items, (n - 1) as nat).push(name),
            None => names(items, (n - 1) as nat),
        }
    }
}

/// The items under `tools`, where the document holds an array there.
pub open spec fn listed_tools(document: JsonModel) -> Option<Seq<JsonModel>> {
    match document.member("tools"@) {
        Some(JsonModel::Array(items)) => Some(items),
        _ => None,
    }
}

/// The descriptions that a sequence of `ToolDescription` values denotes.
pub open spec fn descriptions_model(tools: Seq<ToolDescription>) -> Seq<ToolDescriptionModel> {
    Seq::new(tools.len(), |i: int| tools[i]@)
}

/// The message for a result of `tools/list` that lists no tools.
pub open spec fn no_tools_found() -> Seq<char> {
    "No tools found or invalid tools format"@
}

/// Reads the tools that a result of `tools/list` describes: every item of
/// its `tools` array that has a name, a description and parameters. A
/// result without such an array is refused.
pub fn available_tools(value: &JsonValue) -> (r: Result<Vec<ToolDescription>, String>)
    ensures
        match r {
            Ok(tools) => listed_tools(value@) matches Some(items) && descriptions_model(tools@)
                == descriptions(items, items.len()),
            Err(e) => listed_tools(value@) is None && e@ == no_tools_found(),
        },
{
    let items = match value.get("tools") {
        None => {
            return Err("No tools found or invalid tools format".to_owned());
        },
        Some(listed) => match listed.as_array() {
            None => {
                return Err("No tools found or invalid tools format".to_owned());
            },
            Some(items) => items,
        },
    };
    let mut tools: Vec<ToolDescription> = Vec::new();
    let mut i: usize = 0;
    assert(descriptions_model(tools@) =~= descriptions(items_model(items@), 0));
    while i < items.len()
        invariant
            i <= items.len(),
            descriptions_model(tools@) == descriptions(items_model(items@), i as nat),
        decreases items.len() - i,
    {
        let item = &items[i];
        let ghost before = descriptions_model(tools@);
        match (read_text(item, "name"), read_text(item, "description"), item.get("parameters")) {
            (Some(name), Some(description), Some(parameters)) => {
                let tool = ToolDescription { name, description, parameters: parameters.clone() };
                tools.push(tool);
                assert(descriptions_model(tools@) =~= before.push(tool@));
            },
            _ => {},
        }
        i += 1;
    }
    Ok(tools)
}

/// Reads the names of the tools that a result of `tools/list` lists: the
/// name of every item of its `tools` array that has one. A result without
/// such an array lists none.
pub fn tool_names(value: &JsonValue) -> (found: Vec<String>)
    ensures
        crate::text::texts(found@) == match listed_tools(value@) {
            Some(items) => names(items, items.len()),
            None => Seq::empty(),
        },
{
    let mut found: Vec<String> = Vec::new();
    assert(crate::text::texts(found@) =~= Seq::<Seq<char>>::empty());
    let items = match value.get("tools") {
        None => {
            return found;
        },
        Some(listed) => match listed.as_array() {
            None => {
                return found;
            },
            Some(items) => items,
        },
    };
    let mut i: usize = 0;
    while i < items.len()
        invariant
            i <= items.len(),
            crate::text::texts(found@) == names(items_model(items@), i as nat),
        decreases items.len() - i,
    {
        let ghost before = crate::text::texts(found@);
        match read_text(&items[i], "name") {
            Some(name) => {
                let ghost added = name@;
                found.push(name);
                assert(crate::text::texts(found@) =~= before.push(added));
            },
            None => {},
        }
        i += 1;
    }
    found
}

/// Where a tool is to be found: the server that offers it, and the name
/// that the server knows it by.
#[derive(Debug, PartialEq, Eq)]
pub struct Route {
    pub tool: String,
    pub server: String,
    pub tool_id: String,
}

/// The routes that the first `n` entries make: a later entry for a tool
/// overrides an earlier one.
pub open spec fn routes_model(routes: Seq<Route>, n: nat) -> Map<Seq<char>, (Seq<char>, Seq<char>)>
    decreases n,
{
    if n == 0 || n > routes.len() {
        Map::empty()
    } else {
        routes_model(routes, (n - 1) as nat).insert(
            routes[n - 1].tool@,
            (routes[n - 1].server@, routes[n - 1].tool_id@),
        )
    }
}

/// Which server offers which tool.
#[derive(Debug, PartialEq, Eq)]
pub struct ToolRegistry {
    routes: Vec<Route>,
}

impl View for ToolRegistry {
    type V = Map<Seq<char>, (Seq<char>, Seq<char>)>;

    closed spec fn view(&self) -> Map<Seq<char>, (Seq<char>, Seq<char>)> {
        routes_model(self.routes@, self.routes@.len())
    }
}

/// The message for a tool that no server is known to offer.
pub open spec fn tool_not_found(tool: Seq<char>) -> Seq<char> {
    "Tool '"@ + tool + "' not found or not registered"@
}

/// The message for a tool whose server has no session.
pub open spec fn server_not_found(server: Seq<char>, tool: Seq<char>) -> Seq<char> {
    "Server '"@ + server + "' not found for tool "@ + tool
}

/// The message for a tool call that failed.
pub open spec fn tool_call_failed(reason: Seq<char>) -> Seq<char> {
    "Tool call failed: "@ + reason
}

impl ToolRegistry {
    /// A registry without tools.
    pub fn new() -> (registry: ToolRegistry)
        ensures
            registry@ == Map::<Seq<char>, (Seq<char>, Seq<char>)>::empty(),
    {
        ToolRegistry { routes: Vec::new() }
    }

    /// Records that `server` offers `tool` under the name `tool_id`; what
    /// was recorded for the tool before is replaced.
    pub fn insert(&mut self, tool: &str, server: &str, tool_id: &str)
        ensures
            final(self)@ == old(self)@.insert(tool@, (server@, tool_id@)),
    {
        let route = Route {
            tool: tool.to_owned(),
            server: server.to_owned(),
            tool_id: tool_id.to_owned(),
        };
        proof {
            lemma_routes_agree(self.routes@.push(route), self.routes@, self.routes@.len());
        }
        self.routes.push(route);
    }

    /// The server that offers a tool and the name it knows the tool by, or
    /// the message that says that no server is known to offer it.
    pub fn route(&self, tool: &str) -> (r: Result<(&str, &str), String>)
        ensures
            match r {
                Ok((server, tool_id)) => self@.contains_key(tool@) && self@[tool@] == (
                    server@,
                    tool_id@,
                ),
                Err(e) => !self@.contains_key(tool@) && e@ == tool_not_found(tool@),
            },
    {
        let mut i: usize = self.routes.len();
        while i > 0
            invariant
                i <= self.routes.len(),
                forall|k: int| i <= k < self.routes.len() ==> #[trigger] self.routes@[k].tool@ != tool@,
            decreases i,
        {
            i -= 1;
            if same_text(self.routes[i].tool.as_str(), tool) {
                proof {
                    lemma_routes_lookup(self.routes@, self.routes@.len(), tool@);
                }
                return Ok((self.routes[i].server.as_str(), self.routes[i].tool_id.as_str()));
            }
        }
        proof {
            lemma_routes_lookup(self.routes@, self.routes@.len(), tool@);
        }
        let mut message = "Tool '".to_owned();
        message.append(tool);
        message.append("' not found or not registered");
        Err(message)
    }
}

/// The message for a tool whose server has no session.
pub fn server_not_found_message(server: &str, tool: &str) -> (message: String)
    ensures
        message@ == server_not_found(server@, tool@),
{
    let mut message = "Server '".to_owned();
    message.append(server);
    message.append("' not found for tool ");
    message.append(tool);
    message
}

/// The message for a tool call that failed for the given reason.
pub fn tool_call_failed_message(reason: &str) -> (message: String)
    ensures
        message@ == tool_call_failed(reason@),
{
    let mut message = "Tool call failed: ".to_owned();
    message.append(reason);
    message
}

/// What the first `n` routes make depends on those routes alone.
pub proof fn lemma_routes_agree(a: Seq<Route>, b: Seq<Route>, n: nat)
    requires
        n <= a.len(),
        n <= b.len(),
        forall|j: int| 0 <= j < n ==> a[j] == b[j],
    ensures
        routes_model(a, n) == routes_model(b, n),
    decreases n,
{
    if n > 0 {
        lemma_routes_agree(a, b, (n - 1) as nat);
    }
}

/// A tool is in the map of the first `n` routes exactly when one of them
/// is for it, and the map then holds what the last of those says.
pub proof fn lemma_routes_lookup(routes: Seq<Route>, n: nat, tool: Seq<char>)
    requires
        n <= routes.len(),
    ensures
        routes_model(routes, n).contains_key(tool) <==> exists|j: int|
            0 <= j < n && #[trigger] routes[j].tool@ == tool,
        forall|j: int|
            0 <= j < n && #[trigger] routes[j].tool@ == tool && (forall|k: int|
                j < k < n ==> #[trigger] routes[k].tool@ != tool) ==> routes_model(routes, n)[tool]
                == (routes[j].server@, routes[j].tool_id@),
    decreases n,
{
    if n > 0 {
        lemma_routes_lookup(routes, (n - 1) as nat, tool);
        if routes[n - 1].tool@ != tool {
            assert forall|j: int|
                0 <= j < n && #[trigger] routes[j].tool@ == tool && (forall|k: int|
                    j < k < n ==> #[trigger] routes[k].tool@ != tool) implies routes_model(
                routes,
                n,
            )[tool] == (routes[j].server@, routes[j].tool_id@) by {
                assert(j < n - 1);
                assert(forall|k: int| j < k < n - 1 ==> #[trigger] routes[k].tool@ != tool);
            }
        }
    }
}

} // verus!
