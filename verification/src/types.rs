//! The typed shapes that the results of protocol operations are read into.
//! The session itself carries JSON; only the functions here know a schema.

use vstd::prelude::*;
use vstd::string::StringExecFns;
use crate::error::{ClientError, ClientErrorModel};
use crate::json::{items_model, put, JsonModel, JsonValue, Member};
use crate::text::same_text;

verus! {

/// The string under `key`, where the document is an object that holds a
/// string there.
pub open spec fn text_member(document: JsonModel, key: Seq<char>) -> Option<Seq<char>> {
    match document.member(key) {
        Some(JsonModel::Text(t)) => Some(t),
        _ => None,
    }
}

/// What an optional string field is read as: nothing where the key is
/// absent or holds `null`, the string where it holds one, and no reading
/// (the outer `None`) where it holds anything else.
pub open spec fn optional_text_member(document: JsonModel, key: Seq<char>) -> Option<
    Option<Seq<char>>,
> {
    match document.member(key) {
        None => Some(None),
        Some(JsonModel::Null) => Some(None),
        Some(JsonModel::Text(t)) => Some(Some(t)),
        Some(_) => None,
    }
}

/// The characters of an optional string.
pub open spec fn optional_text_model(text: Option<String>) -> Option<Seq<char>> {
    match text {
        Some(t) => Some(t@),
        None => None,
    }
}

/// Copies the string under `key`.
pub fn read_text(document: &JsonValue, key: &str) -> (text: Option<String>)
    ensures
        optional_text_model(text) == text_member(document@, key@),
{
    match document.get(key) {
        None => None,
        Some(v) => match v.as_text() {
            Some(t) => Some(t.to_owned()),
            None => None,
        },
    }
}

/// Copies the optional string under `key`.
pub fn read_optional_text(document: &JsonValue, key: &str) -> (text: Option<Option<String>>)
    ensures
        match text {
            Some(t) => optional_text_member(document@, key@) == Some(optional_text_model(t)),
            None => optional_text_member(document@, key@) is None,
        },
{
    match document.get(key) {
        None => Some(None),
        Some(v) => match v.as_text() {
            Some(t) => Some(Some(t.to_owned())),
            None => if v.is_null() {
                Some(None)
            } else {
                None
            },
        },
    }
}

/// The name and version of a client or server program.
#[derive(Debug, PartialEq, Eq)]
pub struct Implementation {
    pub name: String,
    pub version: String,
}

/// An `Implementation` as a mathematical value.
pub struct ImplementationModel {
    pub name: Seq<char>,
    pub version: Seq<char>,
}

impl View for Implementation {
    type V = ImplementationModel;

    open spec fn view(&self) -> ImplementationModel {
        ImplementationModel { name: self.name@, version: self.version@ }
    }
}

impl ImplementationModel {
    /// The document an implementation is written as.
    pub open spec fn to_json(self) -> JsonModel {
        JsonModel::Object(
            Map::empty().insert("name"@, JsonModel::Text(self.name)).insert(
                "version"@,
                JsonModel::Text(self.version),
            ),
        )
    }

    /// The implementation that a document is read as.
    pub open spec fn from_json(document: JsonModel) -> Option<ImplementationModel> {
        match (text_member(document, "name"@), text_member(document, "version"@)) {
            (Some(name), Some(version)) => Some(ImplementationModel { name, version }),
            _ => None,
        }
    }
}

impl Implementation {
    /// An implementation with the given name and version.
    pub fn new(name: &str, version: &str) -> (implementation: Implementation)
        ensures
            implementation@ == (ImplementationModel { name: name@, version: version@ }),
    {
        Implementation { name: name.to_owned(), version: version.to_owned() }
    }

    /// Builds the document of this implementation.
    pub fn to_json(&self) -> (document: JsonValue)
        ensures
            document@ == self@.to_json(),
    {
        let mut members: Vec<Member> = Vec::new();
        put(&mut members, "name", JsonValue::Text(self.name.clone()));
        put(&mut members, "version", JsonValue::Text(self.version.clone()));
        JsonValue::Object(members)
    }

    /// Reads an implementation: an object with a string `name` and a
    /// string `version`.
    pub fn from_json(document: &JsonValue) -> (implementation: Option<Implementation>)
        ensures
            match implementation {
                Some(i) => ImplementationModel::from_json(document@) == Some(i@),
                None => ImplementationModel::from_json(document@) is None,
            },
    {
        let name = read_text(document, "name")?;
        let version = read_text(document, "version")?;
        Some(Implementation { name, version })
    }
}

/// What a client announces that it can do. The session does not look
/// inside: it hands the document on.
#[derive(Debug, PartialEq, Eq)]
pub struct ClientCapabilities {
    pub document: JsonValue,
}

impl View for ClientCapabilities {
    type V = JsonModel;

    open spec fn view(&self) -> JsonModel {
        self.document@
    }
}

impl Default for ClientCapabilities {
    /// No capabilities: the empty object.
    fn default() -> (capabilities: ClientCapabilities)
        ensures
            capabilities@ == JsonModel::Object(Map::empty()),
    {
        ClientCapabilities { document: JsonValue::empty_object() }
    }
}

/// What a server announces that it can do. The session keeps the document
/// and does not look inside.
#[derive(Debug, PartialEq, Eq)]
pub struct ServerCapabilities {
    pub document: JsonValue,
}

impl View for ServerCapabilities {
    type V = JsonModel;

    open spec fn view(&self) -> JsonModel {
        self.document@
    }
}

impl Clone for ServerCapabilities {
    fn clone(&self) -> (copy: ServerCapabilities)
        ensures
            copy@ == self@,
    {
        ServerCapabilities { document: self.document.clone() }
    }
}

/// The document of optional capabilities.
pub open spec fn optional_capabilities_model(capabilities: Option<ServerCapabilities>) -> Option<
    JsonModel,
> {
    match capabilities {
        Some(c) => Some(c@),
        None => None,
    }
}

/// The result of `initialize`.
#[derive(Debug, PartialEq, Eq)]
pub struct InitializeResult {
    pub protocol_version: String,
    pub capabilities: ServerCapabilities,
    pub server_info: Implementation,
}

/// An `InitializeResult` as a mathematical value.
pub struct InitializeResultModel {
    pub protocol_version: Seq<char>,
    pub capabilities: JsonModel,
    pub server_info: ImplementationModel,
}

impl View for InitializeResult {
    type V = InitializeResultModel;

    open spec fn view(&self) -> InitializeResultModel {
        InitializeResultModel {
            protocol_version: self.protocol_version@,
            capabilities: self.capabilities@,
            server_info: self.server_info@,
        }
    }
}

impl InitializeResultModel {
    /// The result that a document is read as: it needs a string
    /// `protocolVersion`, some `capabilities`, and a `serverInfo` that is
    /// an implementation.
    pub open spec fn from_json(document: JsonModel) -> Option<InitializeResultModel> {
        match (
            text_member(document, "protocolVersion"@),
            document.member("capabilities"@),
            document.member("serverInfo"@),
        ) {
            (Some(protocol_version), Some(capabilities), Some(info)) => match ImplementationModel::from_json(
                info,
            ) {
                Some(server_info) => Some(
                    InitializeResultModel { protocol_version, capabilities, server_info },
                ),
                None => None,
            },
            _ => None,
        }
    }
}

impl InitializeResult {
    /// Reads the result of `initialize`.
    pub fn from_json(document: &JsonValue) -> (result: Option<InitializeResult>)
        ensures
            match result {
                Some(r) => InitializeResultModel::from_json(document@) == Some(r@),
                None => InitializeResultModel::from_json(document@) is None,
            },
    {
        let protocol_version = read_text(document, "protocolVersion")?;
        let capabilities = document.get("capabilities")?;
        let info = document.get("serverInfo")?;
        let server_info = Implementation::from_json(info)?;
        Some(
            InitializeResult {
                protocol_version,
                capabilities: ServerCapabilities { document: capabilities.clone() },
                server_info,
            },
        )
    }
}

/// A tool that a server offers.
#[derive(Debug, PartialEq, Eq)]
pub struct Tool {
    pub name: String,
    pub description: String,
    pub input_schema: JsonValue,
}

/// A `Tool` as a mathematical value.
pub struct ToolModel {
    pub name: Seq<char>,
    pub description: Seq<char>,
    pub input_schema: JsonModel,
}

impl View for Tool {
    type V = ToolModel;

    open spec fn view(&self) -> ToolModel {
        ToolModel {
            name: self.name@,
            description: self.description@,
            input_schema: self.input_schema@,
        }
    }
}

impl Clone for Tool {
    fn clone(&self) -> (copy: Tool)
        ensures
            copy@ == self@,
    {
        Tool {
            name: self.name.clone(),
            description: self.description.clone(),
            input_schema: self.input_schema.clone(),
        }
    }
}

impl ToolModel {
    /// The tool that a document is read as: it needs a string `name`, a
    /// string `description` and an `inputSchema`.
    pub open spec fn from_json(document: JsonModel) -> Option<ToolModel> {
        match (
            text_member(document, "name"@),
            text_member(document, "description"@),
            document.member("inputSchema"@),
        ) {
            (Some(name), Some(description), Some(input_schema)) => Some(
                ToolModel { name, description, input_schema },
            ),
            _ => None,
        }
    }
}

impl Tool {
    /// Reads a tool.
    pub fn from_json(document: &JsonValue) -> (tool: Option<Tool>)
        ensures
            match tool {
                Some(t) => ToolModel::from_json(document@) == Some(t@),
                None => ToolModel::from_json(document@) is None,
            },
    {
        let name = read_text(document, "name")?;
        let description = read_text(document, "description")?;
        let input_schema = document.get("inputSchema")?;
        Some(Tool { name, description, input_schema: input_schema.clone() })
    }
}

/// The tools that a sequence of `Tool` values denotes.
pub open spec fn tools_model(tools: Seq<Tool>) -> Seq<ToolModel> {
    Seq::new(tools.len(), |i: int| tools[i]@)
}

/// The tools that the items of an array are read as, if each is a tool.
pub open spec fn decode_tools(items: Seq<JsonModel>) -> Option<Seq<ToolModel>> {
    if forall|i: int| 0 <= i < items.len() ==> (#[trigger] ToolModel::from_json(items[i])) is Some {
        Some(Seq::new(items.len(), |i: int| ToolModel::from_json(items[i])->0))
    } else {
        None
    }
}

/// The result of `tools/list`.
#[derive(Debug, PartialEq, Eq)]
pub struct ListToolsResult {
    pub tools: Vec<Tool>,
}

impl View for ListToolsResult {
    type V = Seq<ToolModel>;

    open spec fn view(&self) -> Seq<ToolModel> {
        tools_model(self.tools@)
    }
}

/// The tool list that a document is read as: it needs an array `tools`
/// whose every item is a tool.
pub open spec fn decode_tool_list(document: JsonModel) -> Option<Seq<ToolModel>> {
    match document.member("tools"@) {
        Some(JsonModel::Array(items)) => decode_tools(items),
        _ => None,
    }
}

/// The first tool of the given name, if there is one.
pub open spec fn first_tool_named(tools: Seq<ToolModel>, name: Seq<char>) -> Option<ToolModel>
    decreases tools.len(),
{
    if tools.len() == 0 {
        None
    } else if tools[0].name == name {
        Some(tools[0])
    } else {
        first_tool_named(tools.drop_first(), name)
    }
}

impl ListToolsResult {
    /// Reads the result of `tools/list`.
    pub fn from_json(document: &JsonValue) -> (result: Option<ListToolsResult>)
        ensures
            match result {
                Some(r) => decode_tool_list(document@) == Some(r@),
                None => decode_tool_list(document@) is None,
            },
    {
        let listed = document.get("tools")?;
        let items = listed.as_array()?;
        let mut tools: Vec<Tool> = Vec::new();
        let mut i: usize = 0;
        while i < items.len()
            invariant
                i <= items.len(),
                tools.len() == i,
                document@.member("tools"@) == Some(JsonModel::Array(items_model(items@))),
                forall|j: int|
                    0 <= j < i ==> (#[trigger] ToolModel::from_json(items_model(items@)[j]))
                        == Some(tools@[j]@),
            decreases items.len() - i,
        {
            match Tool::from_json(&items[i]) {
                Some(tool) => {
                    tools.push(tool);
                },
                None => {
                    assert(ToolModel::from_json(items_model(items@)[i as int]) is None);
                    return None;
                },
            }
            i += 1;
        }
        assert(decode_tools(items_model(items@))->0 =~= tools_model(tools@));
        Some(ListToolsResult { tools })
    }
}

impl ListToolsResult {
    /// The first tool of the given name.
    pub fn find(&self, name: &str) -> (tool: Option<Tool>)
        ensures
            match tool {
                Some(t) => first_tool_named(self@, name@) == Some(t@),
                None => first_tool_named(self@, name@) is None,
            },
    {
        let mut i: usize = 0;
        assert(self@.skip(0) =~= self@);
        while i < self.tools.len()
            invariant
                i <= self.tools.len(),
                first_tool_named(self@, name@) == first_tool_named(self@.skip(i as int), name@),
            decreases self.tools.len() - i,
        {
            let rest = Ghost(self@.skip(i as int));
            assert(rest@[0] == self.tools@[i as int]@);
            assert(rest@.drop_first() =~= self@.skip(i + 1));
            if same_text(self.tools[i].name.as_str(), name) {
                return Some(self.tools[i].clone());
            }
            i += 1;
        }
        assert(self@.skip(i as int).len() == 0);
        None
    }
}

/// One block of what a tool returned.
#[derive(Debug, PartialEq, Eq)]
pub enum MessageContent {
    Text { text: String },
    Image { data: String, mime_type: String },
    Resource { resource: JsonValue },
}

/// A `MessageContent` as a mathematical value.
pub enum ContentModel {
    Text { text: Seq<char> },
    Image { data: Seq<char>, mime_type: Seq<char> },
    Resource { resource: JsonModel },
}

impl View for MessageContent {
    type V = ContentModel;

    open spec fn view(&self) -> ContentModel {
        match *self {
            MessageContent::Text { text } => ContentModel::Text { text: text@ },
            MessageContent::Image { data, mime_type } => ContentModel::Image {
                data: data@,
                mime_type: mime_type@,
            },
            MessageContent::Resource { resource } => ContentModel::Resource { resource: resource@ },
        }
    }
}

impl ContentModel {
    /// The block that a document is read as. Its `type` says which kind it
    /// is: `text` with a string `text`, `image` with strings `data` and
    /// `mimeType`, or `resource` with a `resource`.
    pub open spec fn from_json(document: JsonModel) -> Option<ContentModel> {
        match text_member(document, "type"@) {
            Some(kind) => if kind == "text"@ {
                match text_member(document, "text"@) {
                    Some(text) => Some(ContentModel::Text { text }),
                    None => None,
                }
            } else if kind == "image"@ {
                match (text_member(document, "data"@), text_member(document, "mimeType"@)) {
                    (Some(data), Some(mime_type)) => Some(ContentModel::Image { data, mime_type }),
                    _ => None,
                }
            } else if kind == "resource"@ {
                match document.member("resource"@) {
                    Some(resource) => Some(ContentModel::Resource { resource }),
                    None => None,
                }
            } else {
                None
            },
            None => None,
        }
    }
}

impl MessageContent {
    /// Reads a content block.
    pub fn from_json(document: &JsonValue) -> (block: Option<MessageContent>)
        ensures
            match block {
                Some(b) => ContentModel::from_json(document@) == Some(b@),
                None => ContentModel::from_json(document@) is None,
            },
    {
        let kind = read_text(document, "type")?;
        if same_text(kind.as_str(), "text") {
            let text = read_text(document, "text")?;
            Some(MessageContent::Text { text })
        } else if same_text(kind.as_str(), "image") {
            let data = read_text(document, "data")?;
            let mime_type = read_text(document, "mimeType")?;
            Some(MessageContent::Image { data, mime_type })
        } else if same_text(kind.as_str(), "resource") {
            let resource = document.get("resource")?;
            Some(MessageContent::Resource { resource: resource.clone() })
        } else {
            None
        }
    }
}

/// The blocks that a sequence of `MessageContent` values denotes.
pub open spec fn content_model(content: Seq<MessageContent>) -> Seq<ContentModel> {
    Seq::new(content.len(), |i: int| content[i]@)
}

/// The blocks that the items of an array are read as, if each is a block.
pub open spec fn decode_content(items: Seq<JsonModel>) -> Option<Seq<ContentModel>> {
    if forall|i: int|
        0 <= i < items.len() ==> (#[trigger] ContentModel::from_json(items[i])) is Some {
        Some(Seq::new(items.len(), |i: int| ContentModel::from_json(items[i])->0))
    } else {
        None
    }
}

/// The text of the first `n` blocks: the text of each text block among
/// them, in order, with a line feed between one and the next.
pub open spec fn joined_text(content: Seq<ContentModel>, n: nat) -> Seq<char>
    decreases n,
{
    if n == 0 || n > content.len() {
        Seq::empty()
    } else {
        match content[n - 1] {
            ContentModel::Text { text } => if text_count(content, (n - 1) as nat) == 0 {
                text
            } else {
                joined_text(content, (n - 1) as nat) + "\n"@ + text
            },
            _ => joined_text(content, (n - 1) as nat),
        }
    }
}

/// How many of the first `n` blocks are text blocks.
pub open spec fn text_count(content: Seq<ContentModel>, n: nat) -> nat
    decreases n,
{
    if n == 0 || n > content.len() {
        0
    } else if content[n - 1] is Text {
        text_count(content, (n - 1) as nat) + 1
    } else {
        text_count(content, (n - 1) as nat)
    }
}

/// Blocks without a text block have no text.
pub proof fn lemma_no_text_is_empty(content: Seq<ContentModel>, n: nat)
    requires
        text_count(content, n) == 0,
    ensures
        joined_text(content, n) == Seq::<char>::empty(),
    decreases n,
{
    if n > 0 && n <= content.len() {
        lemma_no_text_is_empty(content, (n - 1) as nat);
    }
}

/// Whether `part` stands somewhere in `whole`, character for character.
pub open spec fn occurs_in(part: Seq<char>, whole: Seq<char>) -> bool {
    exists|k: int|
        0 <= k && k + part.len() <= whole.len() && #[trigger] whole.subrange(k, k + part.len())
            == part
}

/// Where one of the first `n` blocks is a text block, they are not without
/// text blocks.
pub proof fn lemma_text_block_counts(content: Seq<ContentModel>, n: nat, i: int)
    requires
        0 <= i < n <= content.len(),
        content[i] is Text,
    ensures
        text_count(content, n) > 0,
    decreases n,
{
    if i < n - 1 {
        lemma_text_block_counts(content, (n - 1) as nat, i);
    }
}

/// The text of the blocks holds the text of every text block among them.
pub proof fn lemma_text_holds_every_block(content: Seq<ContentModel>, n: nat, i: int)
    requires
        0 <= i < n <= content.len(),
        content[i] is Text,
    ensures
        occurs_in(content[i]->Text_text, joined_text(content, n)),
    decreases n,
{
    let part = content[i]->Text_text;
    let whole = joined_text(content, n);
    let before = joined_text(content, (n - 1) as nat);
    if i == n - 1 {
        let k = whole.len() - part.len();
        assert(whole.subrange(k, k + part.len()) =~= part);
    } else {
        lemma_text_holds_every_block(content, (n - 1) as nat, i);
        lemma_text_block_counts(content, (n - 1) as nat, i);
        let k = choose|k: int|
            0 <= k && k + part.len() <= before.len() && #[trigger] before.subrange(
                k,
                k + part.len(),
            ) == part;
        assert(whole.subrange(k, k + part.len()) =~= before.subrange(k, k + part.len()));
    }
}

/// What a tool returned.
#[derive(Debug, PartialEq, Eq)]
pub struct CallToolResult {
    pub content: Vec<MessageContent>,
    pub is_error: bool,
}

/// A `CallToolResult` as a mathematical value.
pub struct CallToolResultModel {
    pub content: Seq<ContentModel>,
    pub is_error: bool,
}

impl View for CallToolResult {
    type V = CallToolResultModel;

    open spec fn view(&self) -> CallToolResultModel {
        CallToolResultModel { content: content_model(self.content@), is_error: self.is_error }
    }
}

impl CallToolResultModel {
    /// The result that a document is read as: it needs an array `content`
    /// of blocks; `isError` is a truth value, and false where it is absent.
    pub open spec fn from_json(document: JsonModel) -> Option<CallToolResultModel> {
        match document.member("content"@) {
            Some(JsonModel::Array(items)) => match decode_content(items) {
                Some(content) => match document.member("isError"@) {
                    None => Some(CallToolResultModel { content, is_error: false }),
                    Some(JsonModel::Bool(is_error)) => Some(
                        CallToolResultModel { content, is_error },
                    ),
                    Some(_) => None,
                },
                None => None,
            },
            _ => None,
        }
    }

    /// The text of all text blocks, one per line.
    pub open spec fn text(self) -> Seq<char> {
        joined_text(self.content, self.content.len())
    }
}

impl CallToolResult {
    /// Reads the result of `tools/call`.
    pub fn from_json(document: &JsonValue) -> (result: Option<CallToolResult>)
        ensures
            match result {
                Some(r) => CallToolResultModel::from_json(document@) == Some(r@),
                None => CallToolResultModel::from_json(document@) is None,
            },
    {
        let listed = document.get("content")?;
        let items = listed.as_array()?;
        let mut content: Vec<MessageContent> = Vec::new();
        let mut i: usize = 0;
        while i < items.len()
            invariant
                i <= items.len(),
                content.len() == i,
                document@.member("content"@) == Some(JsonModel::Array(items_model(items@))),
                forall|j: int|
                    0 <= j < i ==> (#[trigger] ContentModel::from_json(items_model(items@)[j]))
                        == Some(content@[j]@),
            decreases items.len() - i,
        {
            match MessageContent::from_json(&items[i]) {
                Some(block) => {
                    content.push(block);
                },
                None => {
                    assert(ContentModel::from_json(items_model(items@)[i as int]) is None);
                    return None;
                },
            }
            i += 1;
        }
        assert(decode_content(items_model(items@))->0 =~= content_model(content@));
        let is_error = match document.get("isError") {
            None => false,
            Some(flag) => flag.as_bool()?,
        };
        Some(CallToolResult { content, is_error })
    }

    /// The text of all text blocks, one per line.
    pub fn text(&self) -> (text: String)
        ensures
            text@ == self@.text(),
    {
        let mut text = String::new();
        let mut seen: usize = 0;
        let mut i: usize = 0;
        while i < self.content.len()
            invariant
                i <= self.content.len(),
                seen <= i,
                seen == text_count(self@.content, i as nat),
                text@ == joined_text(self@.content, i as nat),
            decreases self.content.len() - i,
        {
            match &self.content[i] {
                MessageContent::Text { text: line } => {
                    proof {
                        if seen == 0 {
                            lemma_no_text_is_empty(self@.content, i as nat);
                        }
                    }
                    if seen > 0 {
                        text.append("\n");
                    }
                    text.append(line.as_str());
                    assert(text@ =~= joined_text(self@.content, (i + 1) as nat));
                    seen += 1;
                },
                _ => {},
            }
            i += 1;
        }
        text
    }

    /// Turns a failure that the tool reported into an error: a result with
    /// `is_error` set becomes `ToolExecutionFailed`, with the text of the
    /// result as its message; any other result is handed back.
    pub fn into_outcome(self, tool: &str) -> (r: Result<CallToolResult, ClientError>)
        ensures
            match r {
                Ok(result) => !self.is_error && result@ == self@,
                Err(e) => self.is_error && e@ == (ClientErrorModel::ToolExecutionFailed {
                    tool: tool@,
                    message: self@.text(),
                }),
            },
    {
        if self.is_error {
            Err(ClientError::ToolExecutionFailed { tool: tool.to_owned(), message: self.text() })
        } else {
            Ok(self)
        }
    }
}

} // verus!
