//! The typed results of the resource and prompt operations.

use vstd::prelude::*;
use crate::error::{unexpected_shape, ClientError};
use crate::json::{items_model, JsonModel, JsonValue};
use crate::types::{
    optional_text_member, optional_text_model, read_optional_text, read_text, text_member,
    ContentModel, MessageContent,
};

verus! {

/// A resource that a server offers.
#[derive(Debug, PartialEq, Eq)]
pub struct Resource {
    pub uri: String,
    pub name: String,
    pub description: Option<String>,
    pub mime_type: Option<String>,
}

/// A `Resource` as a mathematical value.
pub struct ResourceModel {
    pub uri: Seq<char>,
    pub name: Seq<char>,
    pub description: Option<Seq<char>>,
    pub mime_type: Option<Seq<char>>,
}

impl View for Resource {
    type V = ResourceModel;

    open spec fn view(&self) -> ResourceModel {
        ResourceModel {
            uri: self.uri@,
            name: self.name@,
            description: optional_text_model(self.description),
            mime_type: optional_text_model(self.mime_type),
        }
    }
}

impl ResourceModel {
    /// The resource that a document is read as: it needs strings `uri` and
    /// `name`; `description` and `mimeType` are strings where they are
    /// there.
    pub open spec fn from_json(document: JsonModel) -> Option<ResourceModel> {
        match (
            text_member(document, "uri"@),
            text_member(document, "name"@),
            optional_text_member(document, "description"@),
            optional_text_member(document, "mimeType"@),
        ) {
            (Some(uri), Some(name), Some(description), Some(mime_type)) => Some(
                ResourceModel { uri, name, description, mime_type },
            ),
            _ => None,
        }
    }
}

impl Resource {
    /// Reads a resource.
    pub fn from_json(document: &JsonValue) -> (resource: Option<Resource>)
        ensures
            match resource {
                Some(r) => ResourceModel::from_json(document@) == Some(r@),
                None => ResourceModel::from_json(document@) is None,
            },
    {
        let uri = read_text(document, "uri")?;
        let name = read_text(document, "name")?;
        let description = read_optional_text(document, "description")?;
        let mime_type = read_optional_text(document, "mimeType")?;
        Some(Resource { uri, name, description, mime_type })
    }
}

/// The resources that a sequence of `Resource` values denotes.
pub open spec fn resources_model(resources: Seq<Resource>) -> Seq<ResourceModel> {
    Seq::new(resources.len(), |i: int| resources[i]@)
}

/// The resources that the items of an array are read as, if each is one.
pub open spec fn decode_resources(items: Seq<JsonModel>) -> Option<Seq<ResourceModel>> {
    if forall|i: int|
        0 <= i < items.len() ==> (#[trigger] ResourceModel::from_json(items[i])) is Some {
        Some(Seq::new(items.len(), |i: int| ResourceModel::from_json(items[i])->0))
    } else {
        None
    }
}

/// The resource list that a document is read as: it needs an array
/// `resources` whose every item is a resource.
pub open spec fn decode_resource_list(document: JsonModel) -> Option<Seq<ResourceModel>> {
    match document.member("resources"@) {
        Some(JsonModel::Array(items)) => decode_resources(items),
        _ => None,
    }
}

/// The result of `resources/list`.
#[derive(Debug, PartialEq, Eq)]
pub struct ListResourcesResult {
    pub resources: Vec<Resource>,
}

impl View for ListResourcesResult {
    type V = Seq<ResourceModel>;

    open spec fn view(&self) -> Seq<ResourceModel> {
        resources_model(self.resources@)
    }
}

impl ListResourcesResult {
    /// Reads the result of `resources/list`.
    pub fn from_json(document: &JsonValue) -> (r: Result<ListResourcesResult, ClientError>)
        ensures
            match r {
                Ok(result) => decode_resource_list(document@) == Some(result@),
                Err(e) => decode_resource_list(document@) is None && e@ == unexpected_shape(),
            },
    {
        let items = match document.get("resources") {
            None => {
                return Err(ClientError::unexpected_shape());
            },
            Some(listed) => match listed.as_array() {
                None => {
                    return Err(ClientError::unexpected_shape());
                },
                Some(items) => items,
            },
        };
        let mut resources: Vec<Resource> = Vec::new();
        let mut i: usize = 0;
        while i < items.len()
            invariant
                i <= items.len(),
                resources.len() == i,
                document@.member("resources"@) == Some(JsonModel::Array(items_model(items@))),
                forall|j: int|
                    0 <= j < i ==> (#[trigger] ResourceModel::from_json(items_model(items@)[j]))
                        == Some(resources@[j]@),
            decreases items.len() - i,
        {
            match Resource::from_json(&items[i]) {
                Some(resource) => {
                    resources.push(resource);
                },
                None => {
                    assert(ResourceModel::from_json(items_model(items@)[i as int]) is None);
                    return Err(ClientError::unexpected_shape());
                },
            }
            i += 1;
        }
        assert(decode_resources(items_model(items@))->0 =~= resources_model(resources@));
        Ok(ListResourcesResult { resources })
    }
}

/// What a resource holds: text, or bytes in base64.
#[derive(Debug, PartialEq, Eq)]
pub enum ResourceContents {
    Text { uri: String, mime_type: Option<String>, text: String },
    Blob { uri: String, mime_type: Option<String>, blob: String },
}

/// A `ResourceContents` as a mathematical value.
pub enum ResourceContentsModel {
    Text { uri: Seq<char>, mime_type: Option<Seq<char>>, text: Seq<char> },
    Blob { uri: Seq<char>, mime_type: Option<Seq<char>>, blob: Seq<char> },
}

impl View for ResourceContents {
    type V = ResourceContentsModel;

    open spec fn view(&self) -> ResourceContentsModel {
        match *self {
            ResourceContents::Text { uri, mime_type, text } => ResourceContentsModel::Text {
                uri: uri@,
                mime_type: optional_text_model(mime_type),
                text: text@,
            },
            ResourceContents::Blob { uri, mime_type, blob } => ResourceContentsModel::Blob {
                uri: uri@,
                mime_type: optional_text_model(mime_type),
                blob: blob@,
            },
        }
    }
}

impl ResourceContentsModel {
    /// The contents that a document is read as: it needs a string `uri`,
    /// and a string `text` or else a string `blob`; `mimeType` is a string
    /// where it is there.
    pub open spec fn from_json(document: JsonModel) -> Option<ResourceContentsModel> {
        match (text_member(document, "uri"@), optional_text_member(document, "mimeType"@)) {
            (Some(uri), Some(mime_type)) => match text_member(document, "text"@) {
                Some(text) => Some(ResourceContentsModel::Text { uri, mime_type, text }),
                None => match text_member(document, "blob"@) {
                    Some(blob) => Some(ResourceContentsModel::Blob { uri, mime_type, blob }),
                    None => None,
                },
            },
            _ => None,
        }
    }
}

impl ResourceContents {
    /// Reads the contents of a resource.
    pub fn from_json(document: &JsonValue) -> (contents: Option<ResourceContents>)
        ensures
            match contents {
                Some(c) => ResourceContentsModel::from_json(document@) == Some(c@),
                None => ResourceContentsModel::from_json(document@) is None,
            },
    {
        let uri = read_text(document, "uri")?;
        let mime_type = read_optional_text(document, "mimeType")?;
        match read_text(document, "text") {
            Some(text) => Some(ResourceContents::Text { uri, mime_type, text }),
            None => {
                let blob = read_text(document, "blob")?;
                Some(ResourceContents::Blob { uri, mime_type, blob })
            },
        }
    }
}

/// The contents that a sequence of `ResourceContents` values denotes.
pub open spec fn contents_model(contents: Seq<ResourceContents>) -> Seq<ResourceContentsModel> {
    Seq::new(contents.len(), |i: int| contents[i]@)
}

/// The contents that the items of an array are read as, if each is one.
pub open spec fn decode_contents(items: Seq<JsonModel>) -> Option<Seq<ResourceContentsModel>> {
    if forall|i: int|
        0 <= i < items.len() ==> (#[trigger] ResourceContentsModel::from_json(items[i])) is Some {
        Some(Seq::new(items.len(), |i: int| ResourceContentsModel::from_json(items[i])->0))
    } else {
        None
    }
}

/// The result of `resources/read` that a document is read as: it needs an
/// array `contents` whose every item is the contents of a resource.
pub open spec fn decode_read_resource(document: JsonModel) -> Option<Seq<ResourceContentsModel>> {
    match document.member("contents"@) {
        Some(JsonModel::Array(items)) => decode_contents(items),
        _ => None,
    }
}

/// The result of `resources/read`.
#[derive(Debug, PartialEq, Eq)]
pub struct ReadResourceResult {
    pub contents: Vec<ResourceContents>,
}

impl View for ReadResourceResult {
    type V = Seq<ResourceContentsModel>;

    open spec fn view(&self) -> Seq<ResourceContentsModel> {
        contents_model(self.contents@)
    }
}

impl ReadResourceResult {
    /// Reads the result of `resources/read`.
    pub fn from_json(document: &JsonValue) -> (r: Result<ReadResourceResult, ClientError>)
        ensures
            match r {
                Ok(result) => decode_read_resource(document@) == Some(result@),
                Err(e) => decode_read_resource(document@) is None && e@ == unexpected_shape(),
            },
    {
        let items = match document.get("contents") {
            None => {
                return Err(ClientError::unexpected_shape());
            },
            Some(listed) => match listed.as_array() {
                None => {
                    return Err(ClientError::unexpected_shape());
                },
                Some(items) => items,
            },
        };
        let mut contents: Vec<ResourceContents> = Vec::new();
        let mut i: usize = 0;
        while i < items.len()
            invariant
                i <= items.len(),
                contents.len() == i,
                document@.member("contents"@) == Some(JsonModel::Array(items_model(items@))),
                forall|j: int|
                    0 <= j < i ==> (#[trigger] ResourceContentsModel::from_json(
                        items_model(items@)[j],
                    )) == Some(contents@[j]@),
            decreases items.len() - i,
        {
            match ResourceContents::from_json(&items[i]) {
                Some(item) => {
                    contents.push(item);
                },
                None => {
                    assert(ResourceContentsModel::from_json(items_model(items@)[i as int]) is None);
                    return Err(ClientError::unexpected_shape());
                },
            }
            i += 1;
        }
        assert(decode_contents(items_model(items@))->0 =~= contents_model(contents@));
        Ok(ReadResourceResult { contents })
    }
}

/// A prompt that a server offers.
#[derive(Debug, PartialEq, Eq)]
pub struct Prompt {
    pub name: String,
    pub description: Option<String>,
}

/// A `Prompt` as a mathematical value.
pub struct PromptModel {
    pub name: Seq<char>,
    pub description: Option<Seq<char>>,
}

impl View for Prompt {
    type V = PromptModel;

    open spec fn view(&self) -> PromptModel {
        PromptModel { name: self.name@, description: optional_text_model(self.description) }
    }
}

impl PromptModel {
    /// The prompt that a document is read as: it needs a string `name`;
    /// `description` is a string where it is there.
    pub open spec fn from_json(document: JsonModel) -> Option<PromptModel> {
        match (text_member(document, "name"@), optional_text_member(document, "description"@)) {
            (Some(name), Some(description)) => Some(PromptModel { name, description }),
            _ => None,
        }
    }
}

impl Prompt {
    /// Reads a prompt.
    pub fn from_json(document: &JsonValue) -> (prompt: Option<Prompt>)
        ensures
            match prompt {
                Some(p) => PromptModel::from_json(document@) == Some(p@),
                None => PromptModel::from_json(document@) is None,
            },
    {
        let name = read_text(document, "name")?;
        let description = read_optional_text(document, "description")?;
        Some(Prompt { name, description })
    }
}

/// The prompts that a sequence of `Prompt` values denotes.
pub open spec fn prompts_model(prompts: Seq<Prompt>) -> Seq<PromptModel> {
    Seq::new(prompts.len(), |i: int| prompts[i]@)
}

/// The prompts that the items of an array are read as, if each is one.
pub open spec fn decode_prompts(items: Seq<JsonModel>) -> Option<Seq<PromptModel>> {
    if forall|i: int| 0 <= i < items.len() ==> (#[trigger] PromptModel::from_json(items[i])) is Some {
        Some(Seq::new(items.len(), |i: int| PromptModel::from_json(items[i])->0))
    } else {
        None
    }
}

/// The prompt list that a document is read as: it needs an array `prompts`
/// whose every item is a prompt.
pub open spec fn decode_prompt_list(document: JsonModel) -> Option<Seq<PromptModel>> {
    match document.member("prompts"@) {
        Some(JsonModel::Array(items)) => decode_prompts(items),
        _ => None,
    }
}

/// The result of `prompts/list`.
#[derive(Debug, PartialEq, Eq)]
pub struct ListPromptsResult {
    pub prompts: Vec<Prompt>,
}

impl View for ListPromptsResult {
    type V = Seq<PromptModel>;

    open spec fn view(&self) -> Seq<PromptModel> {
        prompts_model(self.prompts@)
    }
}

impl ListPromptsResult {
    /// Reads the result of `prompts/list`.
    pub fn from_json(document: &JsonValue) -> (r: Result<ListPromptsResult, ClientError>)
        ensures
            match r {
                Ok(result) => decode_prompt_list(document@) == Some(result@),
                Err(e) => decode_prompt_list(document@) is None && e@ == unexpected_shape(),
            },
    {
        let items = match document.get("prompts") {
            None => {
                return Err(ClientError::unexpected_shape());
            },
            Some(listed) => match listed.as_array() {
                None => {
                    return Err(ClientError::unexpected_shape());
                },
                Some(items) => items,
            },
        };
        let mut prompts: Vec<Prompt> = Vec::new();
        let mut i: usize = 0;
        while i < items.len()
            invariant
                i <= items.len(),
                prompts.len() == i,
                document@.member("prompts"@) == Some(JsonModel::Array(items_model(items@))),
                forall|j: int|
                    0 <= j < i ==> (#[trigger] PromptModel::from_json(items_model(items@)[j]))
                        == Some(prompts@[j]@),
            decreases items.len() - i,
        {
            match Prompt::from_json(&items[i]) {
                Some(prompt) => {
                    prompts.push(prompt);
                },
                None => {
                    assert(PromptModel::from_json(items_model(items@)[i as int]) is None);
                    return Err(ClientError::unexpected_shape());
                },
            }
            i += 1;
        }
        assert(decode_prompts(items_model(items@))->0 =~= prompts_model(prompts@));
        Ok(ListPromptsResult { prompts })
    }
}

/// One message of a prompt.
#[derive(Debug, PartialEq, Eq)]
pub struct PromptMessage {
    pub role: String,
    pub content: MessageContent,
}

/// A `PromptMessage` as a mathematical value.
pub struct PromptMessageModel {
    pub role: Seq<char>,
    pub content: ContentModel,
}

impl View for PromptMessage {
    type V = PromptMessageModel;

    open spec fn view(&self) -> PromptMessageModel {
        PromptMessageModel { role: self.role@, content: self.content@ }
    }
}

impl PromptMessageModel {
    /// The prompt message that a document is read as: it needs a string
    /// `role` and a `content` that is a content block.
    pub open spec fn from_json(document: JsonModel) -> Option<PromptMessageModel> {
        match (text_member(document, "role"@), document.member("content"@)) {
            (Some(role), Some(block)) => match ContentModel::from_json(block) {
                Some(content) => Some(PromptMessageModel { role, content }),
                None => None,
            },
            _ => None,
        }
    }
}

impl PromptMessage {
    /// Reads a prompt message.
    pub fn from_json(document: &JsonValue) -> (message: Option<PromptMessage>)
        ensures
            match message {
                Some(m) => PromptMessageModel::from_json(document@) == Some(m@),
                None => PromptMessageModel::from_json(document@) is None,
            },
    {
        let role = read_text(document, "role")?;
        let block = document.get("content")?;
        let content = MessageContent::from_json(block)?;
        Some(PromptMessage { role, content })
    }
}

/// The messages that a sequence of `PromptMessage` values denotes.
pub open spec fn prompt_messages_model(messages: Seq<PromptMessage>) -> Seq<PromptMessageModel> {
    Seq::new(messages.len(), |i: int| messages[i]@)
}

/// The messages that the items of an array are read as, if each is one.
pub open spec fn decode_prompt_messages(items: Seq<JsonModel>) -> Option<Seq<PromptMessageModel>> {
    if forall|i: int|
        0 <= i < items.len() ==> (#[trigger] PromptMessageModel::from_json(items[i])) is Some {
        Some(Seq::new(items.len(), |i: int| PromptMessageModel::from_json(items[i])->0))
    } else {
        None
    }
}

/// The result of `prompts/get`.
#[derive(Debug, PartialEq, Eq)]
pub struct GetPromptResult {
    pub description: Option<String>,
    pub messages: Vec<PromptMessage>,
}

/// A `GetPromptResult` as a mathematical value.
pub struct GetPromptResultModel {
    pub description: Option<Seq<char>>,
    pub messages: Seq<PromptMessageModel>,
}

impl View for GetPromptResult {
    type V = GetPromptResultModel;

    open spec fn view(&self) -> GetPromptResultModel {
        GetPromptResultModel {
            description: optional_text_model(self.description),
            messages: prompt_messages_model(self.messages@),
        }
    }
}

impl GetPromptResultModel {
    /// The result of `prompts/get` that a document is read as: it needs an
    /// array `messages` of prompt messages; `description` is a string
    /// where it is there.
    pub open spec fn from_json(document: JsonModel) -> Option<GetPromptResultModel> {
        match (optional_text_member(document, "description"@), document.member("messages"@)) {
            (Some(description), Some(JsonModel::Array(items))) => match decode_prompt_messages(
                items,
            ) {
                Some(messages) => Some(GetPromptResultModel { description, messages }),
                None => None,
            },
            _ => None,
        }
    }
}

impl GetPromptResult {
    /// Reads the result of `prompts/get`.
    pub fn from_json(document: &JsonValue) -> (r: Result<GetPromptResult, ClientError>)
        ensures
            match r {
                Ok(result) => GetPromptResultModel::from_json(document@) == Some(result@),
                Err(e) => GetPromptResultModel::from_json(document@) is None && e@
                    == unexpected_shape(),
            },
    {
        let description = match read_optional_text(document, "description") {
            Some(d) => d,
            None => {
                return Err(ClientError::unexpected_shape());
            },
        };
        let items = match document.get("messages") {
            None => {
                return Err(ClientError::unexpected_shape());
            },
            Some(listed) => match listed.as_array() {
                None => {
                    return Err(ClientError::unexpected_shape());
                },
                Some(items) => items,
            },
        };
        let mut messages: Vec<PromptMessage> = Vec::new();
        let mut i: usize = 0;
        while i < items.len()
            invariant
                i <= items.len(),
                messages.len() == i,
                document@.member("messages"@) == Some(JsonModel::Array(items_model(items@))),
                optional_text_member(document@, "description"@) == Some(
                    optional_text_model(description),
                ),
                forall|j: int|
                    0 <= j < i ==> (#[trigger] PromptMessageModel::from_json(
                        items_model(items@)[j],
                    )) == Some(messages@[j]@),
            decreases items.len() - i,
        {
            match PromptMessage::from_json(&items[i]) {
                Some(message) => {
                    messages.push(message);
                },
                None => {
                    assert(PromptMessageModel::from_json(items_model(items@)[i as int]) is None);
                    return Err(ClientError::unexpected_shape());
                },
            }
            i += 1;
        }
        assert(decode_prompt_messages(items_model(items@))->0 =~= prompt_messages_model(messages@));
        Ok(GetPromptResult { description, messages })
    }
}

/// The texts that the items of an array are, if each is a string.
pub open spec fn decode_texts(items: Seq<JsonModel>) -> Option<Seq<Seq<char>>> {
    if forall|i: int| 0 <= i < items.len() ==> (#[trigger] items[i]) is Text {
        Some(Seq::new(items.len(), |i: int| items[i]->Text_0))
    } else {
        None
    }
}

/// The result of `prompts/complete`: the values that complete an argument.
#[derive(Debug, PartialEq, Eq)]
pub struct CompleteResult {
    pub values: Vec<String>,
}

impl View for CompleteResult {
    type V = Seq<Seq<char>>;

    open spec fn view(&self) -> Seq<Seq<char>> {
        crate::text::texts(self.values@)
    }
}

/// The result of `prompts/complete` that a document is read as: it needs
/// a `completion` with an array `values` of strings.
pub open spec fn decode_completion(document: JsonModel) -> Option<Seq<Seq<char>>> {
    match document.member("completion"@) {
        Some(completion) => match completion.member("values"@) {
            Some(JsonModel::Array(items)) => decode_texts(items),
            _ => None,
        },
        None => None,
    }
}

impl CompleteResult {
    /// Reads the result of `prompts/complete`.
    pub fn from_json(document: &JsonValue) -> (r: Result<CompleteResult, ClientError>)
        ensures
            match r {
                Ok(result) => decode_completion(document@) == Some(result@),
                Err(e) => decode_completion(document@) is None && e@ == unexpected_shape(),
            },
    {
        let completion = match document.get("completion") {
            None => {
                return Err(ClientError::unexpected_shape());
            },
            Some(c) => c,
        };
        let items = match completion.get("values") {
            None => {
                return Err(ClientError::unexpected_shape());
            },
            Some(listed) => match listed.as_array() {
                None => {
                    return Err(ClientError::unexpected_shape());
                },
                Some(items) => items,
            },
        };
        let mut values: Vec<String> = Vec::new();
        let mut i: usize = 0;
        while i < items.len()
            invariant
                i <= items.len(),
                values.len() == i,
                document@.member("completion"@) == Some(completion@),
                completion@.member("values"@) == Some(JsonModel::Array(items_model(items@))),
                forall|j: int|
                    0 <= j < i ==> (#[trigger] items_model(items@)[j]) == JsonModel::Text(
                        values@[j]@,
                    ),
            decreases items.len() - i,
        {
            match items[i].as_text() {
                Some(text) => {
                    values.push(text.to_owned());
                },
                None => {
                    assert(!(items_model(items@)[i as int] is Text));
                    return Err(ClientError::unexpected_shape());
                },
            }
            i += 1;
        }
        assert(decode_texts(items_model(items@))->0 =~= crate::text::texts(values@));
        Ok(CompleteResult { values })
    }
}

} // verus!
