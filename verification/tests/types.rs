use mcp_client::error::ClientError;
use mcp_client::json::JsonValue;
use mcp_client::json_text::parse;
use mcp_client::resources::{
    CompleteResult, GetPromptResult, ListPromptsResult, ListResourcesResult, Prompt, PromptMessage,
    ReadResourceResult, Resource, ResourceContents,
};
use mcp_client::types::{
    CallToolResult, ClientCapabilities, Implementation, InitializeResult, ListToolsResult,
    MessageContent, Tool,
};

fn refused<T>() -> Result<T, ClientError> {
    Err(ClientError::Serialization("result is not of the expected shape".to_string()))
}

#[test]
fn implementation_round_trips() {
    let implementation = Implementation::new("mcp-client", "0.1.2");
    let document = implementation.to_json();
    assert_eq!(document, parse(r#"{"name":"mcp-client","version":"0.1.2"}"#).unwrap());
    assert_eq!(Implementation::from_json(&document), Some(implementation));
    assert_eq!(Implementation::from_json(&parse(r#"{"name":"x"}"#).unwrap()), None);
    assert_eq!(Implementation::from_json(&parse(r#"{"name":"x","version":1}"#).unwrap()), None);
}

#[test]
fn default_capabilities_are_the_empty_object() {
    assert_eq!(ClientCapabilities::default().document, JsonValue::Object(vec![]));
}

#[test]
fn initialize_result_needs_its_three_fields() {
    let value = parse(
        r#"{"protocolVersion":"2024-11-05","capabilities":{"tools":{"listChanged":false}},"serverInfo":{"name":"notes","version":"0.1"},"instructions":"extra"}"#,
    )
    .unwrap();
    let result = InitializeResult::from_json(&value).unwrap();
    assert_eq!(result.protocol_version, "2024-11-05");
    assert_eq!(result.capabilities.document, parse(r#"{"tools":{"listChanged":false}}"#).unwrap());
    assert_eq!(result.server_info, Implementation::new("notes", "0.1"));
    for text in [
        r#"{"capabilities":{},"serverInfo":{"name":"n","version":"v"}}"#,
        r#"{"protocolVersion":"p","serverInfo":{"name":"n","version":"v"}}"#,
        r#"{"protocolVersion":"p","capabilities":{}}"#,
        r#"{"protocolVersion":1,"capabilities":{},"serverInfo":{"name":"n","version":"v"}}"#,
        r#"{"protocolVersion":"p","capabilities":{},"serverInfo":{"name":"n"}}"#,
        r#"[]"#,
    ] {
        assert_eq!(InitializeResult::from_json(&parse(text).unwrap()), None);
    }
}

#[test]
fn tool_list_finds_the_first_tool_of_a_name() {
    let listed = ListToolsResult {
        tools: vec![
            Tool { name: "a".to_string(), description: "first".to_string(), input_schema: JsonValue::Null },
            Tool { name: "b".to_string(), description: "other".to_string(), input_schema: JsonValue::Null },
            Tool { name: "a".to_string(), description: "second".to_string(), input_schema: JsonValue::Null },
        ],
    };
    assert_eq!(listed.find("a").unwrap().description, "first");
    assert_eq!(listed.find("b").unwrap().description, "other");
    assert_eq!(listed.find("c"), None);
    assert_eq!(ListToolsResult { tools: vec![] }.find("a"), None);
}

#[test]
fn content_blocks_are_told_apart_by_type() {
    let value = parse(
        r#"{"content":[{"type":"text","text":"t"},{"type":"image","data":"d","mimeType":"m"},{"type":"resource","resource":{"uri":"u","text":"x"}}],"isError":false}"#,
    )
    .unwrap();
    let result = CallToolResult::from_json(&value).unwrap();
    assert_eq!(
        result.content,
        vec![
            MessageContent::Text { text: "t".to_string() },
            MessageContent::Image { data: "d".to_string(), mime_type: "m".to_string() },
            MessageContent::Resource { resource: parse(r#"{"uri":"u","text":"x"}"#).unwrap() },
        ]
    );
    assert_eq!(result.text(), "t");
    assert_eq!(result.into_outcome("tool").unwrap().content.len(), 3);
}

#[test]
fn resource_list_is_read() {
    let value = parse(
        r#"{"resources":[{"uri":"note://internal/listed-note","name":"Note: listed-note","description":"A simple note","mimeType":"text/plain"},{"uri":"u","name":"n","description":null}]}"#,
    )
    .unwrap();
    let listed = ListResourcesResult::from_json(&value).unwrap();
    assert_eq!(
        listed.resources,
        vec![
            Resource {
                uri: "note://internal/listed-note".to_string(),
                name: "Note: listed-note".to_string(),
                description: Some("A simple note".to_string()),
                mime_type: Some("text/plain".to_string()),
            },
            Resource { uri: "u".to_string(), name: "n".to_string(), description: None, mime_type: None },
        ]
    );
    for text in [r#"{}"#, r#"{"resources":{}}"#, r#"{"resources":[{"uri":"u"}]}"#, r#"{"resources":[{"uri":"u","name":"n","mimeType":1}]}"#] {
        assert_eq!(ListResourcesResult::from_json(&parse(text).unwrap()), refused());
    }
}

#[test]
fn resource_contents_are_text_or_blob() {
    let value = parse(
        r#"{"contents":[{"uri":"note://internal/readable-note","mimeType":"text/plain","text":"Hello, I am a readable note"},{"uri":"b","blob":"AAEC"}]}"#,
    )
    .unwrap();
    let read = ReadResourceResult::from_json(&value).unwrap();
    assert_eq!(
        read.contents,
        vec![
            ResourceContents::Text {
                uri: "note://internal/readable-note".to_string(),
                mime_type: Some("text/plain".to_string()),
                text: "Hello, I am a readable note".to_string(),
            },
            ResourceContents::Blob { uri: "b".to_string(), mime_type: None, blob: "AAEC".to_string() },
        ]
    );
    for text in [r#"{}"#, r#"{"contents":[{"uri":"u"}]}"#, r#"{"contents":[{"text":"t"}]}"#, r#"{"contents":1}"#] {
        assert_eq!(ReadResourceResult::from_json(&parse(text).unwrap()), refused());
    }
}

#[test]
fn prompt_list_is_read() {
    let value = parse(r#"{"prompts":[{"name":"summarize","description":"Sums up"},{"name":"bare"}]}"#).unwrap();
    assert_eq!(
        ListPromptsResult::from_json(&value).unwrap().prompts,
        vec![
            Prompt { name: "summarize".to_string(), description: Some("Sums up".to_string()) },
            Prompt { name: "bare".to_string(), description: None },
        ]
    );
    assert_eq!(ListPromptsResult::from_json(&parse(r#"{"prompts":[{}]}"#).unwrap()), refused());
    assert_eq!(ListPromptsResult::from_json(&parse(r#"{}"#).unwrap()), refused());
}

#[test]
fn prompt_is_read_with_its_messages() {
    let value = parse(
        r#"{"description":"d","messages":[{"role":"user","content":{"type":"text","text":"hi"}}]}"#,
    )
    .unwrap();
    assert_eq!(
        GetPromptResult::from_json(&value).unwrap(),
        GetPromptResult {
            description: Some("d".to_string()),
            messages: vec![PromptMessage {
                role: "user".to_string(),
                content: MessageContent::Text { text: "hi".to_string() },
            }],
        }
    );
    for text in [
        r#"{}"#,
        r#"{"messages":[{"role":"user"}]}"#,
        r#"{"messages":[{"role":"user","content":{"type":"x"}}]}"#,
        r#"{"description":5,"messages":[]}"#,
    ] {
        assert_eq!(GetPromptResult::from_json(&parse(text).unwrap()), refused());
    }
    assert_eq!(
        GetPromptResult::from_json(&parse(r#"{"messages":[]}"#).unwrap()),
        Ok(GetPromptResult { description: None, messages: vec![] })
    );
}

#[test]
fn completion_values_are_read() {
    let value = parse(r#"{"completion":{"values":["a","b"],"total":2,"hasMore":false}}"#).unwrap();
    assert_eq!(CompleteResult::from_json(&value).unwrap().values, vec!["a", "b"]);
    for text in [r#"{}"#, r#"{"completion":{}}"#, r#"{"completion":{"values":[1]}}"#, r#"{"completion":{"values":"a"}}"#] {
        assert_eq!(CompleteResult::from_json(&parse(text).unwrap()), refused());
    }
}
