use mcp_client::builder::Variable;
use mcp_client::config::{Config, MCPServerConfig};
use mcp_client::error::ClientError;
use mcp_client::json_text::parse;

#[test]
fn test_load_config() {
    let json = r#"
        {
            "mcpServers": {
                "server1": {
                    "command": "echo",
                    "args": ["Hello"],
                    "env": {}
                }
            }
        }
        "#;
    let config = Config::load_config(json).unwrap();
    assert!(config.server("server1").is_some());
    assert_eq!(config.server("server1").unwrap().command, "echo");
}

#[test]
fn config_reads_arguments_and_environment() {
    let config = Config::load_config(
        r#"{"mcpServers":{"b":{"command":"uvx","args":["notes-simple","-v"],"env":{"KEY":"value","OTHER":"x"}},"a":{"command":"node","args":[]}}}"#,
    )
    .unwrap();
    assert_eq!(config.mcp_servers.len(), 2);
    assert_eq!(
        config.server("b"),
        Some(&MCPServerConfig {
            command: "uvx".to_string(),
            args: vec!["notes-simple".to_string(), "-v".to_string()],
            env: vec![
                Variable { key: "KEY".to_string(), value: "value".to_string() },
                Variable { key: "OTHER".to_string(), value: "x".to_string() },
            ],
        })
    );
    assert_eq!(
        config.server("a"),
        Some(&MCPServerConfig { command: "node".to_string(), args: vec![], env: vec![] })
    );
    assert_eq!(config.server("c"), None);
}

#[test]
fn config_of_another_shape_is_refused() {
    for text in [
        r#"{}"#,
        r#"{"mcpServers":[]}"#,
        r#"{"mcpServers":{"a":{"args":[]}}}"#,
        r#"{"mcpServers":{"a":{"command":"x"}}}"#,
        r#"{"mcpServers":{"a":{"command":"x","args":[1]}}}"#,
        r#"{"mcpServers":{"a":{"command":"x","args":[],"env":{"K":1}}}}"#,
        r#"{"mcpServers":{"a":{"command":"x","args":[],"env":null}}}"#,
        r#"{"mcpServers":{"good":{"command":"x","args":[]},"bad":7}}"#,
    ] {
        assert_eq!(
            Config::load_config(text),
            Err(ClientError::Serialization("configuration is not of the expected shape".to_string()))
        );
        assert_eq!(Config::from_json(&parse(text).unwrap()), None);
    }
    assert!(matches!(Config::load_config("not json"), Err(ClientError::Serialization(_))));
}

#[test]
fn empty_config_has_no_servers() {
    let config = Config::load_config(r#"{"mcpServers":{}}"#).unwrap();
    assert!(config.mcp_servers.is_empty());
    assert_eq!(config.server("any"), None);
}
