use prtsc::mcp::{capture_reply, get_info, INSTRUCTIONS};
use rmcp::model::{CallToolResult, ContentBlock, ServerConfig};

fn only_text(reply: &CallToolResult) -> &str {
    assert_eq!(reply.content.len(), 1);
    match &reply.content[0] {
        ContentBlock::Text(content) => &content.text,
        _ => panic!("not a text"),
    }
}

#[test]
fn answers_with_the_saved_location() {
    let reply = capture_reply(Ok("file:///a.png".to_string()));
    assert_eq!(reply.is_error, Some(false));
    assert_eq!(only_text(&reply), "file:///a.png");
}

#[test]
fn answers_with_the_error() {
    let reply = capture_reply(Err("cancelled".to_string()));
    assert_eq!(reply.is_error, Some(true));
    assert_eq!(only_text(&reply), "cancelled");
}

#[test]
fn introduces_itself_with_tools_and_instructions() {
    let info = get_info();
    assert_eq!(
        INSTRUCTIONS,
        "Exposes a single tool to initiate a screen capture via the system's screenshot portal."
    );
    assert_eq!(info.instructions.as_deref(), Some(INSTRUCTIONS));
    assert!(info.capabilities.tools.is_some());
    assert!(info.capabilities.prompts.is_none());
    assert!(info.capabilities.resources.is_none());
    assert!(info.capabilities.completions.is_none());
    assert!(info.capabilities.experimental.is_none());
    assert!(info.capabilities.extensions.is_none());
}

#[test]
fn introduces_itself_as_by_default_in_all_else() {
    let info = get_info();
    let default = ServerConfig::default();
    assert_eq!(info.protocol_version, default.protocol_version);
    assert_eq!(info.server_info, default.server_info);
    assert_eq!(info.meta, default.meta);
}
