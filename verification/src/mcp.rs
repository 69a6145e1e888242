//! What the MCP server says of itself, and what its tool answers.
//!
//! The protocol's messages are those of the `rmcp` crate. Their types are opaque
//! here: what they hold is stated over the names below, at the functions that
//! make them.

use crate::cli::CaptureResult;
use rmcp::model::{CallToolResult, ContentBlock, ServerCapabilities, ServerConfig};
use vstd::prelude::*;

verus! {

/// What the server tells a client about itself.
pub const INSTRUCTIONS: &'static str =
    "Exposes a single tool to initiate a screen capture via the system's screenshot portal.";

/// The answer to a call of a tool.
#[verifier::external_type_specification]
#[verifier::external_body]
pub struct ExCallToolResult(CallToolResult);

/// One piece of an answer.
#[verifier::external_type_specification]
#[verifier::external_body]
pub struct ExContentBlock(ContentBlock);

/// What a server offers its clients.
#[verifier::external_type_specification]
#[verifier::external_body]
pub struct ExServerCapabilities(ServerCapabilities);

/// How a server introduces itself.
#[verifier::external_type_specification]
#[verifier::external_body]
pub struct ExServerConfig(ServerConfig);

/// The text of a piece of an answer, if it is one of text.
pub uninterp spec fn block_text(block: ContentBlock) -> Option<Seq<char>>;

/// The pieces of an answer, in order.
pub uninterp spec fn reply_content(reply: CallToolResult) -> Seq<ContentBlock>;

/// Whether an answer tells of an error, if it says so at all.
pub uninterp spec fn reply_is_error(reply: CallToolResult) -> Option<bool>;

/// The names of the capabilities that are offered.
pub uninterp spec fn offered(capabilities: ServerCapabilities) -> Set<Seq<char>>;

/// The capabilities that a server introduces itself with.
pub uninterp spec fn config_capabilities(config: ServerConfig) -> ServerCapabilities;

/// The instructions that a server introduces itself with.
pub uninterp spec fn config_instructions(config: ServerConfig) -> Option<Seq<char>>;

/// Whether the protocol version, the implementation and the metadata that a
/// server introduces itself with are those of `ServerConfig::default`.
pub uninterp spec fn config_is_otherwise_default(config: ServerConfig) -> bool;

/// Calls `ContentBlock::text`. Taken on trust: the block holds that text.
#[verifier::external_body]
pub(crate) fn text_block(text: String) -> (block: ContentBlock)
    ensures
        block_text(block) == Some(text@),
{
    ContentBlock::text(text)
}

/// `CallToolResult::success`. Taken on trust: the answer holds the given pieces,
/// and says that it tells of no error.
pub assume_specification[ CallToolResult::success ](content: Vec<ContentBlock>) -> (reply:
    CallToolResult)
    ensures
        reply_content(reply) == content@,
        reply_is_error(reply) == Some(false),
;

/// `CallToolResult::error`. Taken on trust: the answer holds the given pieces,
/// and says that it tells of an error.
pub assume_specification[ CallToolResult::error ](content: Vec<ContentBlock>) -> (reply:
    CallToolResult)
    ensures
        reply_content(reply) == content@,
        reply_is_error(reply) == Some(true),
;

/// Builds a `ServerCapabilities` with `enable_tools`. Taken on trust: tools are
/// offered, and nothing else is.
#[verifier::external_body]
pub(crate) fn tool_capabilities() -> (capabilities: ServerCapabilities)
    ensures
        offered(capabilities) == set!["tools"@],
{
    ServerCapabilities::builder().enable_tools().build()
}

/// `ServerConfig::new`. Taken on trust: the server introduces itself with the
/// given capabilities and without instructions, and as by default in all else.
pub assume_specification[ ServerConfig::new ](capabilities: ServerCapabilities) -> (config:
    ServerConfig)
    ensures
        config_capabilities(config) == capabilities,
        config_instructions(config) is None,
        config_is_otherwise_default(config),
;

/// Calls `ServerConfig::with_instructions`. Taken on trust: the server gives
/// those instructions, and introduces itself as before in all else.
#[verifier::external_body]
pub(crate) fn with_instructions(config: ServerConfig, instructions: &str) -> (r: ServerConfig)
    ensures
        config_capabilities(r) == config_capabilities(config),
        config_instructions(r) == Some(instructions@),
        config_is_otherwise_default(r) == config_is_otherwise_default(config),
{
    config.with_instructions(instructions)
}

/// How the server introduces itself: it offers tools, says what it is for, and
/// leaves all else as it is by default.
pub fn get_info() -> (config: ServerConfig)
    ensures
        offered(config_capabilities(config)) == set!["tools"@],
        config_instructions(config) == Some(INSTRUCTIONS@),
        config_is_otherwise_default(config),
{
    with_instructions(ServerConfig::new(tool_capabilities()), INSTRUCTIONS)
}

/// Answers a call of the capture tool: one piece of text, which is the saved
/// location or what went wrong, told as an error exactly if the capture failed.
pub fn capture_reply(result: CaptureResult) -> (reply: CallToolResult)
    ensures
        reply_is_error(reply) == Some(result is Err),
        reply_content(reply).len() == 1,
        block_text(reply_content(reply)[0]) == Some(
            match result {
                Ok(uri) => uri@,
                Err(text) => text@,
            },
        ),
{
    match result {
        Ok(uri) => {
            let mut content: Vec<ContentBlock> = Vec::new();
            content.push(text_block(uri));
            CallToolResult::success(content)
        },
        Err(text) => {
            let mut content: Vec<ContentBlock> = Vec::new();
            content.push(text_block(text));
            CallToolResult::error(content)
        },
    }
}

} // verus!
