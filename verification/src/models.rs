//! The schema catalog: the domain record and enum shapes of the API.
//!
//! These are plain data types; the streaming decoder treats the deep response
//! payloads as opaque JSON documents and carries them as `serde_json::Value`,
//! while every shape the decoder itself reads is a typed record here.

use vstd::prelude::*;
use std::collections::HashMap;
use serde_json::Value;

verus! {

/// A helper type for key-value metadata. Keys are strings with a maximum length of 64
/// characters. Values are strings with a maximum length of 512 characters.
pub type Metadata = HashMap<String, String>;

/// Represents a model identifier, e.g., "gpt-4o".
pub type ResponsesModel = String;

/// A list of one or many input items to the model, containing different content types.
pub type ResponseInputMessageContentList = Vec<ResponseInputContent>;

/// The type of computer environment to control.
#[derive(Debug, Clone, PartialEq)]
pub enum ComputerToolEnvironment {
    Windows,
    Mac,
    Linux,
    Ubuntu,
    Browser,
}

/// The role of a message input.
#[derive(Debug, Clone, PartialEq)]
pub enum MessageRole {
    User,
    Assistant,
    System,
    Developer,
}

/// The detail level for an image input.
#[derive(Debug, Clone, PartialEq)]
pub enum ImageDetail {
    Low,
    High,
    Auto,
}

/// The status of an item.
#[derive(Debug, Clone, PartialEq)]
pub enum ItemStatus {
    InProgress,
    Completed,
    Incomplete,
    Interpreting,
    Failed,
    Searching,
    Generating,
    Queued,
    Cancelled,
}

/// The reason why a response is incomplete.
#[derive(Debug, Clone, PartialEq)]
pub enum IncompleteDetailsReason {
    MaxOutputTokens,
    ContentFilter,
}

/// The latency tier for processing a request.
#[derive(Debug, Clone, PartialEq)]
pub enum ServiceTier {
    Auto,
    Default,
    Flex,
    Scale,
    Priority,
}

/// The truncation strategy for a response.
#[derive(Debug, Clone, PartialEq)]
pub enum TruncationStrategy {
    Auto,
    Disabled,
}

/// Error codes for a failed response.
#[derive(Debug, Clone, PartialEq)]
pub enum ResponseErrorCode {
    ServerError,
    RateLimitExceeded,
    InvalidPrompt,
    VectorStoreTimeout,
    InvalidImage,
    InvalidImageFormat,
    InvalidBase64Image,
    InvalidImageUrl,
    ImageTooLarge,
    ImageTooSmall,
    ImageParseError,
    ImageContentPolicyViolation,
    InvalidImageMode,
    ImageFileTooLarge,
    UnsupportedImageMediaType,
    EmptyImageFile,
    FailedToDownloadImage,
    ImageFileNotFound,
}

/// Controls which (if any) tool is called by the model.
#[derive(Debug, Clone, PartialEq)]
pub enum ToolChoiceOptions {
    NoTools,
    Auto,
    Required,
}

/// Specifies additional output data to include in the model response.
#[derive(Debug, Clone, PartialEq)]
pub enum ResponseIncludable {
    FileSearchCallResults,
    MessageInputImageImageUrl,
    ComputerCallOutputOutputImageUrl,
    ReasoningEncryptedContent,
    CodeInterpreterCallOutputs,
}

/// A text input to the model.
#[derive(Debug, Clone, PartialEq)]
pub struct ResponseInputText {
    /// The text input to the model.
    pub text: String,
    /// The type of the input item. Always `input_text`.
    pub type_field: String,
}

/// An image input to the model. Learn about [image inputs](https://platform.openai.com/docs/guides/vision).
#[derive(Debug, Clone, PartialEq)]
pub struct ResponseInputImage {
    /// The detail level of the image to be sent to the model.
    pub detail: ImageDetail,
    /// The type of the input item. Always `input_image`.
    pub type_field: String,
    /// The ID of the file to be sent to the model.
    pub file_id: Option<String>,
    /// The URL of the image to be sent to the model. A fully qualified URL or base64 encoded image in a data URL.
    pub image_url: Option<String>,
}

/// A file input to the model.
#[derive(Debug, Clone, PartialEq)]
pub struct ResponseInputFile {
    /// The type of the input item. Always `input_file`.
    pub type_field: String,
    /// The content of the file to be sent to the model.
    pub file_data: Option<String>,
    /// The ID of the file to be sent to the model.
    pub file_id: Option<String>,
    /// The URL of the file to be sent to the model.
    pub file_url: Option<String>,
    /// The name of the file to be sent to the model.
    pub filename: Option<String>,
}

/// Multi-modal input contents.
#[derive(Debug, Clone, PartialEq)]
pub enum ResponseInputContent {
    InputText(ResponseInputText),
    InputImage(ResponseInputImage),
    InputFile(ResponseInputFile),
}

/// Placeholder for pagination structure.
#[derive(Debug, Clone, PartialEq)]
pub struct CursorPage<T> {
    pub data: Vec<T>,
    // other pagination fields like 'has_more', 'next_cursor', etc. would go here
}

/// Placeholder for a comparison filter.
#[derive(Debug, Clone, PartialEq)]
pub struct ComparisonFilter {}

/// Placeholder for a compound filter.
#[derive(Debug, Clone, PartialEq)]
pub struct CompoundFilter {}

/// A filter to apply.
#[derive(Debug, Clone, PartialEq)]
pub enum Filter {
    Comparison(ComparisonFilter),
    Compound(CompoundFilter),
}

/// This tool searches the web for relevant results to use in a response.
#[derive(Debug, Clone, PartialEq)]
pub struct WebSearchTool {
    /// The type of the web search tool.
    pub type_field: String,
    /// High level guidance for the amount of context window space to use for the search.
    pub search_context_size: Option<String>,
    /// The user's location.
    pub user_location: Option<WebSearchToolUserLocation>,
}

/// The user's location.
#[derive(Debug, Clone, PartialEq)]
pub struct WebSearchToolUserLocation {
    /// The type of location approximation. Always `approximate`.
    pub type_field: String,
    /// Free text input for the city of the user.
    pub city: Option<String>,
    /// The two-letter ISO country code of the user.
    pub country: Option<String>,
    /// Free text input for the region of the user.
    pub region: Option<String>,
    /// The IANA timezone of the user.
    pub timezone: Option<String>,
}

/// Give the model access to additional tools via remote Model Context Protocol (MCP) servers.
#[derive(Debug, Clone, PartialEq)]
pub struct ToolMcp {
    /// A label for this MCP server, used to identify it in tool calls.
    pub server_label: String,
    /// The URL for the MCP server.
    pub server_url: String,
    /// The type of the MCP tool. Always `mcp`.
    pub type_field: String,
    /// List of allowed tool names or a filter object.
    pub allowed_tools: Option<ToolMcpAllowedTools>,
    /// Optional HTTP headers to send to the MCP server.
    pub headers: Option<HashMap<String, String>>,
    /// Specify which of the MCP server's tools require approval.
    pub require_approval: Option<ToolMcpRequireApproval>,
    /// Optional description of the MCP server, used to provide more context.
    pub server_description: Option<String>,
}

#[derive(Debug, Clone, PartialEq)]
pub enum ToolMcpAllowedTools {
    Names(Vec<String>),
    Filter(ToolMcpAllowedToolsFilter),
}

/// A filter object to specify which tools are allowed.
#[derive(Debug, Clone, PartialEq)]
pub struct ToolMcpAllowedToolsFilter {
    /// List of allowed tool names.
    pub tool_names: Option<Vec<String>>,
}

#[derive(Debug, Clone, PartialEq)]
pub enum ToolMcpRequireApproval {
    Always(String), // "always"
    Never(String),  // "never"
    Filter(ToolMcpToolApprovalFilter),
}

#[derive(Debug, Clone, PartialEq)]
pub struct ToolMcpToolApprovalFilter {
    /// A list of tools that always require approval.
    pub always: Option<ToolMcpToolApprovalFilterAlways>,
    /// A list of tools that never require approval.
    pub never: Option<ToolMcpToolApprovalFilterNever>,
}

/// A list of tools that always require approval.
#[derive(Debug, Clone, PartialEq)]
pub struct ToolMcpToolApprovalFilterAlways {
    /// List of tools that require approval.
    pub tool_names: Option<Vec<String>>,
}

/// A list of tools that never require approval.
#[derive(Debug, Clone, PartialEq)]
pub struct ToolMcpToolApprovalFilterNever {
    /// List of tools that do not require approval.
    pub tool_names: Option<Vec<String>>,
}

/// A tool that runs Python code to help generate a response to a prompt.
#[derive(Debug, Clone, PartialEq)]
pub struct ToolCodeInterpreter {
    /// The code interpreter container.
    pub container: ToolCodeInterpreterContainer,
    /// The type of the code interpreter tool.
    pub type_field: String,
}

#[derive(Debug, Clone, PartialEq)]
pub enum ToolCodeInterpreterContainer {
    Id(String),
    Auto(ToolCodeInterpreterToolAuto),
}

/// Configuration for a code interpreter container.
#[derive(Debug, Clone, PartialEq)]
pub struct ToolCodeInterpreterToolAuto {
    /// Always `auto`.
    pub type_field: String,
    /// An optional list of uploaded files to make available to your code.
    pub file_ids: Option<Vec<String>>,
}

/// Optional mask for inpainting.
#[derive(Debug, Clone, PartialEq)]
pub struct ToolImageGenerationInputImageMask {
    /// File ID for the mask image.
    pub file_id: Option<String>,
    /// Base64-encoded mask image.
    pub image_url: Option<String>,
}

/// A tool that allows the model to execute shell commands in a local environment.
#[derive(Debug, Clone, PartialEq)]
pub struct ToolLocalShell {
    /// The type of the local shell tool.
    pub type_field: String,
}

/// An error object returned when the model fails to generate a Response.
#[derive(Debug, Clone, PartialEq)]
pub struct ResponseError {
    /// The error code for the response.
    pub code: ResponseErrorCode,
    /// A human-readable description of the error.
    pub message: String,
}

/// Details about why the response is incomplete.
#[derive(Debug, Clone, PartialEq)]
pub struct ResponseIncompleteDetails {
    /// The reason why the response is incomplete.
    pub reason: Option<IncompleteDetailsReason>,
}

/// Use this option to force the model to call a specific function.
#[derive(Debug, Clone, PartialEq)]
pub struct ToolChoiceFunction {
    /// The name of the function to call.
    pub name: String,
    /// For function calling, the type is always `function`.
    pub type_field: String,
}

/// Indicates that the model should use a built-in tool to generate a response.
#[derive(Debug, Clone, PartialEq)]
pub struct ToolChoiceTypes {
    pub type_field: String,
}

/// How the model should select which tool (or tools) to use.
#[derive(Debug, Clone, PartialEq)]
pub enum ToolChoice {
    Option(ToolChoiceOptions),
    Type(ToolChoiceTypes),
    Function(ToolChoiceFunction),
}

/// Represents token usage details.
#[derive(Debug, Clone, PartialEq)]
pub struct ResponseUsage {
    /// The number of input tokens.
    pub input_tokens: i64,
    /// A detailed breakdown of the input tokens.
    pub input_tokens_details: ResponseUsageInputTokensDetails,
    /// The number of output tokens.
    pub output_tokens: i64,
    /// A detailed breakdown of the output tokens.
    pub output_tokens_details: ResponseUsageOutputTokensDetails,
    /// The total number of tokens used.
    pub total_tokens: i64,
}

/// A detailed breakdown of the input tokens.
#[derive(Debug, Clone, PartialEq)]
pub struct ResponseUsageInputTokensDetails {
    /// The number of tokens that were retrieved from the cache.
    pub cached_tokens: i64,
}

/// A detailed breakdown of the output tokens.
#[derive(Debug, Clone, PartialEq)]
pub struct ResponseUsageOutputTokensDetails {
    /// The number of reasoning tokens.
    pub reasoning_tokens: i64,
}

/// A citation to a file.
#[derive(Debug, Clone, PartialEq)]
pub struct ResponseOutputTextFileCitation {
    /// The ID of the file.
    pub file_id: String,
    /// The filename of the file cited.
    pub filename: String,
    /// The index of the file in the list of files.
    pub index: u64,
}

/// A citation for a web resource used to generate a model response.
#[derive(Debug, Clone, PartialEq)]
pub struct ResponseOutputTextURLCitation {
    /// The index of the last character of the URL citation in the message.
    pub end_index: u64,
    /// The index of the first character of the URL citation in the message.
    pub start_index: u64,
    /// The title of the web resource.
    pub title: String,
    /// The URL of the web resource.
    pub url: String,
}

/// A citation for a container file used to generate a model response.
#[derive(Debug, Clone, PartialEq)]
pub struct ResponseOutputTextContainerFileCitation {
    /// The ID of the container file.
    pub container_id: String,
    /// The index of the last character of the container file citation in the message.
    pub end_index: u64,
    /// The ID of the file.
    pub file_id: String,
    /// The filename of the container file cited.
    pub filename: String,
    /// The index of the first character of the container file citation in the message.
    pub start_index: u64,
}

/// A path to a file.
#[derive(Debug, Clone, PartialEq)]
pub struct ResponseOutputTextFilePath {
    /// The ID of the file.
    pub file_id: String,
    /// The index of the file in the list of files.
    pub index: u64,
}

#[derive(Debug, Clone, PartialEq)]
pub enum ResponseOutputTextAnnotation {
    FileCitation(ResponseOutputTextFileCitation),
    UrlCitation(ResponseOutputTextURLCitation),
    ContainerFileCitation(ResponseOutputTextContainerFileCitation),
    FilePath(ResponseOutputTextFilePath),
}

/// A refusal from the model.
#[derive(Debug, Clone, PartialEq)]
pub struct ResponseOutputRefusal {
    /// The refusal explanation from the model.
    pub refusal: String,
    /// The type of the refusal. Always `refusal`.
    pub type_field: String,
}

/// A tool call to run a function.
#[derive(Debug, Clone, PartialEq)]
pub struct ResponseFunctionToolCall {
    /// A JSON string of the arguments to pass to the function.
    pub arguments: String,
    /// The unique ID of the function tool call generated by the model.
    pub call_id: String,
    /// The name of the function to run.
    pub name: String,
    /// The type of the function tool call. Always `function_call`.
    pub type_field: String,
    /// The unique ID of the function tool call.
    pub id: Option<String>,
    /// The status of the item.
    pub status: Option<ItemStatus>,
}

/// The results of a web search tool call.
#[derive(Debug, Clone, PartialEq)]
pub struct ResponseFunctionWebSearch {
    /// The unique ID of the web search tool call.
    pub id: String,
    /// The status of the web search tool call.
    pub status: ItemStatus,
    /// The type of the web search tool call.
    pub type_field: String,
}

/// A collection of keypresses the model would like to perform.
#[derive(Debug, Clone, PartialEq)]
pub struct ResponseComputerToolCallKeypress {
    /// The combination of keys the model is requesting to be pressed.
    pub keys: Vec<String>,
    /// Specifies the event type.
    pub type_field: String,
}

/// A screenshot action.
#[derive(Debug, Clone, PartialEq)]
pub struct ResponseComputerToolCallScreenshot {
    /// Specifies the event type.
    pub type_field: String,
}

/// An action to type in text.
#[derive(Debug, Clone, PartialEq)]
pub struct ResponseComputerToolCallType {
    /// The text to type.
    pub text: String,
    /// Specifies the event type.
    pub type_field: String,
}

/// A wait action.
#[derive(Debug, Clone, PartialEq)]
pub struct ResponseComputerToolCallWait {
    /// Specifies the event type.
    pub type_field: String,
}

/// A pending safety check for the computer call.
#[derive(Debug, Clone, PartialEq)]
pub struct ResponseComputerToolCallPendingSafetyCheck {
    /// The ID of the pending safety check.
    pub id: String,
    /// The type of the pending safety check.
    pub code: String,
    /// Details about the pending safety check.
    pub message: String,
}

/// A description of the chain of thought used by a reasoning model.
#[derive(Debug, Clone, PartialEq)]
pub struct ResponseReasoningItem {
    /// The unique identifier of the reasoning content.
    pub id: String,
    /// Reasoning text contents.
    pub summary: Vec<ResponseReasoningItemSummary>,
    /// The type of the object. Always `reasoning`.
    pub type_field: String,
    /// The encrypted content of the reasoning item.
    pub encrypted_content: Option<String>,
    /// The status of the item.
    pub status: Option<ItemStatus>,
}

#[derive(Debug, Clone, PartialEq)]
pub struct ResponseReasoningItemSummary {
    /// A short summary of the reasoning used by the model when generating the response.
    pub text: String,
    /// The type of the object. Always `summary_text`.
    pub type_field: String,
}

/// An image generation request made by the model.
#[derive(Debug, Clone, PartialEq)]
pub struct ImageGenerationCall {
    /// The unique ID of the image generation call.
    pub id: String,
    /// The generated image encoded in base64.
    pub result: Option<String>,
    /// The status of the image generation call.
    pub status: ItemStatus,
    /// The type of the image generation call.
    pub type_field: String,
}

/// The logs output from the code interpreter.
#[derive(Debug, Clone, PartialEq)]
pub struct ResponseCodeInterpreterToolCallLogs {
    /// The logs output from the code interpreter.
    pub logs: String,
    /// The type of the output. Always 'logs'.
    pub type_field: String,
}

/// The image output from the code interpreter.
#[derive(Debug, Clone, PartialEq)]
pub struct ResponseCodeInterpreterToolCallImage {
    /// The type of the output. Always 'image'.
    pub type_field: String,
    /// The URL of the image output from the code interpreter.
    pub url: String,
}

#[derive(Debug, Clone, PartialEq)]
pub enum ResponseCodeInterpreterToolCallOutput {
    Logs(ResponseCodeInterpreterToolCallLogs),
    Image(ResponseCodeInterpreterToolCallImage),
}

/// A tool call to run code.
#[derive(Debug, Clone, PartialEq)]
pub struct ResponseCodeInterpreterToolCall {
    /// The unique ID of the code interpreter tool call.
    pub id: String,
    /// The code to run, or null if not available.
    pub code: Option<String>,
    /// The ID of the container used to run the code.
    pub container_id: String,
    /// The outputs generated by the code interpreter.
    pub outputs: Option<Vec<ResponseCodeInterpreterToolCallOutput>>,
    /// The status of the code interpreter tool call.
    pub status: ItemStatus,
    /// The type of the code interpreter tool call.
    pub type_field: String,
}

/// An invocation of a tool on an MCP server.
#[derive(Debug, Clone, PartialEq)]
pub struct McpCall {
    /// The unique ID of the tool call.
    pub id: String,
    /// A JSON string of the arguments passed to the tool.
    pub arguments: String,
    /// The name of the tool that was run.
    pub name: String,
    /// The label of the MCP server running the tool.
    pub server_label: String,
    /// The type of the item. Always `mcp_call`.
    pub type_field: String,
    /// The error from the tool call, if any.
    pub error: Option<String>,
    /// The output from the tool call.
    pub output: Option<String>,
}

/// A request for human approval of a tool invocation.
#[derive(Debug, Clone, PartialEq)]
pub struct McpApprovalRequest {
    /// The unique ID of the approval request.
    pub id: String,
    /// A JSON string of arguments for the tool.
    pub arguments: String,
    /// The name of the tool to run.
    pub name: String,
    /// The label of the MCP server making the request.
    pub server_label: String,
    /// The type of the item. Always `mcp_approval_request`.
    pub type_field: String,
}

/// Reference to a prompt template and its variables.
#[derive(Debug, Clone, PartialEq)]
pub struct ResponsePrompt {
    /// The unique identifier of the prompt template to use.
    pub id: String,
    /// Optional map of values to substitute in for variables in your prompt.
    pub variables: Option<HashMap<String, ResponsePromptVariable>>,
    /// Optional version of the prompt template.
    pub version: Option<String>,
}

#[derive(Debug, Clone, PartialEq)]
pub enum ResponsePromptVariable {
    String(String),
    InputText(ResponseInputText),
    InputImage(ResponseInputImage),
    InputFile(ResponseInputFile),
}

/// The default text response format.
#[derive(Debug, Clone, PartialEq)]
pub struct ResponseFormatText {
    pub type_field: String,
}

/// The legacy JSON object response format.
#[derive(Debug, Clone, PartialEq)]
pub struct ResponseFormatJSONObject {
    pub type_field: String,
}

/// A message input to the model with a role, which can be a simplified string content.
#[derive(Debug, Clone, PartialEq)]
pub struct EasyInputMessage {
    /// Text, image, or audio input to the model.
    pub content: EasyInputMessageContent,
    /// The role of the message input.
    pub role: MessageRole,
    /// The type of the message input. Always `message`.
    pub type_field: Option<String>,
}

#[derive(Debug, Clone, PartialEq)]
pub enum EasyInputMessageContent {
    String(String),
    List(ResponseInputMessageContentList),
}

/// A message input to the model with a role and detailed content list.
#[derive(Debug, Clone, PartialEq)]
pub struct ResponseInputItemMessage {
    /// A list of one or many input items to the model.
    pub content: ResponseInputMessageContentList,
    /// The role of the message input.
    pub role: MessageRole,
    /// The status of item.
    pub status: Option<ItemStatus>,
    /// The type of the message input.
    pub type_field: Option<String>,
}

/// The output of a computer tool call.
#[derive(Debug, Clone, PartialEq)]
pub struct ResponseInputItemComputerCallOutput {
    /// The ID of the computer tool call that produced the output.
    pub call_id: String,
    /// A computer screenshot image used with the computer use tool.
    pub output: ResponseComputerToolCallOutputScreenshot,
    /// The type of the computer tool call output.
    pub type_field: String,
    /// The ID of the computer tool call output.
    pub id: Option<String>,
    /// The safety checks reported by the API that have been acknowledged.
    pub acknowledged_safety_checks: Option<Vec<ResponseInputItemComputerCallOutputAcknowledgedSafetyCheck>>,
    /// The status of the message input.
    pub status: Option<ItemStatus>,
}

/// A pending safety check for the computer call.
#[derive(Debug, Clone, PartialEq)]
pub struct ResponseInputItemComputerCallOutputAcknowledgedSafetyCheck {
    /// The ID of the pending safety check.
    pub id: String,
    /// The type of the pending safety check.
    pub code: Option<String>,
    /// Details about the pending safety check.
    pub message: Option<String>,
}

/// The output of a function tool call.
#[derive(Debug, Clone, PartialEq)]
pub struct ResponseInputItemFunctionCallOutput {
    /// The unique ID of the function tool call generated by the model.
    pub call_id: String,
    /// A JSON string of the output of the function tool call.
    pub output: String,
    /// The type of the function tool call output.
    pub type_field: String,
    /// The unique ID of the function tool call output.
    pub id: Option<String>,
    /// The status of the item.
    pub status: Option<ItemStatus>,
}

/// The output of a local shell tool call.
#[derive(Debug, Clone, PartialEq)]
pub struct ResponseInputItemLocalShellCallOutput {
    /// The unique ID of the local shell tool call generated by the model.
    pub id: String,
    /// A JSON string of the output of the local shell tool call.
    pub output: String,
    /// The type of the local shell tool call output.
    pub type_field: String,
    /// The status of the item.
    pub status: Option<ItemStatus>,
}

/// A response to an MCP approval request.
#[derive(Debug, Clone, PartialEq)]
pub struct ResponseInputItemMcpApprovalResponse {
    /// The ID of the approval request being answered.
    pub approval_request_id: String,
    /// Whether the request was approved.
    pub approve: bool,
    /// The type of the item.
    pub type_field: String,
    /// The unique ID of the approval response.
    pub id: Option<String>,
    /// Optional reason for the decision.
    pub reason: Option<String>,
}

/// An internal identifier for an item to reference.
#[derive(Debug, Clone, PartialEq)]
pub struct ResponseInputItemItemReference {
    /// The ID of the item to reference.
    pub id: String,
    /// The type of item to reference.
    pub type_field: Option<String>,
}

/// A computer screenshot image used with the computer use tool.
#[derive(Debug, Clone, PartialEq)]
pub struct ResponseComputerToolCallOutputScreenshot {
    /// Specifies the event type.
    pub type_field: String,
    /// The identifier of an uploaded file that contains the screenshot.
    pub file_id: Option<String>,
    /// The URL of the screenshot image.
    pub image_url: Option<String>,
}

/// The output of a computer tool call.
#[derive(Debug, Clone, PartialEq)]
pub struct ResponseComputerToolCallOutputItem {
    /// The unique ID of the computer call tool output.
    pub id: String,
    /// The ID of the computer tool call that produced the output.
    pub call_id: String,
    /// A computer screenshot image used with the computer use tool.
    pub output: ResponseComputerToolCallOutputScreenshot,
    /// The type of the computer tool call output.
    pub type_field: String,
    /// The safety checks reported by the API that have been acknowledged.
    pub acknowledged_safety_checks: Option<Vec<ResponseComputerToolCallOutputItemAcknowledgedSafetyCheck>>,
    /// The status of the message input.
    pub status: Option<ItemStatus>,
}

/// A pending safety check for the computer call.
#[derive(Debug, Clone, PartialEq)]
pub struct ResponseComputerToolCallOutputItemAcknowledgedSafetyCheck {
    /// The ID of the pending safety check.
    pub id: String,
    /// The type of the pending safety check.
    pub code: String,
    /// Details about the pending safety check.
    pub message: String,
}

/// A tool call to run a function, with a required ID.
#[derive(Debug, Clone, PartialEq)]
pub struct ResponseFunctionToolCallItem {
    /// The unique ID of the function tool call.
    pub id: String,
    /// A JSON string of the arguments to pass to the function.
    pub arguments: String,
    /// The unique ID of the function tool call generated by the model.
    pub call_id: String,
    /// The name of the function to run.
    pub name: String,
    /// The type of the function tool call.
    pub type_field: String,
    /// The status of the item.
    pub status: Option<ItemStatus>,
}

/// The output of a function tool call.
#[derive(Debug, Clone, PartialEq)]
pub struct ResponseFunctionToolCallOutputItem {
    /// The unique ID of the function call tool output.
    pub id: String,
    /// The unique ID of the function tool call generated by the model.
    pub call_id: String,
    /// A JSON string of the output of the function tool call.
    pub output: String,
    /// The type of the function tool call output.
    pub type_field: String,
    /// The status of the item.
    pub status: Option<ItemStatus>,
}

/// A message input with a required ID.
#[derive(Debug, Clone, PartialEq)]
pub struct ResponseInputMessageItem {
    /// The unique ID of the message input.
    pub id: String,
    /// A list of one or many input items to the model.
    pub content: ResponseInputMessageContentList,
    /// The role of the message input.
    pub role: MessageRole,
    /// The status of item.
    pub status: Option<ItemStatus>,
    /// The type of the message input.
    pub type_field: Option<String>,
}

/// The output of a local shell tool call.
#[derive(Debug, Clone, PartialEq)]
pub struct LocalShellCallOutputItem {
    /// The unique ID of the local shell tool call generated by the model.
    pub id: String,
    /// A JSON string of the output of the local shell tool call.
    pub output: String,
    /// The type of the local shell tool call output.
    pub type_field: String,
    /// The status of the item.
    pub status: Option<ItemStatus>,
}

/// A response to an MCP approval request.
#[derive(Debug, Clone, PartialEq)]
pub struct McpApprovalResponseItem {
    /// The unique ID of the approval response
    pub id: String,
    /// The ID of the approval request being answered.
    pub approval_request_id: String,
    /// Whether the request was approved.
    pub approve: bool,
    /// The type of the item.
    pub type_field: String,
    /// Optional reason for the decision.
    pub reason: Option<String>,
}

/// Emitted when there is a partial audio response.
#[derive(Debug, Clone, PartialEq)]
pub struct ResponseAudioDeltaEvent {
    pub delta: String,
    pub sequence_number: u64,
}

/// Emitted when the audio response is complete.
#[derive(Debug, Clone, PartialEq)]
pub struct ResponseAudioDoneEvent {
    pub sequence_number: u64,
}

/// Emitted when there is a partial transcript of audio.
#[derive(Debug, Clone, PartialEq)]
pub struct ResponseAudioTranscriptDeltaEvent {
    pub delta: String,
    pub sequence_number: u64,
}

/// Emitted when the full audio transcript is completed.
#[derive(Debug, Clone, PartialEq)]
pub struct ResponseAudioTranscriptDoneEvent {
    pub sequence_number: u64,
}

/// Emitted when a partial code snippet is streamed by the code interpreter.
#[derive(Debug, Clone, PartialEq)]
pub struct ResponseCodeInterpreterCallCodeDeltaEvent {
    pub delta: String,
    pub item_id: String,
    pub output_index: u64,
    pub sequence_number: u64,
}

/// Emitted when the code snippet is finalized by the code interpreter.
#[derive(Debug, Clone, PartialEq)]
pub struct ResponseCodeInterpreterCallCodeDoneEvent {
    pub code: String,
    pub item_id: String,
    pub output_index: u64,
    pub sequence_number: u64,
}

/// Emitted when the code interpreter call is completed.
#[derive(Debug, Clone, PartialEq)]
pub struct ResponseCodeInterpreterCallCompletedEvent {
    pub item_id: String,
    pub output_index: u64,
    pub sequence_number: u64,
}

/// Emitted when a code interpreter call is in progress.
#[derive(Debug, Clone, PartialEq)]
pub struct ResponseCodeInterpreterCallInProgressEvent {
    pub item_id: String,
    pub output_index: u64,
    pub sequence_number: u64,
}

/// Emitted when the code interpreter is actively interpreting the code snippet.
#[derive(Debug, Clone, PartialEq)]
pub struct ResponseCodeInterpreterCallInterpretingEvent {
    pub item_id: String,
    pub output_index: u64,
    pub sequence_number: u64,
}

/// Emitted when an error occurs.
#[derive(Debug, Clone, PartialEq)]
pub struct ResponseErrorEvent {
    pub code: Option<String>,
    pub message: String,
    pub param: Option<String>,
    pub sequence_number: u64,
}

/// Emitted when a file search call is completed (results found).
#[derive(Debug, Clone, PartialEq)]
pub struct ResponseFileSearchCallCompletedEvent {
    pub item_id: String,
    pub output_index: u64,
    pub sequence_number: u64,
}

/// Emitted when a file search call is initiated.
#[derive(Debug, Clone, PartialEq)]
pub struct ResponseFileSearchCallInProgressEvent {
    pub item_id: String,
    pub output_index: u64,
    pub sequence_number: u64,
}

/// Emitted when a file search is currently searching.
#[derive(Debug, Clone, PartialEq)]
pub struct ResponseFileSearchCallSearchingEvent {
    pub item_id: String,
    pub output_index: u64,
    pub sequence_number: u64,
}

/// Emitted when there is a partial function-call arguments delta.
#[derive(Debug, Clone, PartialEq)]
pub struct ResponseFunctionCallArgumentsDeltaEvent {
    pub delta: String,
    pub item_id: String,
    pub output_index: u64,
    pub sequence_number: u64,
}

/// Emitted when function-call arguments are finalized.
#[derive(Debug, Clone, PartialEq)]
pub struct ResponseFunctionCallArgumentsDoneEvent {
    pub arguments: String,
    pub item_id: String,
    pub output_index: u64,
    pub sequence_number: u64,
}

/// Emitted when an image generation tool call has completed.
#[derive(Debug, Clone, PartialEq)]
pub struct ResponseImageGenCallCompletedEvent {
    pub item_id: String,
    pub output_index: u64,
    pub sequence_number: u64,
}

/// Emitted when an image generation tool call is actively generating an image.
#[derive(Debug, Clone, PartialEq)]
pub struct ResponseImageGenCallGeneratingEvent {
    pub item_id: String,
    pub output_index: u64,
    pub sequence_number: u64,
}

/// Emitted when an image generation tool call is in progress.
#[derive(Debug, Clone, PartialEq)]
pub struct ResponseImageGenCallInProgressEvent {
    pub item_id: String,
    pub output_index: u64,
    pub sequence_number: u64,
}

/// Emitted when a partial image is available during image generation streaming.
#[derive(Debug, Clone, PartialEq)]
pub struct ResponseImageGenCallPartialImageEvent {
    pub item_id: String,
    pub output_index: u64,
    pub partial_image_b64: String,
    pub partial_image_index: u64,
    pub sequence_number: u64,
}

/// Emitted when an MCP tool call has completed successfully.
#[derive(Debug, Clone, PartialEq)]
pub struct ResponseMcpCallCompletedEvent {
    pub sequence_number: u64,
}

/// Emitted when an MCP tool call has failed.
#[derive(Debug, Clone, PartialEq)]
pub struct ResponseMcpCallFailedEvent {
    pub sequence_number: u64,
}

/// Emitted when an MCP tool call is in progress.
#[derive(Debug, Clone, PartialEq)]
pub struct ResponseMcpCallInProgressEvent {
    pub item_id: String,
    pub output_index: u64,
    pub sequence_number: u64,
}

/// Emitted when the list of available MCP tools has been successfully retrieved.
#[derive(Debug, Clone, PartialEq)]
pub struct ResponseMcpListToolsCompletedEvent {
    pub sequence_number: u64,
}

/// Emitted when the attempt to list available MCP tools has failed.
#[derive(Debug, Clone, PartialEq)]
pub struct ResponseMcpListToolsFailedEvent {
    pub sequence_number: u64,
}

/// Emitted when the system is in the process of retrieving the list of available MCP tools.
#[derive(Debug, Clone, PartialEq)]
pub struct ResponseMcpListToolsInProgressEvent {
    pub sequence_number: u64,
}

/// Emitted when the reasoning content is finalized for an item.
#[derive(Debug, Clone, PartialEq)]
pub struct ResponseReasoningDoneEvent {
    pub content_index: u64,
    pub item_id: String,
    pub output_index: u64,
    pub sequence_number: u64,
    pub text: String,
}

/// Emitted when the reasoning summary content is finalized for an item.
#[derive(Debug, Clone, PartialEq)]
pub struct ResponseReasoningSummaryDoneEvent {
    pub item_id: String,
    pub output_index: u64,
    pub sequence_number: u64,
    pub summary_index: u64,
    pub text: String,
}

/// Emitted when a new reasoning summary part is added.
#[derive(Debug, Clone, PartialEq)]
pub struct ResponseReasoningSummaryPartAddedEvent {
    pub item_id: String,
    pub output_index: u64,
    pub part: ResponseReasoningSummaryPartAddedEventPart,
    pub sequence_number: u64,
    pub summary_index: u64,
}

#[derive(Debug, Clone, PartialEq)]
pub struct ResponseReasoningSummaryPartAddedEventPart {
    pub text: String,
}

/// Emitted when a reasoning summary part is completed.
#[derive(Debug, Clone, PartialEq)]
pub struct ResponseReasoningSummaryPartDoneEvent {
    pub item_id: String,
    pub output_index: u64,
    pub part: ResponseReasoningSummaryPartDoneEventPart,
    pub sequence_number: u64,
    pub summary_index: u64,
}

#[derive(Debug, Clone, PartialEq)]
pub struct ResponseReasoningSummaryPartDoneEventPart {
    pub text: String,
}

/// Emitted when a delta is added to a reasoning summary text.
#[derive(Debug, Clone, PartialEq)]
pub struct ResponseReasoningSummaryTextDeltaEvent {
    pub delta: String,
    pub item_id: String,
    pub output_index: u64,
    pub sequence_number: u64,
    pub summary_index: u64,
}

/// Emitted when a reasoning summary text is completed.
#[derive(Debug, Clone, PartialEq)]
pub struct ResponseReasoningSummaryTextDoneEvent {
    pub item_id: String,
    pub output_index: u64,
    pub sequence_number: u64,
    pub summary_index: u64,
    pub text: String,
}

/// Emitted when there is a partial refusal text.
#[derive(Debug, Clone, PartialEq)]
pub struct ResponseRefusalDeltaEvent {
    pub content_index: u64,
    pub delta: String,
    pub item_id: String,
    pub output_index: u64,
    pub sequence_number: u64,
}

/// Emitted when refusal text is finalized.
#[derive(Debug, Clone, PartialEq)]
pub struct ResponseRefusalDoneEvent {
    pub content_index: u64,
    pub item_id: String,
    pub output_index: u64,
    pub refusal: String,
    pub sequence_number: u64,
}

/// Emitted when there is an additional text delta.
#[derive(Debug, Clone, PartialEq)]
pub struct ResponseTextDeltaEvent {
    pub content_index: u64,
    pub delta: String,
    pub item_id: String,
    pub output_index: u64,
    pub sequence_number: u64,
}

/// Emitted when text content is finalized.
#[derive(Debug, Clone, PartialEq)]
pub struct ResponseTextDoneEvent {
    pub content_index: u64,
    pub item_id: String,
    pub output_index: u64,
    pub sequence_number: u64,
    pub text: String,
}

/// Emitted when a web search call is completed.
#[derive(Debug, Clone, PartialEq)]
pub struct ResponseWebSearchCallCompletedEvent {
    pub item_id: String,
    pub output_index: u64,
    pub sequence_number: u64,
}

/// Emitted when a web search call is initiated.
#[derive(Debug, Clone, PartialEq)]
pub struct ResponseWebSearchCallInProgressEvent {
    pub item_id: String,
    pub output_index: u64,
    pub sequence_number: u64,
}

/// Emitted when a web search call is executing.
#[derive(Debug, Clone, PartialEq)]
pub struct ResponseWebSearchCallSearchingEvent {
    pub item_id: String,
    pub output_index: u64,
    pub sequence_number: u64,
}

#[derive(Debug, Clone, PartialEq, Default)]
pub struct ResponseRetrieveParams {
    pub includes: Option<Vec<ResponseIncludable>>,
    pub starting_after: Option<i64>,
    pub stream: Option<bool>,
}

/// A message in a chat completion request.
#[derive(Debug, Clone, PartialEq)]
pub struct ChatMessage {
    /// The role of the message author.
    pub role: String,
    /// The content of the message.
    pub content: String,
}

/// JSON object response format.
#[derive(Debug, Clone, PartialEq)]
pub struct ChatResponseFormatJsonObject {
    /// The type of response format. Always "json_object".
    pub type_field: String,
}

/// A choice in a chat completion response.
#[derive(Debug, Clone, PartialEq)]
pub struct ChatChoice {
    /// The index of the choice.
    pub index: i32,
    /// The message generated by the model.
    pub message: ChatMessage,
    /// The reason the model stopped generating tokens.
    pub finish_reason: Option<String>,
}

/// Usage statistics for a chat completion.
#[derive(Debug, Clone, PartialEq)]
pub struct ChatUsage {
    /// Number of tokens in the prompt.
    pub prompt_tokens: i32,
    /// Number of tokens in the generated completion.
    pub completion_tokens: i32,
    /// Total number of tokens used.
    pub total_tokens: i32,
}

/// A chat completion response.
#[derive(Debug, Clone, PartialEq)]
pub struct ChatCompletion {
    /// A unique identifier for the chat completion.
    pub id: String,
    /// The object type, which is always "chat.completion".
    pub object: String,
    /// The Unix timestamp (in seconds) of when the chat completion was created.
    pub created: i64,
    /// The model used for the chat completion.
    pub model: String,
    /// A list of chat completion choices.
    pub choices: Vec<ChatChoice>,
    /// Usage statistics for the completion request.
    pub usage: Option<ChatUsage>,
}

/// Emitted when the model response is complete.  The finished response is
/// carried as its raw JSON document.
#[derive(Debug)]
pub struct ResponseCompletedEvent {
    pub response: Value,
    pub sequence_number: u64,
}
/// Emitted when a new content part is added.  The part is carried as its raw
/// JSON document.
#[derive(Debug)]
pub struct ResponseContentPartAddedEvent {
    pub content_index: u64,
    pub item_id: String,
    pub output_index: u64,
    pub part: Value,
    pub sequence_number: u64,
}
/// Emitted when a content part is done.  The part is carried as its raw JSON
/// document.
#[derive(Debug)]
pub struct ResponseContentPartDoneEvent {
    pub content_index: u64,
    pub item_id: String,
    pub output_index: u64,
    pub part: Value,
    pub sequence_number: u64,
}
/// An event that is emitted when a response is created.  The response is
/// carried as its raw JSON document.
#[derive(Debug)]
pub struct ResponseCreatedEvent {
    pub nonce: Option<String>,
    pub response: Value,
    pub sequence_number: u64,
}
/// An event that is emitted when a response fails.  The response is carried as
/// its raw JSON document.
#[derive(Debug)]
pub struct ResponseFailedEvent {
    pub response: Value,
    pub sequence_number: u64,
}
/// Emitted when the response is in progress.  The response is carried as its
/// raw JSON document.
#[derive(Debug)]
pub struct ResponseInProgressEvent {
    pub response: Value,
    pub sequence_number: u64,
}
/// An event that is emitted when a response finishes as incomplete.  The
/// response is carried as its raw JSON document.
#[derive(Debug)]
pub struct ResponseIncompleteEvent {
    pub response: Value,
    pub sequence_number: u64,
}
/// Emitted when there is a delta to the arguments of an MCP tool call.
#[derive(Debug)]
pub struct ResponseMcpCallArgumentsDeltaEvent {
    pub delta: Value,
    pub item_id: String,
    pub output_index: u64,
    pub sequence_number: u64,
}
/// Emitted when the arguments for an MCP tool call are finalized.
#[derive(Debug)]
pub struct ResponseMcpCallArgumentsDoneEvent {
    pub arguments: Value,
    pub item_id: String,
    pub output_index: u64,
    pub sequence_number: u64,
}
/// Emitted when a new output item is added.  The item is carried as its raw
/// JSON document.
#[derive(Debug)]
pub struct ResponseOutputItemAddedEvent {
    pub item: Value,
    pub output_index: u64,
    pub sequence_number: u64,
}
/// Emitted when an output item is marked done.  The item is carried as its raw
/// JSON document.
#[derive(Debug)]
pub struct ResponseOutputItemDoneEvent {
    pub item: Value,
    pub output_index: u64,
    pub sequence_number: u64,
}
/// Emitted when an annotation is added to output text content.  On the wire
/// the item id arrives under the key `item__id`.
#[derive(Debug)]
pub struct ResponseOutputTextAnnotationAddedEvent {
    pub annotation: Value,
    pub annotation_index: u64,
    pub content_index: u64,
    pub item_id: String,
    pub output_index: u64,
    pub sequence_number: u64,
}
/// Emitted when a response is queued and waiting to be processed.  The
/// response is carried as its raw JSON document.
#[derive(Debug)]
pub struct ResponseQueuedEvent {
    pub response: Value,
    pub sequence_number: u64,
}
/// Emitted when there is a delta to the reasoning content.
#[derive(Debug)]
pub struct ResponseReasoningDeltaEvent {
    pub content_index: u64,
    pub delta: Value,
    pub item_id: String,
    pub output_index: u64,
    pub sequence_number: u64,
}
/// Emitted when there is a delta to the reasoning summary content.
#[derive(Debug)]
pub struct ResponseReasoningSummaryDeltaEvent {
    pub delta: Value,
    pub item_id: String,
    pub output_index: u64,
    pub sequence_number: u64,
    pub summary_index: u64,
}

/// Represents all possible events from a response stream, keyed by the wire
/// discriminator in the payload's top-level `type` field.
#[derive(Debug)]
pub enum ResponseStreamEvent {
    ResponseAudioDelta(ResponseAudioDeltaEvent),
    ResponseAudioDone(ResponseAudioDoneEvent),
    ResponseAudioTranscriptDelta(ResponseAudioTranscriptDeltaEvent),
    ResponseAudioTranscriptDone(ResponseAudioTranscriptDoneEvent),
    ResponseCodeInterpreterCallCodeDelta(ResponseCodeInterpreterCallCodeDeltaEvent),
    ResponseCodeInterpreterCallCodeDone(ResponseCodeInterpreterCallCodeDoneEvent),
    ResponseCodeInterpreterCallCompleted(ResponseCodeInterpreterCallCompletedEvent),
    ResponseCodeInterpreterCallInProgress(ResponseCodeInterpreterCallInProgressEvent),
    ResponseCodeInterpreterCallInterpreting(ResponseCodeInterpreterCallInterpretingEvent),
    ResponseCompleted(ResponseCompletedEvent),
    ResponseContentPartAdded(ResponseContentPartAddedEvent),
    ResponseContentPartDone(ResponseContentPartDoneEvent),
    ResponseCreated(ResponseCreatedEvent),
    Error(ResponseErrorEvent),
    ResponseFileSearchCallCompleted(ResponseFileSearchCallCompletedEvent),
    ResponseFileSearchCallInProgress(ResponseFileSearchCallInProgressEvent),
    ResponseFileSearchCallSearching(ResponseFileSearchCallSearchingEvent),
    ResponseFunctionCallArgumentsDelta(ResponseFunctionCallArgumentsDeltaEvent),
    ResponseFunctionCallArgumentsDone(ResponseFunctionCallArgumentsDoneEvent),
    ResponseInProgress(ResponseInProgressEvent),
    ResponseFailed(ResponseFailedEvent),
    ResponseIncomplete(ResponseIncompleteEvent),
    ResponseOutputItemAdded(ResponseOutputItemAddedEvent),
    ResponseOutputItemDone(ResponseOutputItemDoneEvent),
    ResponseReasoningSummaryPartAdded(ResponseReasoningSummaryPartAddedEvent),
    ResponseReasoningSummaryPartDone(ResponseReasoningSummaryPartDoneEvent),
    ResponseReasoningSummaryTextDelta(ResponseReasoningSummaryTextDeltaEvent),
    ResponseReasoningSummaryTextDone(ResponseReasoningSummaryTextDoneEvent),
    ResponseRefusalDelta(ResponseRefusalDeltaEvent),
    ResponseRefusalDone(ResponseRefusalDoneEvent),
    ResponseReasoningDelta(ResponseReasoningDeltaEvent),
    ResponseReasoningDone(ResponseReasoningDoneEvent),
    ResponseReasoningSummaryDelta(ResponseReasoningSummaryDeltaEvent),
    ResponseReasoningSummaryDone(ResponseReasoningSummaryDoneEvent),
    ResponseTextDelta(ResponseTextDeltaEvent),
    ResponseTextDone(ResponseTextDoneEvent),
    ResponseWebSearchCallCompleted(ResponseWebSearchCallCompletedEvent),
    ResponseWebSearchCallInProgress(ResponseWebSearchCallInProgressEvent),
    ResponseWebSearchCallSearching(ResponseWebSearchCallSearchingEvent),
    ResponseImageGenerationCallCompleted(ResponseImageGenCallCompletedEvent),
    ResponseImageGenerationCallGenerating(ResponseImageGenCallGeneratingEvent),
    ResponseImageGenerationCallInProgress(ResponseImageGenCallInProgressEvent),
    ResponseImageGenerationCallPartialImage(ResponseImageGenCallPartialImageEvent),
    ResponseMcpCallArgumentsDelta(ResponseMcpCallArgumentsDeltaEvent),
    ResponseMcpCallArgumentsDone(ResponseMcpCallArgumentsDoneEvent),
    ResponseMcpCallCompleted(ResponseMcpCallCompletedEvent),
    ResponseMcpCallFailed(ResponseMcpCallFailedEvent),
    ResponseMcpCallInProgress(ResponseMcpCallInProgressEvent),
    ResponseMcpListToolsCompleted(ResponseMcpListToolsCompletedEvent),
    ResponseMcpListToolsFailed(ResponseMcpListToolsFailedEvent),
    ResponseMcpListToolsInProgress(ResponseMcpListToolsInProgressEvent),
    ResponseOutputTextAnnotationAdded(ResponseOutputTextAnnotationAddedEvent),
    ResponseQueued(ResponseQueuedEvent),
}

} // verus!
