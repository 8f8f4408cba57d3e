//! The messages of the protocol.
//!
//! Client messages hold what the session reads of them.  Each server message has a model: the
//! same message with its strings and vectors as sequences.

use vstd::prelude::*;

verus! {

// ---------------------------------------------------------------------------------------------
// Client to server
// ---------------------------------------------------------------------------------------------

/// A message from the client.  The first of the four parts that is there is the message.
#[derive(Debug)]
pub struct ClientMessage {
    pub setup: Option<Setup>,
    pub client_content: Option<ClientContent>,
    pub realtime_input: Option<RealtimeInput>,
    pub tool_response: Option<ToolResponse>,
}

/// Session configuration.
#[derive(Debug)]
pub struct Setup {
    pub model: String,
    pub generation_config: Option<GenerationConfig>,
}

#[derive(Debug)]
pub struct GenerationConfig {
    pub response_modalities: Option<Vec<String>>,
}

/// Turn-based content.
#[derive(Debug)]
pub struct ClientContent {
    pub turns: Vec<Content>,
    pub turn_complete: bool,
}

/// Streaming input, with the client's own activity signals.
#[derive(Debug)]
pub struct RealtimeInput {
    pub audio: Option<InlineData>,
    pub activity_start: Option<ActivityStart>,
    pub activity_end: Option<ActivityEnd>,
    pub audio_stream_end: Option<bool>,
}

#[derive(Debug, Clone, Copy)]
pub struct ActivityStart {}

#[derive(Debug, Clone, Copy)]
pub struct ActivityEnd {}

/// Responses to function calls.
#[derive(Debug)]
pub struct ToolResponse {
    pub function_responses: Vec<FunctionResponse>,
}

#[derive(Debug)]
pub struct FunctionResponse {
    pub id: String,
    pub name: String,
}

// ---------------------------------------------------------------------------------------------
// Content
// ---------------------------------------------------------------------------------------------

#[derive(Debug)]
pub struct Content {
    pub role: Option<String>,
    pub parts: Vec<Part>,
}

#[derive(Debug)]
pub struct Part {
    pub text: Option<String>,
    pub inline_data: Option<InlineData>,
}

/// Data in base64, with its type.
#[derive(Debug)]
pub struct InlineData {
    pub mime_type: String,
    pub data: String,
}

#[verifier::ext_equal]
pub struct ContentModel {
    pub role: Option<Seq<char>>,
    pub parts: Seq<PartModel>,
}

#[verifier::ext_equal]
pub struct PartModel {
    pub text: Option<Seq<char>>,
    pub inline_data: Option<InlineDataModel>,
}

#[verifier::ext_equal]
pub struct InlineDataModel {
    pub mime_type: Seq<char>,
    pub data: Seq<char>,
}

/// The characters of a string that may be missing.
pub open spec fn text_view(text: Option<String>) -> Option<Seq<char>> {
    match text {
        Some(t) => Some(t@),
        None => None,
    }
}

impl View for InlineData {
    type V = InlineDataModel;

    open spec fn view(&self) -> InlineDataModel {
        InlineDataModel { mime_type: self.mime_type@, data: self.data@ }
    }
}

impl View for Part {
    type V = PartModel;

    open spec fn view(&self) -> PartModel {
        PartModel {
            text: text_view(self.text),
            inline_data: match self.inline_data {
                Some(d) => Some(d@),
                None => None,
            },
        }
    }
}

impl View for Content {
    type V = ContentModel;

    open spec fn view(&self) -> ContentModel {
        ContentModel {
            role: text_view(self.role),
            parts: Seq::new(self.parts@.len(), |i: int| self.parts@[i]@),
        }
    }
}

// ---------------------------------------------------------------------------------------------
// Server to client
// ---------------------------------------------------------------------------------------------

/// Session established.
#[derive(Debug)]
pub struct SetupCompleteMessage {
    pub setup_complete: SetupComplete,
}

#[derive(Debug)]
pub struct SetupComplete {
    pub session_id: String,
}

/// A piece of the model's response, or a signal about it.
#[derive(Debug)]
pub struct ServerContentMessage {
    pub server_content: ServerContent,
}

#[derive(Debug)]
pub struct ServerContent {
    pub model_turn: Option<Content>,
    pub turn_complete: Option<bool>,
    pub interrupted: Option<bool>,
}

/// Function call requests.
#[derive(Debug)]
pub struct ToolCallMessage {
    pub tool_call: ToolCall,
}

#[derive(Debug)]
pub struct ToolCall {
    pub function_calls: Vec<FunctionCall>,
}

/// A function call.  The arguments are strings, by name.
#[derive(Debug)]
pub struct FunctionCall {
    pub id: String,
    pub name: String,
    pub args: Vec<(String, String)>,
}

/// Token usage statistics.
#[derive(Debug, Clone, Copy, PartialEq, Eq, Structural)]
pub struct UsageMetadataMessage {
    pub usage_metadata: UsageMetadata,
}

#[derive(Debug, Clone, Copy, PartialEq, Eq, Structural)]
pub struct UsageMetadata {
    pub prompt_token_count: u32,
    pub response_token_count: u32,
    pub total_token_count: u32,
}

/// Voice activity events.
#[derive(Debug, Clone, Copy, PartialEq, Eq, Structural)]
pub struct VoiceActivityMessage {
    pub voice_activity: VoiceActivity,
}

#[derive(Debug, Clone, Copy, PartialEq, Eq, Structural)]
pub struct VoiceActivity {
    pub activity_type: VoiceActivityType,
}

#[derive(Debug, Clone, Copy, PartialEq, Eq, Structural)]
pub enum VoiceActivityType {
    VoiceActivityStart,
    VoiceActivityEnd,
}

/// Any message to the client.
#[derive(Debug)]
pub enum ServerMessage {
    SetupComplete(SetupCompleteMessage),
    ServerContent(ServerContentMessage),
    ToolCall(ToolCallMessage),
    UsageMetadata(UsageMetadataMessage),
    VoiceActivity(VoiceActivityMessage),
}

#[verifier::ext_equal]
pub struct ServerContentModel {
    pub model_turn: Option<ContentModel>,
    pub turn_complete: Option<bool>,
    pub interrupted: Option<bool>,
}

#[verifier::ext_equal]
pub struct FunctionCallModel {
    pub id: Seq<char>,
    pub name: Seq<char>,
    pub args: Seq<(Seq<char>, Seq<char>)>,
}

/// A message to the client as contracts speak of it.
#[verifier::ext_equal]
pub enum MessageModel {
    SetupComplete { session_id: Seq<char> },
    ServerContent(ServerContentModel),
    ToolCall { function_calls: Seq<FunctionCallModel> },
    UsageMetadata(UsageMetadata),
    VoiceActivity(VoiceActivityType),
}

impl View for SetupCompleteMessage {
    type V = MessageModel;

    open spec fn view(&self) -> MessageModel {
        MessageModel::SetupComplete { session_id: self.setup_complete.session_id@ }
    }
}

impl View for ServerContentMessage {
    type V = MessageModel;

    open spec fn view(&self) -> MessageModel {
        MessageModel::ServerContent(
            ServerContentModel {
                model_turn: match self.server_content.model_turn {
                    Some(c) => Some(c@),
                    None => None,
                },
                turn_complete: self.server_content.turn_complete,
                interrupted: self.server_content.interrupted,
            },
        )
    }
}

impl View for FunctionCall {
    type V = FunctionCallModel;

    open spec fn view(&self) -> FunctionCallModel {
        FunctionCallModel {
            id: self.id@,
            name: self.name@,
            args: Seq::new(self.args@.len(), |i: int| (self.args@[i].0@, self.args@[i].1@)),
        }
    }
}

impl View for ToolCallMessage {
    type V = MessageModel;

    open spec fn view(&self) -> MessageModel {
        MessageModel::ToolCall {
            function_calls: Seq::new(
                self.tool_call.function_calls@.len(),
                |i: int| self.tool_call.function_calls@[i]@,
            ),
        }
    }
}

impl View for UsageMetadataMessage {
    type V = MessageModel;

    open spec fn view(&self) -> MessageModel {
        MessageModel::UsageMetadata(self.usage_metadata)
    }
}

impl View for VoiceActivityMessage {
    type V = MessageModel;

    open spec fn view(&self) -> MessageModel {
        MessageModel::VoiceActivity(self.voice_activity.activity_type)
    }
}

impl View for ServerMessage {
    type V = MessageModel;

    open spec fn view(&self) -> MessageModel {
        match self {
            ServerMessage::SetupComplete(m) => m@,
            ServerMessage::ServerContent(m) => m@,
            ServerMessage::ToolCall(m) => m@,
            ServerMessage::UsageMetadata(m) => m@,
            ServerMessage::VoiceActivity(m) => m@,
        }
    }
}

// ---------------------------------------------------------------------------------------------
// Laws
// ---------------------------------------------------------------------------------------------

/// Content is seen whole: its role, and each of its parts in order, with its text and its data.
pub proof fn law_content_is_seen_whole(content: Content, i: int)
    ensures
        content@.parts.len() == content.parts@.len(),
        content@.role is Some <==> content.role is Some,
        content.role is Some ==> content@.role->0 == content.role->0@,
        0 <= i < content.parts@.len() ==> ({
            let part = content.parts@[i];
            let seen = content@.parts[i];
            &&& seen.text is Some <==> part.text is Some
            &&& part.text is Some ==> seen.text->0 == part.text->0@
            &&& seen.inline_data is Some <==> part.inline_data is Some
            &&& part.inline_data is Some ==> seen.inline_data->0.mime_type
                == part.inline_data->0.mime_type@
            &&& part.inline_data is Some ==> seen.inline_data->0.data == part.inline_data->0.data@
        }),
{
}

/// A piece of the response is seen whole: the model's turn and both signals.
pub proof fn law_response_is_seen_whole(message: ServerContentMessage)
    ensures
        message@ is ServerContent,
        ({
            let content = message.server_content;
            let seen = message@->ServerContent_0;
            &&& seen.model_turn is Some <==> content.model_turn is Some
            &&& content.model_turn is Some ==> seen.model_turn->0 == content.model_turn->0@
            &&& seen.turn_complete == content.turn_complete
            &&& seen.interrupted == content.interrupted
        }),
        ServerMessage::ServerContent(message)@ == message@,
{
}

/// A tool call is seen whole: each call in order, and each argument of it in order.
pub proof fn law_tool_call_is_seen_whole(message: ToolCallMessage, i: int, j: int)
    ensures
        message@ is ToolCall,
        ({
            let calls = message.tool_call.function_calls@;
            let seen = message@->function_calls;
            &&& seen.len() == calls.len()
            &&& 0 <= i < calls.len() ==> {
                &&& seen[i].id == calls[i].id@
                &&& seen[i].name == calls[i].name@
                &&& seen[i].args.len() == calls[i].args@.len()
                &&& 0 <= j < calls[i].args@.len() ==> {
                    &&& seen[i].args[j].0 == calls[i].args@[j].0@
                    &&& seen[i].args[j].1 == calls[i].args@[j].1@
                }
            }
        }),
        ServerMessage::ToolCall(message)@ == message@,
{
}

/// The other messages are seen whole.
pub proof fn law_messages_are_seen_whole(
    setup: SetupCompleteMessage,
    usage: UsageMetadataMessage,
    activity: VoiceActivityMessage,
)
    ensures
        setup@ == (MessageModel::SetupComplete { session_id: setup.setup_complete.session_id@ }),
        usage@ == MessageModel::UsageMetadata(usage.usage_metadata),
        activity@ == MessageModel::VoiceActivity(activity.voice_activity.activity_type),
        ServerMessage::SetupComplete(setup)@ == setup@,
        ServerMessage::UsageMetadata(usage)@ == usage@,
        ServerMessage::VoiceActivity(activity)@ == activity@,
{
}

} // verus!
