use std::collections::HashMap;
use vstd::prelude::*;

use crate::common::{opt_map, opt_strs, strs, Identifiable, ToolCalls};
use crate::error::OpenApiError;
use crate::networking::{self, ApiRequest, HttpMethod};

verus! {

/// A message of a thread, as the service returned it.
#[derive(Clone, Debug)]
pub struct Message {
    pub id: String,
    pub object: String,
    pub created_at: i64,
    pub thread_id: String,
    pub role: MessageRole,
    pub content: Vec<MessageContent>,
    pub assistant_id: Option<String>,
    pub run_id: Option<String>,
    pub file_ids: Vec<String>,
    pub metadata: HashMap<String, String>,
}

impl Identifiable for Message {
    open spec fn identifier(&self) -> Seq<char> {
        self.id@
    }

    fn get_identifier(&self) -> (r: String) {
        self.id.clone()
    }
}

impl<'a> Identifiable for &'a Message {
    open spec fn identifier(&self) -> Seq<char> {
        (**self).identifier()
    }

    fn get_identifier(&self) -> (r: String) {
        (**self).get_identifier()
    }
}

/// A file attached to a message.
#[derive(Clone, Debug)]
pub struct MessageFile {
    pub id: String,
    pub object: String,
    pub created_at: i64,
    pub message_id: String,
}

#[derive(Clone, Copy, Debug, PartialEq, Eq, Structural)]
pub enum MessageRole {
    System,
    User,
    Assistant,
}

impl<'a> From<&'a str> for MessageRole {
    /// The role a name stands for; an unknown name stands for `User`.
    fn from(s: &'a str) -> (r: MessageRole) {
        let name = s.to_owned();
        if name == String::from_str("system") {
            MessageRole::System
        } else if name == String::from_str("assistant") {
            MessageRole::Assistant
        } else {
            MessageRole::User
        }
    }
}

impl<'a> vstd::std_specs::convert::FromSpecImpl<&'a str> for MessageRole {
    open spec fn obeys_from_spec() -> bool {
        true
    }

    open spec fn from_spec(s: &'a str) -> MessageRole {
        if s@ == "system"@ {
            MessageRole::System
        } else if s@ == "assistant"@ {
            MessageRole::Assistant
        } else {
            MessageRole::User
        }
    }
}

/// One part of a message's content, tagged by its kind.
#[derive(Clone, Debug)]
pub enum MessageContent {
    Text(TextContent),
    ImageFile(ImageContent),
}

#[derive(Clone, Debug)]
pub struct TextContent {
    pub content_type: String,
    pub text: TextValue,
}

#[derive(Clone, Debug)]
pub struct TextValue {
    pub value: String,
    pub annotations: Vec<Annotations>,
}

#[derive(Clone, Debug)]
pub struct ImageContent {
    pub content_type: String,
    pub image_file: ImageLocation,
}

#[derive(Clone, Debug)]
pub struct ImageLocation {
    pub file_id: String,
}

#[derive(Clone, Debug)]
pub enum Annotations {
    FileCitation(FileCitation),
    FilePath(FilePath),
}

#[derive(Clone, Debug)]
pub struct FileCitation {
    pub annotation_type: String,
    pub text: String,
    pub file_citation: FileCitationLocation,
    pub start_index: u32,
    pub end_index: u32,
}

#[derive(Clone, Debug)]
pub struct FileCitationLocation {
    pub file_id: String,
    pub quote: String,
}

#[derive(Clone, Debug)]
pub struct FilePath {
    pub annotation_type: String,
    pub text: String,
    pub file_path: FilePathLocation,
    pub start_index: u32,
    pub end_index: u32,
}

#[derive(Clone, Debug)]
pub struct FilePathLocation {
    pub file_id: String,
}

/// A message as chat completions and new threads exchange it.
#[derive(Clone, Debug)]
pub struct GeneralMessage {
    pub content: Option<String>,
    pub role: MessageRole,
    pub name: Option<String>,
    pub tool_calls: Option<Vec<ToolCalls>>,
    pub tool_call_id: Option<String>,
    pub file_ids: Option<Vec<String>>,
    pub metadata: Option<HashMap<String, String>>,
}

impl GeneralMessage {
    pub fn get_content(&self) -> (r: Option<String>)
        ensures
            r == self.content,
    {
        self.content.clone()
    }

    /// A message with this content, role and name, and nothing else set.
    pub open spec fn plain(content: Option<String>, role: MessageRole, name: Option<String>) -> Self {
        GeneralMessage {
            content,
            role,
            name,
            tool_calls: None,
            tool_call_id: None,
            file_ids: None,
            metadata: None,
        }
    }
}

/// A chat-completion message, tagged by the part its author plays.
#[derive(Clone, Debug)]
pub enum CompletionMessage {
    SystemMessage(GeneralMessage),
    UserMessage(GeneralMessage),
    AssistantMessage(GeneralMessage),
    ToolMessage(GeneralMessage),
}

impl CompletionMessage {
    pub fn new_system(content: String, name: Option<String>) -> (r: CompletionMessage)
        ensures
            r == CompletionMessage::SystemMessage(
                GeneralMessage::plain(Some(content), MessageRole::System, name),
            ),
    {
        CompletionMessage::SystemMessage(
            GeneralMessage {
                content: Some(content),
                role: MessageRole::System,
                name,
                tool_calls: None,
                tool_call_id: None,
                file_ids: None,
                metadata: None,
            },
        )
    }

    pub fn new_user(content: String, name: Option<String>) -> (r: CompletionMessage)
        ensures
            r == CompletionMessage::UserMessage(
                GeneralMessage::plain(Some(content), MessageRole::User, name),
            ),
    {
        CompletionMessage::UserMessage(
            GeneralMessage {
                content: Some(content),
                role: MessageRole::User,
                name,
                tool_calls: None,
                tool_call_id: None,
                file_ids: None,
                metadata: None,
            },
        )
    }

    pub fn new_assistant(
        content: Option<String>,
        name: Option<String>,
        tool_calls: Option<Vec<ToolCalls>>,
    ) -> (r: CompletionMessage)
        ensures
            r == CompletionMessage::AssistantMessage(
                GeneralMessage {
                    tool_calls,
                    ..GeneralMessage::plain(content, MessageRole::Assistant, name)
                },
            ),
    {
        CompletionMessage::AssistantMessage(
            GeneralMessage {
                content,
                role: MessageRole::Assistant,
                name,
                tool_calls,
                tool_call_id: None,
                file_ids: None,
                metadata: None,
            },
        )
    }

    /// A tool's answer; the role has no name of its own and is sent as
    /// `User`.
    pub fn new_tool(content: String, tool_call_id: Option<String>) -> (r: CompletionMessage)
        ensures
            r == CompletionMessage::ToolMessage(
                GeneralMessage {
                    tool_call_id,
                    ..GeneralMessage::plain(Some(content), MessageRole::User, None)
                },
            ),
    {
        CompletionMessage::ToolMessage(
            GeneralMessage {
                content: Some(content),
                role: MessageRole::User,
                name: None,
                tool_calls: None,
                tool_call_id,
                file_ids: None,
                metadata: None,
            },
        )
    }
}

/// A message to add to a thread. Its role is always `User`.
#[derive(Debug)]
pub struct MessageBuilder {
    thread_id: String,
    role: MessageRole,
    content: String,
    file_ids: Option<Vec<String>>,
    metadata: Option<HashMap<String, String>>,
}

/// What a `MessageBuilder` holds.
pub struct MessageBuilderView {
    pub thread_id: Seq<char>,
    pub role: MessageRole,
    pub content: Seq<char>,
    pub file_ids: Option<Seq<Seq<char>>>,
    pub metadata: Option<Map<String, String>>,
}

impl View for MessageBuilder {
    type V = MessageBuilderView;

    closed spec fn view(&self) -> MessageBuilderView {
        MessageBuilderView {
            thread_id: self.thread_id@,
            role: self.role,
            content: self.content@,
            file_ids: opt_strs(self.file_ids),
            metadata: opt_map(self.metadata),
        }
    }
}

impl MessageBuilder {
    /// A user message for the thread `thread_id`; the thread is resolved to
    /// its identifier now.
    pub fn new<I: Identifiable>(thread_id: I, content: String) -> (r: Result<Self, OpenApiError>)
        ensures
            r matches Ok(b) && b@ == (MessageBuilderView {
                thread_id: thread_id.identifier(),
                role: MessageRole::User,
                content: content@,
                file_ids: None,
                metadata: None,
            }),
    {
        let thread_id = thread_id.get_identifier();
        Ok(MessageBuilder {
            thread_id,
            role: MessageRole::User,
            content,
            file_ids: None,
            metadata: None,
        })
    }

    pub fn with_file_ids(self, file_ids: Vec<String>) -> (r: Self)
        ensures
            r@ == (MessageBuilderView { file_ids: Some(strs(file_ids@)), ..self@ }),
    {
        MessageBuilder { file_ids: Some(file_ids), ..self }
    }

    /// Appends one file, resolved to its identifier now.
    pub fn add_file_id<I: Identifiable>(self, file_id: I) -> (r: Self)
        ensures
            r@ == (MessageBuilderView {
                file_ids: Some(
                    match self@.file_ids {
                        Some(ids) => ids,
                        None => Seq::empty(),
                    }.push(file_id.identifier()),
                ),
                ..self@
            }),
    {
        let file_id = file_id.get_identifier();
        let ghost before = match self@.file_ids {
            Some(ids) => ids,
            None => Seq::empty(),
        };
        let MessageBuilder { thread_id, role, content, file_ids, metadata } = self;
        let mut ids = match file_ids {
            Some(ids) => ids,
            None => Vec::new(),
        };
        assert(strs(ids@) =~= before);
        ids.push(file_id);
        assert(strs(ids@) =~= before.push(file_id@));
        MessageBuilder { thread_id, role, content, file_ids: Some(ids), metadata }
    }

    pub fn with_metadata(self, metadata: HashMap<String, String>) -> (r: Self)
        ensures
            r@ == (MessageBuilderView { metadata: Some(metadata@), ..self@ }),
    {
        MessageBuilder { metadata: Some(metadata), ..self }
    }

    /// Where the message is created: under its thread.
    pub fn create_request(&self) -> (r: ApiRequest)
        ensures
            r.method == HttpMethod::Post,
            r.endpoint@ == "threads/"@ + self@.thread_id + "/messages"@,
    {
        networking::create_message(&self.thread_id)
    }
}

impl MessageBuilder {
    pub fn thread_id(&self) -> (r: &String)
        ensures
            r@ == self@.thread_id,
    {
        &self.thread_id
    }

    pub fn role(&self) -> (r: MessageRole)
        ensures
            r == self@.role,
    {
        self.role
    }

    pub fn content(&self) -> (r: &String)
        ensures
            r@ == self@.content,
    {
        &self.content
    }

    pub fn file_ids(&self) -> (r: &Option<Vec<String>>)
        ensures
            opt_strs(*r) == self@.file_ids,
    {
        &self.file_ids
    }

    pub fn metadata(&self) -> (r: &Option<HashMap<String, String>>)
        ensures
            opt_map(*r) == self@.metadata,
    {
        &self.metadata
    }
}

} // verus!
