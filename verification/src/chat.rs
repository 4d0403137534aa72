//! The record of a conversation with a language model that may call tools,
//! and the rule that says how the conversation goes on after each reply.

use vstd::prelude::*;
use vstd::string::{StrSliceExecFns, StringExecFns};

verus! {

/// Who said something in a conversation.
#[derive(Clone, Copy, Debug, PartialEq, Eq, Structural)]
pub enum Role {
    System,
    User,
    Assistant,
    Tool,
}

impl Role {
    /// The name of the role, as chat protocols write it.
    pub open spec fn text(self) -> Seq<char> {
        match self {
            Role::System => "system"@,
            Role::User => "user"@,
            Role::Assistant => "assistant"@,
            Role::Tool => "tool"@,
        }
    }

    /// The name of the role, as chat protocols write it.
    pub fn name(self) -> (name: &'static str)
        ensures
            name@ == self.text(),
    {
        match self {
            Role::System => "system",
            Role::User => "user",
            Role::Assistant => "assistant",
            Role::Tool => "tool",
        }
    }
}

/// One entry of a conversation. The content of a tool entry is the name of
/// the tool, a bar, and what the tool returned.
#[derive(Debug, PartialEq, Eq)]
pub struct ChatEntry {
    pub role: Role,
    pub content: String,
}

/// A `ChatEntry` as a mathematical value.
pub struct ChatEntryModel {
    pub role: Role,
    pub content: Seq<char>,
}

impl View for ChatEntry {
    type V = ChatEntryModel;

    open spec fn view(&self) -> ChatEntryModel {
        ChatEntryModel { role: self.role, content: self.content@ }
    }
}

/// The entries that a sequence of `ChatEntry` values denotes.
pub open spec fn entries_model(entries: Seq<ChatEntry>) -> Seq<ChatEntryModel> {
    Seq::new(entries.len(), |i: int| entries[i]@)
}

/// The position of the first bar in a text, or the length of the text
/// where it has none.
pub open spec fn first_bar(text: Seq<char>) -> int
    decreases text.len(),
{
    if text.len() == 0 {
        0
    } else if text[0] == '|' {
        0
    } else {
        1 + first_bar(text.drop_first())
    }
}

/// What stands before the first bar of a text: the whole text where it
/// has no bar.
pub open spec fn before_bar(text: Seq<char>) -> Seq<char> {
    text.take(first_bar(text))
}

/// What stands after the first bar of a text, where it has one.
pub open spec fn after_bar(text: Seq<char>) -> Option<Seq<char>> {
    if first_bar(text) < text.len() {
        Some(text.skip(first_bar(text) + 1))
    } else {
        None
    }
}

/// A position with a bar, before which there is none, is that of the first
/// bar; so is the length of a text without a bar.
pub proof fn lemma_first_bar_is(text: Seq<char>, at: int)
    requires
        0 <= at <= text.len(),
        at < text.len() ==> text[at] == '|',
        forall|i: int| 0 <= i < at ==> text[i] != '|',
    ensures
        first_bar(text) == at,
    decreases text.len(),
{
    if text.len() > 0 && text[0] != '|' {
        let rest = text.drop_first();
        assert forall|i: int| 0 <= i < at - 1 implies rest[i] != '|' by {
            assert(rest[i] == text[i + 1]);
        }
        lemma_first_bar_is(rest, at - 1);
    }
}

/// Splits the content of a tool entry at its first bar: the name of the
/// tool, and what the tool returned. A content without a bar is all name.
pub fn split_tool_content(content: &str) -> (parts: (String, Option<String>))
    ensures
        parts.0@ == before_bar(content@),
        match parts.1 {
            Some(rest) => after_bar(content@) == Some(rest@),
            None => after_bar(content@) is None,
        },
{
    let length = content.unicode_len();
    let mut i: usize = 0;
    while i < length
        invariant
            i <= length,
            length == content@.len(),
            forall|k: int| 0 <= k < i ==> content@[k] != '|',
        decreases length - i,
    {
        if content.get_char(i) == '|' {
            proof {
                lemma_first_bar_is(content@, i as int);
            }
            let name = content.substring_char(0, i);
            let rest = content.substring_char(i + 1, length);
            return (name.to_owned(), Some(rest.to_owned()));
        }
        i += 1;
    }
    proof {
        lemma_first_bar_is(content@, length as int);
        assert(content@.take(length as int) =~= content@);
    }
    (content.to_owned(), None)
}

/// A message as a chat completion request carries it.
#[derive(Debug, PartialEq, Eq)]
pub enum RequestMessage {
    System(String),
    User(String),
    Assistant(String),
    Tool(String),
}

/// A `RequestMessage` as a mathematical value.
pub enum RequestMessageModel {
    System(Seq<char>),
    User(Seq<char>),
    Assistant(Seq<char>),
    Tool(Seq<char>),
}

impl View for RequestMessage {
    type V = RequestMessageModel;

    open spec fn view(&self) -> RequestMessageModel {
        match *self {
            RequestMessage::System(c) => RequestMessageModel::System(c@),
            RequestMessage::User(c) => RequestMessageModel::User(c@),
            RequestMessage::Assistant(c) => RequestMessageModel::Assistant(c@),
            RequestMessage::Tool(c) => RequestMessageModel::Tool(c@),
        }
    }
}

/// The message that an entry is sent as. A tool entry is sent with what
/// stands before the first bar of its content.
pub open spec fn request_message(entry: ChatEntryModel) -> RequestMessageModel {
    match entry.role {
        Role::System => RequestMessageModel::System(entry.content),
        Role::User => RequestMessageModel::User(entry.content),
        Role::Assistant => RequestMessageModel::Assistant(entry.content),
        Role::Tool => RequestMessageModel::Tool(before_bar(entry.content)),
    }
}

/// The messages that a sequence of `RequestMessage` values denotes.
pub open spec fn request_messages_model(messages: Seq<RequestMessage>) -> Seq<RequestMessageModel> {
    Seq::new(messages.len(), |i: int| messages[i]@)
}

/// The content of a tool entry: the name of the tool, a bar, and what the
/// tool returned.
pub open spec fn tool_content(tool: Seq<char>, result: Seq<char>) -> Seq<char> {
    tool + "|"@ + result
}

/// The content of the entry that reports a failed tool call.
pub open spec fn failure_content(reason: Seq<char>) -> Seq<char> {
    "Function call failed: "@ + reason
}

/// The record of a conversation.
#[derive(Debug, PartialEq, Eq)]
pub struct ChatState {
    pub messages: Vec<ChatEntry>,
    pub verbose: bool,
}

/// A `ChatState` as a mathematical value.
pub struct ChatStateModel {
    pub messages: Seq<ChatEntryModel>,
    pub verbose: bool,
}

impl View for ChatState {
    type V = ChatStateModel;

    open spec fn view(&self) -> ChatStateModel {
        ChatStateModel { messages: entries_model(self.messages@), verbose: self.verbose }
    }
}

impl ChatStateModel {
    /// The conversation with one more entry at its end.
    pub open spec fn with(self, role: Role, content: Seq<char>) -> ChatStateModel {
        ChatStateModel { messages: self.messages.push(ChatEntryModel { role, content }), ..self }
    }
}

/// What a chat loop does after a step.
#[derive(Clone, Copy, Debug, PartialEq, Eq, Structural)]
pub enum ChatStep {
    /// Ask the model again, with the conversation as it now stands.
    Continue,
    /// The turn is over.
    Stop,
}

impl ChatState {
    /// An empty conversation.
    pub fn new(verbose: bool) -> (state: ChatState)
        ensures
            state@ == (ChatStateModel { messages: Seq::empty(), verbose }),
    {
        let state = ChatState { messages: Vec::new(), verbose };
        assert(entries_model(state.messages@) =~= Seq::<ChatEntryModel>::empty());
        state
    }

    fn add(&mut self, role: Role, content: String)
        ensures
            final(self)@ == old(self)@.with(role, content@),
    {
        self.messages.push(ChatEntry { role, content });
        assert(entries_model(self.messages@) =~= entries_model(old(self).messages@).push(
            ChatEntryModel { role, content: content@ },
        ));
    }

    /// Adds what the system said.
    pub fn add_system_message(&mut self, content: &str)
        ensures
            final(self)@ == old(self)@.with(Role::System, content@),
    {
        self.add(Role::System, content.to_owned());
    }

    /// Adds what the user said.
    pub fn add_user_message(&mut self, content: &str)
        ensures
            final(self)@ == old(self)@.with(Role::User, content@),
    {
        self.add(Role::User, content.to_owned());
    }

    /// Adds what the assistant said.
    pub fn add_assistant_message(&mut self, content: &str)
        ensures
            final(self)@ == old(self)@.with(Role::Assistant, content@),
    {
        self.add(Role::Assistant, content.to_owned());
    }

    /// Adds what a tool returned, under the name of the tool.
    pub fn add_tool_message(&mut self, tool_name: &str, content: &str)
        ensures
            final(self)@ == old(self)@.with(Role::Tool, tool_content(tool_name@, content@)),
    {
        let mut entry = tool_name.to_owned();
        entry.append("|");
        entry.append(content);
        self.add(Role::Tool, entry);
    }

    /// The conversation as the messages of a chat completion request, one
    /// for each entry, in order.
    pub fn to_request_messages(&self) -> (messages: Vec<RequestMessage>)
        ensures
            messages@.len() == self@.messages.len(),
            forall|i: int|
                0 <= i < messages@.len() ==> (#[trigger] messages@[i])@ == request_message(
                    self@.messages[i],
                ),
    {
        let mut messages: Vec<RequestMessage> = Vec::new();
        let mut i: usize = 0;
        while i < self.messages.len()
            invariant
                i <= self.messages.len(),
                messages@.len() == i,
                forall|k: int|
                    0 <= k < i ==> (#[trigger] messages@[k])@ == request_message(self@.messages[k]),
            decreases self.messages.len() - i,
        {
            let entry = &self.messages[i];
            let message = match entry.role {
                Role::System => RequestMessage::System(entry.content.clone()),
                Role::User => RequestMessage::User(entry.content.clone()),
                Role::Assistant => RequestMessage::Assistant(entry.content.clone()),
                Role::Tool => RequestMessage::Tool(split_tool_content(entry.content.as_str()).0),
            };
            messages.push(message);
            i += 1;
        }
        messages
    }

    /// Takes the reply of the model. A reply that calls tools goes on: the
    /// tools are to be run, and the model asked again. Any other reply ends
    /// the turn, and what the assistant said in it, if anything, is added.
    pub fn on_reply(&mut self, content: Option<&str>, tool_calls: usize) -> (step: ChatStep)
        ensures
            tool_calls > 0 ==> step == ChatStep::Continue && final(self)@ == old(self)@,
            tool_calls == 0 ==> step == ChatStep::Stop && final(self)@ == (match content {
                Some(said) => old(self)@.with(Role::Assistant, said@),
                None => old(self)@,
            }),
    {
        if tool_calls > 0 {
            ChatStep::Continue
        } else {
            match content {
                Some(said) => {
                    self.add_assistant_message(said);
                },
                None => {},
            }
            ChatStep::Stop
        }
    }

    /// Takes what a tool call came to. What the tool returned is added
    /// under the name of the tool, and the loop goes on. A call that failed
    /// is reported as what the assistant says, and ends the turn.
    pub fn on_tool_result(&mut self, tool_name: &str, outcome: Result<&str, &str>) -> (step:
        ChatStep)
        ensures
            match outcome {
                Ok(result) => step == ChatStep::Continue && final(self)@ == old(self)@.with(
                    Role::Tool,
                    tool_content(tool_name@, result@),
                ),
                Err(reason) => step == ChatStep::Stop && final(self)@ == old(self)@.with(
                    Role::Assistant,
                    failure_content(reason@),
                ),
            },
    {
        match outcome {
            Ok(result) => {
                self.add_tool_message(tool_name, result);
                ChatStep::Continue
            },
            Err(reason) => {
                let mut said = "Function call failed: ".to_owned();
                said.append(reason);
                self.add(Role::Assistant, said);
                ChatStep::Stop
            },
        }
    }
}

/// The name under which a tool message was added is what the message is
/// sent with, where the name has no bar in it.
pub proof fn lemma_tool_message_is_sent_with_its_name(tool: Seq<char>, result: Seq<char>)
    requires
        !tool.contains('|'),
    ensures
        before_bar(tool_content(tool, result)) == tool,
        after_bar(tool_content(tool, result)) == Some(result),
{
    reveal_strlit("|");
    let content = tool_content(tool, result);
    assert("|"@.len() == 1);
    assert(content[tool.len() as int] == '|');
    assert forall|i: int| 0 <= i < tool.len() implies content[i] != '|' by {
        assert(content[i] == tool[i]);
        assert(tool.contains(tool[i]));
    }
    lemma_first_bar_is(content, tool.len() as int);
    assert(content.take(tool.len() as int) =~= tool);
    assert(content.skip(tool.len() as int + 1) =~= result);
}

} // verus!
