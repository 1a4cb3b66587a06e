//! Conversation participants and the message envelope.

use vstd::prelude::*;

use crate::errors::ApiError;
use crate::schema::tool::{ToolCall, ToolCallView};

verus! {

/// The closed set of conversation participants.
#[derive(Clone, Copy, Debug, PartialEq, Eq, Structural)]
pub enum Role {
    Assistant,
    System,
    User,
    Tool,
}

/// The lowercase form of an ASCII capital letter; any other character is itself.
pub open spec fn lower(c: char) -> char {
    if 'A' <= c && c <= 'Z' {
        ((c as u8) + 32) as char
    } else {
        c
    }
}

/// The capital form of an ASCII lowercase letter; any other character is itself.
pub open spec fn upper(c: char) -> char {
    if 'a' <= c && c <= 'z' {
        ((c as u8) - 32) as char
    } else {
        c
    }
}

/// `text` with every ASCII capital letter replaced by its lowercase form.
pub open spec fn folded(text: Seq<char>) -> Seq<char> {
    text.map_values(|c: char| lower(c))
}

/// `text` is `word` in some letter casing: at each position it holds the
/// character of `word` or its capital form.
pub open spec fn is_casing_of(text: Seq<char>, word: Seq<char>) -> bool {
    &&& text.len() == word.len()
    &&& forall|i: int| 0 <= i < word.len() ==> text[i] == word[i] || text[i] == upper(word[i])
}

fn lowered(c: char) -> (l: char)
    ensures
        l == lower(c),
{
    if 'A' <= c && c <= 'Z' {
        ((c as u8) + 32) as char
    } else {
        c
    }
}

/// Whether `text` and `word` are equal once ASCII letter case is ignored.
fn same_ignoring_case(text: &str, word: &str) -> (same: bool)
    ensures
        same == (folded(text@) == folded(word@)),
{
    let n = word.unicode_len();
    if text.unicode_len() != n {
        assert(folded(text@).len() != folded(word@).len());
        return false;
    }
    let mut i: usize = 0;
    while i < n
        invariant
            n == word@.len(),
            n == text@.len(),
            i <= n,
            forall|j: int| 0 <= j < i ==> lower(text@[j]) == lower(word@[j]),
        decreases n - i,
    {
        if lowered(text.get_char(i)) != lowered(word.get_char(i)) {
            assert(folded(text@)[i as int] != folded(word@)[i as int]);
            return false;
        }
        i += 1;
    }
    assert(folded(text@) =~= folded(word@));
    true
}

impl Role {
    /// The canonical lowercase name of the role.
    pub open spec fn name(self) -> Seq<char> {
        match self {
            Role::Assistant => "assistant"@,
            Role::System => "system"@,
            Role::User => "user"@,
            Role::Tool => "tool"@,
        }
    }

    /// The role that `text` names once ASCII letter case is ignored, if any.
    pub open spec fn named(text: Seq<char>) -> Option<Role> {
        let word = folded(text);
        if word == Role::Assistant.name() {
            Some(Role::Assistant)
        } else if word == Role::System.name() {
            Some(Role::System)
        } else if word == Role::User.name() {
            Some(Role::User)
        } else if word == Role::Tool.name() {
            Some(Role::Tool)
        } else {
            None
        }
    }

    /// The canonical lowercase name of the role, as it is written on the wire.
    pub fn as_str(&self) -> (text: &'static str)
        ensures
            text@ == self.name(),
    {
        match self {
            Role::Assistant => "assistant",
            Role::System => "system",
            Role::User => "user",
            Role::Tool => "tool",
        }
    }

    /// The canonical lowercase name of the role, as an owned string.
    pub fn to_string(&self) -> (text: String)
        ensures
            text@ == self.name(),
    {
        self.as_str().to_owned()
    }

    /// Reads a role from free-form text, ignoring ASCII letter case.
    pub fn parse(text: &str) -> (role: Option<Role>)
        ensures
            role == Role::named(text@),
    {
        proof {
            lemma_names_are_folded();
        }
        if same_ignoring_case(text, "assistant") {
            Some(Role::Assistant)
        } else if same_ignoring_case(text, "system") {
            Some(Role::System)
        } else if same_ignoring_case(text, "user") {
            Some(Role::User)
        } else if same_ignoring_case(text, "tool") {
            Some(Role::Tool)
        } else {
            None
        }
    }
}

/// The four role names hold lowercase letters only, so folding leaves them as
/// they are.
proof fn lemma_names_are_folded()
    ensures
        forall|role: Role| folded(#[trigger] role.name()) == role.name(),
{
    reveal_strlit("assistant");
    reveal_strlit("system");
    reveal_strlit("user");
    reveal_strlit("tool");
    assert forall|role: Role| folded(#[trigger] role.name()) == role.name() by {
        assert(folded(role.name()) =~= role.name());
    }
}

/// One message of a conversation.
#[derive(Clone, Debug)]
pub struct Message {
    pub content: String,
    pub role: String,
    pub name: Option<String>,
    pub tool_calls: Option<Vec<ToolCall>>,
    pub tool_call_id: Option<String>,
}

/// The mathematical value of a [`Message`].
pub struct MessageView {
    pub content: Seq<char>,
    pub role: Seq<char>,
    pub name: Option<Seq<char>>,
    pub tool_calls: Option<Seq<ToolCallView>>,
    pub tool_call_id: Option<Seq<char>>,
}

impl DeepView for Message {
    type V = MessageView;

    open spec fn deep_view(&self) -> MessageView {
        MessageView {
            content: self.content@,
            role: self.role@,
            name: self.name.deep_view(),
            tool_calls: self.tool_calls.deep_view(),
            tool_call_id: self.tool_call_id.deep_view(),
        }
    }
}

impl View for Message {
    type V = MessageView;

    open spec fn view(&self) -> MessageView {
        self.deep_view()
    }
}

impl Message {
    /// A builder on which nothing is set.
    pub fn builder() -> (builder: MessageBuilder)
        ensures
            builder@ == MessageDraft::empty(),
    {
        MessageBuilder::new()
    }
}

/// Accumulates the fields of a [`Message`]; `content` and `role` are required.
#[derive(Debug)]
pub struct MessageBuilder {
    content: Option<String>,
    role: Option<Role>,
    name: Option<String>,
    tool_call_id: Option<String>,
}

/// The mathematical value of a [`MessageBuilder`]: what has been set so far.
pub struct MessageDraft {
    pub content: Option<Seq<char>>,
    pub role: Option<Role>,
    pub name: Option<Seq<char>>,
    pub tool_call_id: Option<Seq<char>>,
}

/// One successful call of a setter of [`MessageBuilder`].
pub enum MessageStep {
    Content(Seq<char>),
    Role(Role),
    Name(Seq<char>),
    ToolCallId(Seq<char>),
}

impl MessageDraft {
    /// The draft on which nothing is set.
    pub open spec fn empty() -> MessageDraft {
        MessageDraft { content: None, role: None, name: None, tool_call_id: None }
    }

    /// The draft after one more setter call: the field of `step` is replaced,
    /// every other field is kept.
    pub open spec fn apply(self, step: MessageStep) -> MessageDraft {
        match step {
            MessageStep::Content(content) => MessageDraft { content: Some(content), ..self },
            MessageStep::Role(role) => MessageDraft { role: Some(role), ..self },
            MessageStep::Name(name) => MessageDraft { name: Some(name), ..self },
            MessageStep::ToolCallId(id) => MessageDraft { tool_call_id: Some(id), ..self },
        }
    }

    /// The draft after the setter calls `steps`, made in order on a fresh builder.
    pub open spec fn after(steps: Seq<MessageStep>) -> MessageDraft
        decreases steps.len(),
    {
        if steps.len() == 0 {
            MessageDraft::empty()
        } else {
            MessageDraft::after(steps.drop_last()).apply(steps.last())
        }
    }

    /// Both required fields are set.
    pub open spec fn complete(self) -> bool {
        self.content is Some && self.role is Some
    }

    /// The message that a complete draft builds: the role by its canonical
    /// name, and no tool calls.
    pub open spec fn message(self) -> MessageView
        recommends
            self.complete(),
    {
        MessageView {
            content: self.content.unwrap(),
            role: self.role.unwrap().name(),
            name: self.name,
            tool_calls: None,
            tool_call_id: self.tool_call_id,
        }
    }
}

impl View for MessageBuilder {
    type V = MessageDraft;

    closed spec fn view(&self) -> MessageDraft {
        MessageDraft {
            content: self.content.deep_view(),
            role: self.role,
            name: self.name.deep_view(),
            tool_call_id: self.tool_call_id.deep_view(),
        }
    }
}

impl Default for MessageBuilder {
    fn default() -> (builder: MessageBuilder)
        ensures
            builder@ == MessageDraft::empty(),
    {
        MessageBuilder::new()
    }
}

impl MessageBuilder {
    /// The reason that `role` gives for a text that names no role.
    pub open spec fn unknown_role() -> Seq<char> {
        "Unknown role: expected one of 'assistant', 'system', 'user' or 'tool'"@
    }

    /// The reason that `build` gives for a draft that is not complete.
    pub open spec fn missing_fields() -> Seq<char> {
        "Building message failed because there is 1 or missing paramters"@
    }

    /// A builder on which nothing is set.
    pub fn new() -> (builder: MessageBuilder)
        ensures
            builder@ == MessageDraft::empty(),
    {
        MessageBuilder { content: None, role: None, name: None, tool_call_id: None }
    }

    /// Sets the content.
    pub fn content(self, content: &str) -> (builder: MessageBuilder)
        ensures
            builder@ == self@.apply(MessageStep::Content(content@)),
    {
        let mut builder = self;
        builder.content = Some(content.to_owned());
        builder
    }

    /// Sets the role that `role` names in any letter casing; a text that names
    /// none of the four roles is rejected and nothing of it is kept.
    pub fn role(self, role: &str) -> (outcome: Result<MessageBuilder, ApiError>)
        ensures
            match outcome {
                Ok(builder) => Role::named(role@) is Some && builder@ == self@.apply(
                    MessageStep::Role(Role::named(role@).unwrap()),
                ),
                Err(error) => Role::named(role@) is None && error.is_build_failure(
                    MessageBuilder::unknown_role(),
                ),
            },
    {
        match Role::parse(role) {
            Some(parsed) => {
                let mut builder = self;
                builder.role = Some(parsed);
                Ok(builder)
            },
            None => Err(
                ApiError::BuildFailed(
                    "Unknown role: expected one of 'assistant', 'system', 'user' or 'tool'",
                ),
            ),
        }
    }

    /// Sets the display name of the participant.
    pub fn name(self, name: &str) -> (builder: MessageBuilder)
        ensures
            builder@ == self@.apply(MessageStep::Name(name@)),
    {
        let mut builder = self;
        builder.name = Some(name.to_owned());
        builder
    }

    /// Sets the identifier of the tool call that a `tool` message answers.
    pub fn tool_call_id(self, id: &str) -> (builder: MessageBuilder)
        ensures
            builder@ == self@.apply(MessageStep::ToolCallId(id@)),
    {
        let mut builder = self;
        builder.tool_call_id = Some(id.to_owned());
        builder
    }

    /// Builds the message. It fails exactly when `content` or `role` is not
    /// set; a built message never carries tool calls.
    pub fn build(self) -> (outcome: Result<Message, ApiError>)
        ensures
            match outcome {
                Ok(message) => self@.complete() && message@ == self@.message(),
                Err(error) => !self@.complete() && error.is_build_failure(
                    MessageBuilder::missing_fields(),
                ),
            },
    {
        match (self.content, self.role) {
            (Some(content), Some(role)) => Ok(
                Message {
                    content,
                    role: role.to_string(),
                    name: self.name,
                    tool_calls: None,
                    tool_call_id: self.tool_call_id,
                },
            ),
            _ => Err(
                ApiError::BuildFailed(
                    "Building message failed because there is 1 or missing paramters",
                ),
            ),
        }
    }
}

/// A field of a draft is set exactly when some earlier setter call was for it.
proof fn lemma_message_field_set_iff_stepped(steps: Seq<MessageStep>)
    ensures
        MessageDraft::after(steps).content is Some <==> exists|i: int|
            0 <= i < steps.len() && steps[i] is Content,
        MessageDraft::after(steps).role is Some <==> exists|j: int|
            0 <= j < steps.len() && steps[j] is Role,
    decreases steps.len(),
{
    if steps.len() > 0 {
        let before = steps.drop_last();
        let last = steps.len() - 1;
        lemma_message_field_set_iff_stepped(before);
        if MessageDraft::after(steps).content is Some {
            if steps[last] is Content {
            } else {
                let i = choose|i: int| 0 <= i < before.len() && before[i] is Content;
                assert(steps[i] is Content);
            }
        }
        if MessageDraft::after(steps).role is Some {
            if steps[last] is Role {
            } else {
                let j = choose|j: int| 0 <= j < before.len() && before[j] is Role;
                assert(steps[j] is Role);
            }
        }
        if exists|i: int| 0 <= i < steps.len() && steps[i] is Content {
            let i = choose|i: int| 0 <= i < steps.len() && steps[i] is Content;
            if i < last {
                assert(before[i] is Content);
            }
        }
        if exists|j: int| 0 <= j < steps.len() && steps[j] is Role {
            let j = choose|j: int| 0 <= j < steps.len() && steps[j] is Role;
            if j < last {
                assert(before[j] is Role);
            }
        }
    }
}

/// A fresh builder on which setters were called builds a message if and only
/// if `content` was set at least once and `role` was set at least once,
/// whatever else was set and in whatever order.
pub proof fn lemma_message_builds_iff_required_set(steps: Seq<MessageStep>)
    ensures
        MessageDraft::after(steps).complete() <==> (exists|i: int|
            0 <= i < steps.len() && steps[i] is Content) && (exists|j: int|
            0 <= j < steps.len() && steps[j] is Role),
{
    lemma_message_field_set_iff_stepped(steps);
}

/// A text names a role if and only if it is that role's name in some letter
/// casing, and then its folded form is the canonical lowercase name; a text
/// that is no casing of any of the four names is no role.
pub proof fn lemma_role_named_iff_casing(text: Seq<char>, role: Role)
    ensures
        Role::named(text) == Some(role) <==> is_casing_of(text, role.name()),
        Role::named(text) == Some(role) ==> folded(text) == role.name(),
        Role::named(text) is None <==> forall|other: Role| !is_casing_of(text, other.name()),
{
    reveal_strlit("assistant");
    reveal_strlit("system");
    reveal_strlit("user");
    reveal_strlit("tool");
    assert forall|other: Role| (folded(text) == other.name()) == is_casing_of(
        text,
        other.name(),
    ) by {
        let word = other.name();
        if folded(text) == word {
            assert forall|i: int| 0 <= i < word.len() implies text[i] == word[i] || text[i]
                == upper(word[i]) by {
                assert(folded(text)[i] == lower(text[i]));
            }
        }
        if is_casing_of(text, word) {
            assert(folded(text) =~= word);
        }
    }
    assert(Role::Assistant.name().len() == 9);
    assert(Role::System.name().len() == 6);
    assert(Role::User.name().len() == 4);
    assert(Role::Tool.name().len() == 4);
    assert(Role::User.name()[0] != Role::Tool.name()[0]);
    if Role::named(text) is None {
        assert forall|other: Role| !is_casing_of(text, other.name()) by {
            assert((folded(text) == other.name()) == is_casing_of(text, other.name()));
        }
    } else {
        let found = Role::named(text).unwrap();
        assert(folded(text) == found.name());
        assert(is_casing_of(text, found.name()));
    }
}

} // verus!
