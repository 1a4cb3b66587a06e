//! The chat-completions request and its builder.

use vstd::prelude::*;

use crate::errors::ApiError;
use crate::schema::message::{Message, MessageView};
use crate::schema::tool::{Tool, ToolChoice, ToolChoiceView, ToolView};

verus! {

/// A single-precision number, held by its IEEE 754 bit pattern. No range is
/// enforced on it: the service judges the value.
#[derive(Clone, Copy, Debug, PartialEq, Eq, Structural)]
pub struct Scalar {
    pub bits: u32,
}

/// Options of a streamed reply.
#[derive(Clone, Copy, Debug)]
pub struct StreamOptions {
    pub include_usage: Option<bool>,
}

impl Default for StreamOptions {
    fn default() -> (options: StreamOptions)
        ensures
            options.include_usage is None,
    {
        StreamOptions { include_usage: None }
    }
}

/// The lowercase form of a text, as `str::to_lowercase` gives it.
pub uninterp spec fn lowercase(text: Seq<char>) -> Seq<char>;

/// The JSON object with the single entry `key`, whose value is the JSON
/// string `text`, as `serde_json::Value::from_iter` gives it.
pub uninterp spec fn object_of_entry(key: Seq<char>, text: Seq<char>) -> serde_json::Value;

/// The directive that asks the model to reply with JSON.
pub open spec fn json_mode() -> serde_json::Value {
    object_of_entry("type"@, "json_object"@)
}

/// Calls `str::to_lowercase`. The result follows the Unicode lowercase
/// mapping of the whole text; it is taken on trust and known only by name.
#[verifier::external_body]
fn to_lowercase(text: &str) -> (lowered: String)
    ensures
        lowered@ == lowercase(text@),
{
    text.to_lowercase()
}

/// Calls `serde_json::Value::from_iter` on the one pair `(key, text)`, which
/// collects key-value pairs into a JSON object. The result is taken on trust
/// and known only by name.
#[verifier::external_body]
fn entry_object(key: &str, text: &str) -> (value: serde_json::Value)
    ensures
        value == object_of_entry(key@, text@),
{
    serde_json::Value::from_iter([(key, text)])
}

/// A validated request: `messages` in conversation order and a model
/// identifier, with the generation controls that were set.
#[derive(Clone, Debug)]
pub struct ChatCompletionsRequest {
    pub messages: Vec<Message>,
    pub model: String,
    pub frequency_penalty: Option<Scalar>,
    pub max_tokens: Option<u64>,
    pub presence_penalty: Option<Scalar>,
    pub response_format: Option<serde_json::Value>,
    pub stop: Option<Vec<String>>,
    pub stream: Option<bool>,
    pub stream_options: Option<StreamOptions>,
    pub temperature: Option<Scalar>,
    pub top_p: Option<Scalar>,
    pub tools: Option<Vec<Tool>>,
    pub tool_choice: Option<ToolChoice>,
    pub logprobs: Option<bool>,
    pub top_logprobs: Option<u8>,
}

/// The mathematical value of a [`ChatCompletionsRequest`].
pub struct ChatCompletionsRequestView {
    pub messages: Seq<MessageView>,
    pub model: Seq<char>,
    pub frequency_penalty: Option<Scalar>,
    pub max_tokens: Option<u64>,
    pub presence_penalty: Option<Scalar>,
    pub response_format: Option<serde_json::Value>,
    pub stop: Option<Seq<Seq<char>>>,
    pub stream: Option<bool>,
    pub stream_options: Option<StreamOptions>,
    pub temperature: Option<Scalar>,
    pub top_p: Option<Scalar>,
    pub tools: Option<Seq<ToolView>>,
    pub tool_choice: Option<ToolChoiceView>,
    pub logprobs: Option<bool>,
    pub top_logprobs: Option<u8>,
}

impl ChatCompletionsRequestView {
    /// The request with no message, an empty model identifier and no option.
    pub open spec fn empty() -> ChatCompletionsRequestView {
        ChatCompletionsRequestView {
            messages: Seq::empty(),
            model: Seq::empty(),
            frequency_penalty: None,
            max_tokens: None,
            presence_penalty: None,
            response_format: None,
            stop: None,
            stream: None,
            stream_options: None,
            temperature: None,
            top_p: None,
            tools: None,
            tool_choice: None,
            logprobs: None,
            top_logprobs: None,
        }
    }
}

impl DeepView for ChatCompletionsRequest {
    type V = ChatCompletionsRequestView;

    open spec fn deep_view(&self) -> ChatCompletionsRequestView {
        ChatCompletionsRequestView {
            messages: self.messages.deep_view(),
            model: self.model@,
            frequency_penalty: self.frequency_penalty,
            max_tokens: self.max_tokens,
            presence_penalty: self.presence_penalty,
            response_format: self.response_format,
            stop: self.stop.deep_view(),
            stream: self.stream,
            stream_options: self.stream_options,
            temperature: self.temperature,
            top_p: self.top_p,
            tools: self.tools.deep_view(),
            tool_choice: self.tool_choice.deep_view(),
            logprobs: self.logprobs,
            top_logprobs: self.top_logprobs,
        }
    }
}

impl View for ChatCompletionsRequest {
    type V = ChatCompletionsRequestView;

    open spec fn view(&self) -> ChatCompletionsRequestView {
        self.deep_view()
    }
}

impl Default for ChatCompletionsRequest {
    fn default() -> (request: ChatCompletionsRequest)
        ensures
            request@ == ChatCompletionsRequestView::empty(),
    {
        let request = ChatCompletionsRequest {
            messages: Vec::new(),
            model: String::new(),
            frequency_penalty: None,
            max_tokens: None,
            presence_penalty: None,
            response_format: None,
            stop: None,
            stream: None,
            stream_options: None,
            temperature: None,
            top_p: None,
            tools: None,
            tool_choice: None,
            logprobs: None,
            top_logprobs: None,
        };
        assert(request.messages.deep_view() =~= Seq::empty());
        request
    }
}

impl ChatCompletionsRequest {
    /// A builder on which nothing is set.
    pub fn builder() -> (builder: ChatCompletionsRequestBuilder)
        ensures
            builder@ == ChatCompletionsRequestDraft::empty(),
    {
        ChatCompletionsRequestBuilder::new()
    }
}

/// Accumulates the fields of a [`ChatCompletionsRequest`]; `messages` and
/// `model` are required.
#[derive(Debug)]
pub struct ChatCompletionsRequestBuilder {
    messages: Option<Vec<Message>>,
    model: Option<String>,
    frequency_penalty: Option<Scalar>,
    max_tokens: Option<u64>,
    presence_penalty: Option<Scalar>,
    response_format: Option<serde_json::Value>,
    stop: Option<Vec<String>>,
    stream: Option<bool>,
    stream_options: Option<StreamOptions>,
    temperature: Option<Scalar>,
    top_p: Option<Scalar>,
    tools: Option<Vec<Tool>>,
    tool_choice: Option<ToolChoice>,
    logprobs: Option<bool>,
    top_logprobs: Option<u8>,
}

/// The mathematical value of a [`ChatCompletionsRequestBuilder`]: what has
/// been set so far.
pub struct ChatCompletionsRequestDraft {
    pub messages: Option<Seq<MessageView>>,
    pub model: Option<Seq<char>>,
    pub frequency_penalty: Option<Scalar>,
    pub max_tokens: Option<u64>,
    pub presence_penalty: Option<Scalar>,
    pub response_format: Option<serde_json::Value>,
    pub stop: Option<Seq<Seq<char>>>,
    pub stream: Option<bool>,
    pub stream_options: Option<StreamOptions>,
    pub temperature: Option<Scalar>,
    pub top_p: Option<Scalar>,
    pub tools: Option<Seq<ToolView>>,
    pub tool_choice: Option<ToolChoiceView>,
    pub logprobs: Option<bool>,
    pub top_logprobs: Option<u8>,
}

/// The fields of a request.
pub enum RequestField {
    Messages,
    Model,
    FrequencyPenalty,
    MaxTokens,
    PresencePenalty,
    ResponseFormat,
    Stop,
    Stream,
    StreamOptions,
    Temperature,
    TopP,
    Tools,
    ToolChoice,
    Logprobs,
    TopLogprobs,
}

/// One call of a setter of [`ChatCompletionsRequestBuilder`], with the value
/// that it stores. `Model` holds the identifier as it was given, `ModelId`
/// as it is stored.
pub enum RequestStep {
    Messages(Seq<MessageView>),
    Model(Seq<char>),
    ModelId(Seq<char>),
    FrequencyPenalty(Scalar),
    MaxTokens(u64),
    PresencePenalty(Scalar),
    ResponseFormat(serde_json::Value),
    Stop(Seq<Seq<char>>),
    Stream(bool),
    StreamOptions(StreamOptions),
    Temperature(Scalar),
    TopP(Scalar),
    Tools(Seq<ToolView>),
    ToolChoice(ToolChoiceView),
    Logprobs(bool),
    TopLogprobs(u8),
}

impl RequestStep {
    /// The field that the step sets.
    pub open spec fn field(self) -> RequestField {
        match self {
            RequestStep::Messages(_) => RequestField::Messages,
            RequestStep::Model(_) => RequestField::Model,
            RequestStep::ModelId(_) => RequestField::Model,
            RequestStep::FrequencyPenalty(_) => RequestField::FrequencyPenalty,
            RequestStep::MaxTokens(_) => RequestField::MaxTokens,
            RequestStep::PresencePenalty(_) => RequestField::PresencePenalty,
            RequestStep::ResponseFormat(_) => RequestField::ResponseFormat,
            RequestStep::Stop(_) => RequestField::Stop,
            RequestStep::Stream(_) => RequestField::Stream,
            RequestStep::StreamOptions(_) => RequestField::StreamOptions,
            RequestStep::Temperature(_) => RequestField::Temperature,
            RequestStep::TopP(_) => RequestField::TopP,
            RequestStep::Tools(_) => RequestField::Tools,
            RequestStep::ToolChoice(_) => RequestField::ToolChoice,
            RequestStep::Logprobs(_) => RequestField::Logprobs,
            RequestStep::TopLogprobs(_) => RequestField::TopLogprobs,
        }
    }
}

impl ChatCompletionsRequestDraft {
    /// The draft on which nothing is set.
    pub open spec fn empty() -> ChatCompletionsRequestDraft {
        ChatCompletionsRequestDraft {
            messages: None,
            model: None,
            frequency_penalty: None,
            max_tokens: None,
            presence_penalty: None,
            response_format: None,
            stop: None,
            stream: None,
            stream_options: None,
            temperature: None,
            top_p: None,
            tools: None,
            tool_choice: None,
            logprobs: None,
            top_logprobs: None,
        }
    }

    /// The draft after one more setter call: the field of `step` is replaced,
    /// every other field is kept. A model identifier is stored in lowercase.
    pub open spec fn apply(self, step: RequestStep) -> ChatCompletionsRequestDraft {
        match step {
            RequestStep::Messages(v) => ChatCompletionsRequestDraft { messages: Some(v), ..self },
            RequestStep::Model(v) => ChatCompletionsRequestDraft {
                model: Some(lowercase(v)),
                ..self
            },
            RequestStep::ModelId(v) => ChatCompletionsRequestDraft { model: Some(v), ..self },
            RequestStep::FrequencyPenalty(v) => ChatCompletionsRequestDraft {
                frequency_penalty: Some(v),
                ..self
            },
            RequestStep::MaxTokens(v) => ChatCompletionsRequestDraft {
                max_tokens: Some(v),
                ..self
            },
            RequestStep::PresencePenalty(v) => ChatCompletionsRequestDraft {
                presence_penalty: Some(v),
                ..self
            },
            RequestStep::ResponseFormat(v) => ChatCompletionsRequestDraft {
                response_format: Some(v),
                ..self
            },
            RequestStep::Stop(v) => ChatCompletionsRequestDraft { stop: Some(v), ..self },
            RequestStep::Stream(v) => ChatCompletionsRequestDraft { stream: Some(v), ..self },
            RequestStep::StreamOptions(v) => ChatCompletionsRequestDraft {
                stream_options: Some(v),
                ..self
            },
            RequestStep::Temperature(v) => ChatCompletionsRequestDraft {
                temperature: Some(v),
                ..self
            },
            RequestStep::TopP(v) => ChatCompletionsRequestDraft { top_p: Some(v), ..self },
            RequestStep::Tools(v) => ChatCompletionsRequestDraft { tools: Some(v), ..self },
            RequestStep::ToolChoice(v) => ChatCompletionsRequestDraft {
                tool_choice: Some(v),
                ..self
            },
            RequestStep::Logprobs(v) => ChatCompletionsRequestDraft { logprobs: Some(v), ..self },
            RequestStep::TopLogprobs(v) => ChatCompletionsRequestDraft {
                top_logprobs: Some(v),
                ..self
            },
        }
    }

    /// The draft after the setter calls `steps`, made in order on a fresh builder.
    pub open spec fn after(steps: Seq<RequestStep>) -> ChatCompletionsRequestDraft
        decreases steps.len(),
    {
        if steps.len() == 0 {
            ChatCompletionsRequestDraft::empty()
        } else {
            ChatCompletionsRequestDraft::after(steps.drop_last()).apply(steps.last())
        }
    }

    /// Whether `field` is set.
    pub open spec fn is_set(self, field: RequestField) -> bool {
        match field {
            RequestField::Messages => self.messages is Some,
            RequestField::Model => self.model is Some,
            RequestField::FrequencyPenalty => self.frequency_penalty is Some,
            RequestField::MaxTokens => self.max_tokens is Some,
            RequestField::PresencePenalty => self.presence_penalty is Some,
            RequestField::ResponseFormat => self.response_format is Some,
            RequestField::Stop => self.stop is Some,
            RequestField::Stream => self.stream is Some,
            RequestField::StreamOptions => self.stream_options is Some,
            RequestField::Temperature => self.temperature is Some,
            RequestField::TopP => self.top_p is Some,
            RequestField::Tools => self.tools is Some,
            RequestField::ToolChoice => self.tool_choice is Some,
            RequestField::Logprobs => self.logprobs is Some,
            RequestField::TopLogprobs => self.top_logprobs is Some,
        }
    }

    /// Both required fields are set.
    pub open spec fn complete(self) -> bool {
        self.messages is Some && self.model is Some
    }

    /// The request that a complete draft builds: every field as it was set,
    /// and absent where it was not.
    pub open spec fn request(self) -> ChatCompletionsRequestView
        recommends
            self.complete(),
    {
        ChatCompletionsRequestView {
            messages: self.messages.unwrap(),
            model: self.model.unwrap(),
            frequency_penalty: self.frequency_penalty,
            max_tokens: self.max_tokens,
            presence_penalty: self.presence_penalty,
            response_format: self.response_format,
            stop: self.stop,
            stream: self.stream,
            stream_options: self.stream_options,
            temperature: self.temperature,
            top_p: self.top_p,
            tools: self.tools,
            tool_choice: self.tool_choice,
            logprobs: self.logprobs,
            top_logprobs: self.top_logprobs,
        }
    }
}

impl ChatCompletionsRequestView {
    /// Whether the request holds a value for `field`; the two required
    /// fields are always held.
    pub open spec fn holds(self, field: RequestField) -> bool {
        match field {
            RequestField::Messages => true,
            RequestField::Model => true,
            RequestField::FrequencyPenalty => self.frequency_penalty is Some,
            RequestField::MaxTokens => self.max_tokens is Some,
            RequestField::PresencePenalty => self.presence_penalty is Some,
            RequestField::ResponseFormat => self.response_format is Some,
            RequestField::Stop => self.stop is Some,
            RequestField::Stream => self.stream is Some,
            RequestField::StreamOptions => self.stream_options is Some,
            RequestField::Temperature => self.temperature is Some,
            RequestField::TopP => self.top_p is Some,
            RequestField::Tools => self.tools is Some,
            RequestField::ToolChoice => self.tool_choice is Some,
            RequestField::Logprobs => self.logprobs is Some,
            RequestField::TopLogprobs => self.top_logprobs is Some,
        }
    }
}

impl View for ChatCompletionsRequestBuilder {
    type V = ChatCompletionsRequestDraft;

    closed spec fn view(&self) -> ChatCompletionsRequestDraft {
        ChatCompletionsRequestDraft {
            messages: self.messages.deep_view(),
            model: self.model.deep_view(),
            frequency_penalty: self.frequency_penalty,
            max_tokens: self.max_tokens,
            presence_penalty: self.presence_penalty,
            response_format: self.response_format,
            stop: self.stop.deep_view(),
            stream: self.stream,
            stream_options: self.stream_options,
            temperature: self.temperature,
            top_p: self.top_p,
            tools: self.tools.deep_view(),
            tool_choice: self.tool_choice.deep_view(),
            logprobs: self.logprobs,
            top_logprobs: self.top_logprobs,
        }
    }
}

impl Default for ChatCompletionsRequestBuilder {
    fn default() -> (builder: ChatCompletionsRequestBuilder)
        ensures
            builder@ == ChatCompletionsRequestDraft::empty(),
    {
        ChatCompletionsRequestBuilder::new()
    }
}

impl ChatCompletionsRequestBuilder {
    /// The reason that `build` gives for a draft that is not complete.
    pub open spec fn missing_fields() -> Seq<char> {
        "Missing required fields: 'messages' and/or 'model'"@
    }

    /// A builder on which nothing is set.
    pub fn new() -> (builder: ChatCompletionsRequestBuilder)
        ensures
            builder@ == ChatCompletionsRequestDraft::empty(),
    {
        ChatCompletionsRequestBuilder {
            messages: None,
            model: None,
            frequency_penalty: None,
            max_tokens: None,
            presence_penalty: None,
            response_format: None,
            stop: None,
            stream: None,
            stream_options: None,
            temperature: None,
            top_p: None,
            tools: None,
            tool_choice: None,
            logprobs: None,
            top_logprobs: None,
        }
    }

    /// Sets the conversation, in order. Required.
    pub fn messages(self, messages: Vec<Message>) -> (builder: ChatCompletionsRequestBuilder)
        ensures
            builder@ == self@.apply(RequestStep::Messages(messages.deep_view())),
    {
        let mut builder = self;
        builder.messages = Some(messages);
        builder
    }

    /// Sets the model identifier, which is stored in lowercase. Required.
    pub fn model(self, model: &str) -> (builder: ChatCompletionsRequestBuilder)
        ensures
            builder@ == self@.apply(RequestStep::Model(model@)),
    {
        self.model_id(to_lowercase(model))
    }

    /// Sets the model identifier as it is given, with no change of case.
    pub fn model_id(self, id: String) -> (builder: ChatCompletionsRequestBuilder)
        ensures
            builder@ == self@.apply(RequestStep::ModelId(id@)),
    {
        let mut builder = self;
        builder.model = Some(id);
        builder
    }

    /// Asks for a reply in JSON: sets the response format to the JSON-mode
    /// directive.
    pub fn json(self) -> (builder: ChatCompletionsRequestBuilder)
        ensures
            builder@ == self@.apply(RequestStep::ResponseFormat(json_mode())),
    {
        self.response_format(entry_object("type", "json_object"))
    }

    /// Sets the response format to a directive that is not inspected.
    pub fn response_format(self, format: serde_json::Value) -> (builder:
        ChatCompletionsRequestBuilder)
        ensures
            builder@ == self@.apply(RequestStep::ResponseFormat(format)),
    {
        let mut builder = self;
        builder.response_format = Some(format);
        builder
    }

    /// Sets the frequency penalty; the documented range is -2 to 2.
    pub fn frequency_penalty(self, freq: Scalar) -> (builder: ChatCompletionsRequestBuilder)
        ensures
            builder@ == self@.apply(RequestStep::FrequencyPenalty(freq)),
    {
        let mut builder = self;
        builder.frequency_penalty = Some(freq);
        builder
    }

    /// Sets the greatest number of tokens to generate.
    pub fn max_tokens(self, max: u64) -> (builder: ChatCompletionsRequestBuilder)
        ensures
            builder@ == self@.apply(RequestStep::MaxTokens(max)),
    {
        let mut builder = self;
        builder.max_tokens = Some(max);
        builder
    }

    /// Sets the presence penalty; the documented range is -2 to 2.
    pub fn presence_penalty(self, presence: Scalar) -> (builder: ChatCompletionsRequestBuilder)
        ensures
            builder@ == self@.apply(RequestStep::PresencePenalty(presence)),
    {
        let mut builder = self;
        builder.presence_penalty = Some(presence);
        builder
    }

    /// Sets the texts at which generation stops.
    pub fn stop(self, stop: Vec<String>) -> (builder: ChatCompletionsRequestBuilder)
        ensures
            builder@ == self@.apply(RequestStep::Stop(stop.deep_view())),
    {
        let mut builder = self;
        builder.stop = Some(stop);
        builder
    }

    /// Sets whether partial message deltas are streamed.
    pub fn stream(self, stream: bool) -> (builder: ChatCompletionsRequestBuilder)
        ensures
            builder@ == self@.apply(RequestStep::Stream(stream)),
    {
        let mut builder = self;
        builder.stream = Some(stream);
        builder
    }

    /// Sets the options of a streamed reply.
    pub fn stream_options(self, options: StreamOptions) -> (builder:
        ChatCompletionsRequestBuilder)
        ensures
            builder@ == self@.apply(RequestStep::StreamOptions(options)),
    {
        let mut builder = self;
        builder.stream_options = Some(options);
        builder
    }

    /// Sets the sampling temperature; the documented range is 0 to 2.
    pub fn temperature(self, temp: Scalar) -> (builder: ChatCompletionsRequestBuilder)
        ensures
            builder@ == self@.apply(RequestStep::Temperature(temp)),
    {
        let mut builder = self;
        builder.temperature = Some(temp);
        builder
    }

    /// Sets the nucleus-sampling mass; the documented range is 0 to 1.
    pub fn top_p(self, top_p: Scalar) -> (builder: ChatCompletionsRequestBuilder)
        ensures
            builder@ == self@.apply(RequestStep::TopP(top_p)),
    {
        let mut builder = self;
        builder.top_p = Some(top_p);
        builder
    }

    /// Sets the tools that the model may call.
    pub fn tools(self, tools: Vec<Tool>) -> (builder: ChatCompletionsRequestBuilder)
        ensures
            builder@ == self@.apply(RequestStep::Tools(tools.deep_view())),
    {
        let mut builder = self;
        builder.tools = Some(tools);
        builder
    }

    /// Sets how the model is to pick a tool.
    pub fn tool_choice(self, choice: ToolChoice) -> (builder: ChatCompletionsRequestBuilder)
        ensures
            builder@ == self@.apply(RequestStep::ToolChoice(choice@)),
    {
        let mut builder = self;
        builder.tool_choice = Some(choice);
        builder
    }

    /// Sets whether log probabilities are returned.
    pub fn logprobs(self, logprobs: bool) -> (builder: ChatCompletionsRequestBuilder)
        ensures
            builder@ == self@.apply(RequestStep::Logprobs(logprobs)),
    {
        let mut builder = self;
        builder.logprobs = Some(logprobs);
        builder
    }

    /// Sets how many of the likeliest tokens are reported at each position;
    /// the documented range is 0 to 20.
    pub fn top_logprobs(self, top_logprobs: u8) -> (builder: ChatCompletionsRequestBuilder)
        ensures
            builder@ == self@.apply(RequestStep::TopLogprobs(top_logprobs)),
    {
        let mut builder = self;
        builder.top_logprobs = Some(top_logprobs);
        builder
    }

    /// Builds the request. It fails exactly when `messages` or `model` is not
    /// set; no value is checked against a range.
    pub fn build(self) -> (outcome: Result<ChatCompletionsRequest, ApiError>)
        ensures
            match outcome {
                Ok(request) => self@.complete() && request@ == self@.request(),
                Err(error) => !self@.complete() && error.is_build_failure(
                    ChatCompletionsRequestBuilder::missing_fields(),
                ),
            },
    {
        match (self.messages, self.model) {
            (Some(messages), Some(model)) => Ok(
                ChatCompletionsRequest {
                    messages,
                    model,
                    frequency_penalty: self.frequency_penalty,
                    max_tokens: self.max_tokens,
                    presence_penalty: self.presence_penalty,
                    response_format: self.response_format,
                    stop: self.stop,
                    stream: self.stream,
                    stream_options: self.stream_options,
                    temperature: self.temperature,
                    top_p: self.top_p,
                    tools: self.tools,
                    tool_choice: self.tool_choice,
                    logprobs: self.logprobs,
                    top_logprobs: self.top_logprobs,
                },
            ),
            _ => Err(ApiError::BuildFailed("Missing required fields: 'messages' and/or 'model'")),
        }
    }
}

/// A field of a draft is set if and only if some setter call was for it.
pub proof fn lemma_request_field_set_iff_stepped(steps: Seq<RequestStep>, field: RequestField)
    ensures
        ChatCompletionsRequestDraft::after(steps).is_set(field) <==> exists|i: int|
            0 <= i < steps.len() && steps[i].field() == field,
    decreases steps.len(),
{
    if steps.len() > 0 {
        let before = steps.drop_last();
        let last = steps.len() - 1;
        lemma_request_field_set_iff_stepped(before, field);
        if ChatCompletionsRequestDraft::after(steps).is_set(field) {
            if steps[last].field() == field {
            } else {
                assert(ChatCompletionsRequestDraft::after(before).is_set(field));
                let i = choose|i: int| 0 <= i < before.len() && before[i].field() == field;
                assert(steps[i].field() == field);
            }
        }
        if exists|i: int| 0 <= i < steps.len() && steps[i].field() == field {
            let i = choose|i: int| 0 <= i < steps.len() && steps[i].field() == field;
            if i < last {
                assert(before[i].field() == field);
            }
        }
    }
}

/// A fresh builder on which setters were called builds a request if and only
/// if `messages` was set at least once and `model` was set at least once,
/// whatever else was set and in whatever order.
pub proof fn lemma_request_builds_iff_required_set(steps: Seq<RequestStep>)
    ensures
        ChatCompletionsRequestDraft::after(steps).complete() <==> (exists|i: int|
            0 <= i < steps.len() && steps[i].field() == RequestField::Messages) && (exists|j: int|
            0 <= j < steps.len() && steps[j].field() == RequestField::Model),
{
    lemma_request_field_set_iff_stepped(steps, RequestField::Messages);
    lemma_request_field_set_iff_stepped(steps, RequestField::Model);
}

/// A built request holds a value for an optional field if and only if some
/// setter call was for that field: a field that was never set is absent from
/// the request, so a request built from `messages` and `model` alone holds
/// nothing else.
pub proof fn lemma_request_holds_what_was_set(steps: Seq<RequestStep>, field: RequestField)
    requires
        ChatCompletionsRequestDraft::after(steps).complete(),
    ensures
        ChatCompletionsRequestDraft::after(steps).request().holds(field) <==> exists|i: int|
            0 <= i < steps.len() && steps[i].field() == field,
{
    lemma_request_field_set_iff_stepped(steps, field);
}

/// What a builder holds is decided by the setter calls alone: two runs of the
/// same calls, with the same values and in the same order, leave the same
/// draft, and so build the same request.
pub proof fn lemma_same_calls_same_request(first: Seq<RequestStep>, second: Seq<RequestStep>)
    requires
        first.len() == second.len(),
        forall|i: int| 0 <= i < first.len() ==> first[i] == second[i],
    ensures
        ChatCompletionsRequestDraft::after(first) == ChatCompletionsRequestDraft::after(second),
        ChatCompletionsRequestDraft::after(first).request() == ChatCompletionsRequestDraft::after(
            second,
        ).request(),
{
    assert(first =~= second);
}

} // verus!
