//! Function-calling declarations and the calls that a model returns.

use vstd::prelude::*;

verus! {

/// A JSON value of the codec; the library carries it through without reading it.
#[verifier::external_type_specification]
#[verifier::external_body]
pub struct ExJsonValue(serde_json::Value);

/// How the model is to pick a tool: a bare directive such as `auto` or `none`,
/// or one named function that it must call.
#[derive(Clone, Debug)]
pub enum ToolChoice {
    String(String),
    Object { tool_type: String, function: ForcedToolFunction },
}

/// A tool that the model may call.
#[derive(Clone, Debug)]
pub struct Tool {
    pub tool_type: String,
    pub function: ToolFunction,
}

/// The declaration of a callable function; `parameters` is a JSON schema that
/// is not inspected.
#[derive(Clone, Debug)]
pub struct ToolFunction {
    pub name: String,
    pub description: Option<String>,
    pub parameters: Option<serde_json::Value>,
}

/// A call that the model asks for.
#[derive(Clone, Debug)]
pub struct ToolCall {
    pub id: String,
    pub tool_type: String,
    pub function: FunctionCall,
}

/// The function of a tool call; `arguments` is JSON text that is not parsed.
#[derive(Clone, Debug)]
pub struct FunctionCall {
    pub name: String,
    pub arguments: String,
}

/// The one function that a forced tool choice names.
#[derive(Clone, Debug)]
pub struct ForcedToolFunction {
    pub name: String,
}

/// The mathematical value of a [`ToolChoice`].
pub enum ToolChoiceView {
    String(Seq<char>),
    Object { tool_type: Seq<char>, function: ForcedToolFunctionView },
}

/// The mathematical value of a [`Tool`].
pub struct ToolView {
    pub tool_type: Seq<char>,
    pub function: ToolFunctionView,
}

/// The mathematical value of a [`ToolFunction`].
pub struct ToolFunctionView {
    pub name: Seq<char>,
    pub description: Option<Seq<char>>,
    pub parameters: Option<serde_json::Value>,
}

/// The mathematical value of a [`ToolCall`].
pub struct ToolCallView {
    pub id: Seq<char>,
    pub tool_type: Seq<char>,
    pub function: FunctionCallView,
}

/// The mathematical value of a [`FunctionCall`].
pub struct FunctionCallView {
    pub name: Seq<char>,
    pub arguments: Seq<char>,
}

/// The mathematical value of a [`ForcedToolFunction`].
pub struct ForcedToolFunctionView {
    pub name: Seq<char>,
}

impl DeepView for ForcedToolFunction {
    type V = ForcedToolFunctionView;

    open spec fn deep_view(&self) -> ForcedToolFunctionView {
        ForcedToolFunctionView { name: self.name@ }
    }
}

impl View for ForcedToolFunction {
    type V = ForcedToolFunctionView;

    open spec fn view(&self) -> ForcedToolFunctionView {
        self.deep_view()
    }
}

impl DeepView for FunctionCall {
    type V = FunctionCallView;

    open spec fn deep_view(&self) -> FunctionCallView {
        FunctionCallView { name: self.name@, arguments: self.arguments@ }
    }
}

impl View for FunctionCall {
    type V = FunctionCallView;

    open spec fn view(&self) -> FunctionCallView {
        self.deep_view()
    }
}

impl DeepView for ToolCall {
    type V = ToolCallView;

    open spec fn deep_view(&self) -> ToolCallView {
        ToolCallView { id: self.id@, tool_type: self.tool_type@, function: self.function@ }
    }
}

impl View for ToolCall {
    type V = ToolCallView;

    open spec fn view(&self) -> ToolCallView {
        self.deep_view()
    }
}

impl DeepView for ToolFunction {
    type V = ToolFunctionView;

    open spec fn deep_view(&self) -> ToolFunctionView {
        ToolFunctionView {
            name: self.name@,
            description: self.description.deep_view(),
            parameters: self.parameters,
        }
    }
}

impl View for ToolFunction {
    type V = ToolFunctionView;

    open spec fn view(&self) -> ToolFunctionView {
        self.deep_view()
    }
}

impl DeepView for Tool {
    type V = ToolView;

    open spec fn deep_view(&self) -> ToolView {
        ToolView { tool_type: self.tool_type@, function: self.function@ }
    }
}

impl View for Tool {
    type V = ToolView;

    open spec fn view(&self) -> ToolView {
        self.deep_view()
    }
}

impl DeepView for ToolChoice {
    type V = ToolChoiceView;

    open spec fn deep_view(&self) -> ToolChoiceView {
        match self {
            ToolChoice::String(directive) => ToolChoiceView::String(directive@),
            ToolChoice::Object { tool_type, function } => ToolChoiceView::Object {
                tool_type: tool_type@,
                function: function@,
            },
        }
    }
}

impl View for ToolChoice {
    type V = ToolChoiceView;

    open spec fn view(&self) -> ToolChoiceView {
        self.deep_view()
    }
}

} // verus!
