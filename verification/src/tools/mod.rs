//! Tools: actions that a client may call by name.

pub mod calculator_tool;
pub mod greeting_tool;
pub mod weather_tool;

use crate::json::{items_view, opt_view, Json, JsonView};
use crate::utils::error::{Error, ErrorView};
use vstd::prelude::*;

verus! {

/// How a tool is listed: its name, what it does, and the arguments it takes.
#[derive(Debug)]
pub struct Tool {
    pub name: String,
    pub description: String,
    pub input_schema: Json,
    pub annotations: Option<Json>,
}

/// The model of a [`Tool`].
pub struct ToolView {
    pub name: Seq<char>,
    pub description: Seq<char>,
    pub input_schema: JsonView,
    pub annotations: Option<JsonView>,
}

impl Clone for Tool {
    fn clone(&self) -> (r: Self)
        ensures
            r@ == self@,
    {
        let annotations = match &self.annotations {
            Some(value) => Some(value.clone()),
            None => None,
        };
        Tool {
            name: self.name.clone(),
            description: self.description.clone(),
            input_schema: self.input_schema.clone(),
            annotations,
        }
    }
}

impl View for Tool {
    type V = ToolView;

    open spec fn view(&self) -> ToolView {
        ToolView {
            name: self.name@,
            description: self.description@,
            input_schema: self.input_schema@,
            annotations: opt_view(self.annotations),
        }
    }
}

impl ToolView {
    /// The object `name`, `description`, `inputSchema` and, where there are
    /// any, `annotations`.
    pub open spec fn json(self) -> JsonView {
        JsonView::empty_object().with("name"@, JsonView::String(self.name)).with(
            "description"@,
            JsonView::String(self.description),
        ).with("inputSchema"@, self.input_schema).with_opt("annotations"@, self.annotations)
    }
}

impl Tool {
    /// This descriptor as it goes over the wire.
    pub fn to_json(&self) -> (r: Json)
        ensures
            r@ == self@.json(),
    {
        let annotations = match &self.annotations {
            Some(a) => Some(a.clone()),
            None => None,
        };
        Json::empty_object().with("name", Json::string(self.name.as_str())).with(
            "description",
            Json::string(self.description.as_str()),
        ).with("inputSchema", self.input_schema.clone()).with_opt("annotations", annotations)
    }

    /// This descriptor under another name.
    pub fn named(self, name: &str) -> (r: Tool)
        ensures
            r@ == (ToolView { name: name@, ..self@ }),
    {
        Tool {
            name: String::from_str(name),
            description: self.description,
            input_schema: self.input_schema,
            annotations: self.annotations,
        }
    }
}

/// The schema of an argument that is a string.
pub open spec fn string_property(description: Seq<char>) -> JsonView {
    JsonView::empty_object().with("type"@, JsonView::String("string"@)).with(
        "description"@,
        JsonView::String(description),
    )
}

/// The schema of an argument that is a number.
pub open spec fn number_property(description: Seq<char>) -> JsonView {
    JsonView::empty_object().with("type"@, JsonView::String("number"@)).with(
        "description"@,
        JsonView::String(description),
    )
}

/// The schema of arguments that are an object with the given properties, of
/// which those named in `required` must be there.
pub open spec fn object_schema(properties: JsonView, required: Seq<Seq<char>>) -> JsonView {
    JsonView::empty_object().with("type"@, JsonView::String("object"@)).with(
        "properties"@,
        properties,
    ).with("required"@, JsonView::Array(Seq::new(required.len(), |i: int| JsonView::String(required[i]))))
}

/// The annotations of a tool that only reads: its title and, for a tool that
/// reaches outside the server, the hint that says so.
pub open spec fn read_only_annotations(title: Seq<char>, open_world: bool) -> JsonView {
    JsonView::empty_object().with("title"@, JsonView::String(title)).with(
        "readOnlyHint"@,
        JsonView::Bool(true),
    ).with_opt(
        "openWorldHint"@,
        if open_world {
            Some(JsonView::Bool(true))
        } else {
            None
        },
    )
}

/// The schema of an argument of the given type, `"string"` or `"number"`.
pub fn property(kind: &str, description: &str) -> (r: Json)
    ensures
        r@ == JsonView::empty_object().with("type"@, JsonView::String(kind@)).with(
            "description"@,
            JsonView::String(description@),
        ),
{
    Json::empty_object().with("type", Json::string(kind)).with(
        "description",
        Json::string(description),
    )
}

/// The schema of arguments that are an object with the given properties.
pub fn schema(properties: Json, required: &[&str]) -> (r: Json)
    ensures
        r@ == object_schema(properties@, Seq::new(required@.len(), |i: int| required@[i]@)),
{
    let names = Json::strings(required);
    proof {
        let wanted = Seq::new(required@.len(), |i: int| required@[i]@);
        assert(Seq::new(required@.len(), |i: int| JsonView::String(required@[i]@)) =~= Seq::new(
            wanted.len(),
            |i: int| JsonView::String(wanted[i]),
        ));
    }
    Json::empty_object().with("type", Json::string("object")).with("properties", properties).with(
        "required",
        names,
    )
}

/// The annotations of a tool that only reads.
pub fn annotations(title: &str, open_world: bool) -> (r: Json)
    ensures
        r@ == read_only_annotations(title@, open_world),
{
    let hint = if open_world {
        Some(Json::boolean(true))
    } else {
        None
    };
    Json::empty_object().with("title", Json::string(title)).with(
        "readOnlyHint",
        Json::boolean(true),
    ).with_opt("openWorldHint", hint)
}

/// A piece of text in the result of a tool.
#[derive(Debug)]
pub struct TextContent {
    pub content_type: String,
    pub text: String,
}

/// The model of a [`TextContent`].
pub struct TextContentView {
    pub content_type: Seq<char>,
    pub text: Seq<char>,
}

impl Clone for TextContent {
    fn clone(&self) -> (r: Self)
        ensures
            r@ == self@,
    {
        TextContent { content_type: self.content_type.clone(), text: self.text.clone() }
    }
}

impl View for TextContent {
    type V = TextContentView;

    open spec fn view(&self) -> TextContentView {
        TextContentView { content_type: self.content_type@, text: self.text@ }
    }
}

impl TextContentView {
    /// The content of type `text` that holds `text`.
    pub open spec fn of(text: Seq<char>) -> TextContentView {
        TextContentView { content_type: "text"@, text }
    }

    /// The object `type` and `text`.
    pub open spec fn json(self) -> JsonView {
        JsonView::empty_object().with("type"@, JsonView::String(self.content_type)).with(
            "text"@,
            JsonView::String(self.text),
        )
    }
}

impl TextContent {
    /// The content of type `text` that holds `text`.
    pub fn new(text: &str) -> (r: TextContent)
        ensures
            r@ == TextContentView::of(text@),
    {
        TextContent { content_type: String::from_str("text"), text: String::from_str(text) }
    }

    /// This content as it goes over the wire.
    pub fn to_json(&self) -> (r: Json)
        ensures
            r@ == self@.json(),
    {
        Json::empty_object().with("type", Json::string(self.content_type.as_str())).with(
            "text",
            Json::string(self.text.as_str()),
        )
    }
}

/// What a tool returned: its content, and whether the tool itself reports that
/// it could not do what was asked.
#[derive(Debug)]
pub struct CallToolResult {
    pub content: Vec<TextContent>,
    pub is_error: Option<bool>,
}

/// The model of a [`CallToolResult`].
pub struct CallToolResultView {
    pub content: Seq<TextContentView>,
    pub is_error: Option<bool>,
}

impl Clone for CallToolResult {
    fn clone(&self) -> (r: Self)
        ensures
            r@ == self@,
    {
        let mut content: Vec<TextContent> = Vec::new();
        let mut i: usize = 0;
        while i < self.content.len()
            invariant
                i <= self.content.len(),
                content@.len() == i,
                forall|j: int| 0 <= j < i ==> content@[j]@ == self.content@[j]@,
            decreases self.content.len() - i,
        {
            content.push(self.content[i].clone());
            i = i + 1;
        }
        let r = CallToolResult { content, is_error: self.is_error };
        proof {
            assert(r@.content =~= self@.content);
        }
        r
    }
}

impl View for CallToolResult {
    type V = CallToolResultView;

    open spec fn view(&self) -> CallToolResultView {
        CallToolResultView {
            content: self.content@.map_values(|c: TextContent| c@),
            is_error: self.is_error,
        }
    }
}

impl CallToolResultView {
    /// A result that holds `content` and is no error of the tool.
    pub open spec fn success(content: Seq<TextContentView>) -> CallToolResultView {
        CallToolResultView { content, is_error: Some(false) }
    }

    /// A result by which the tool reports `message` as its own error.
    pub open spec fn error(message: Seq<char>) -> CallToolResultView {
        CallToolResultView { content: seq![TextContentView::of(message)], is_error: Some(true) }
    }

    /// The object `content` and, where the flag is set at all, `isError`.
    pub open spec fn json(self) -> JsonView {
        JsonView::empty_object().with(
            "content"@,
            JsonView::Array(self.content.map_values(|c: TextContentView| c.json())),
        ).with_opt(
            "isError"@,
            match self.is_error {
                Some(flag) => Some(JsonView::Bool(flag)),
                None => None,
            },
        )
    }
}

impl CallToolResult {
    /// A result that holds `content` and is no error of the tool.
    pub fn success(content: Vec<TextContent>) -> (r: CallToolResult)
        ensures
            r@ == CallToolResultView::success(content@.map_values(|c: TextContent| c@)),
    {
        CallToolResult { content, is_error: Some(false) }
    }

    /// A result by which the tool reports `message` as its own error.
    pub fn error(message: &str) -> (r: CallToolResult)
        ensures
            r@ == CallToolResultView::error(message@),
    {
        let mut content: Vec<TextContent> = Vec::new();
        content.push(TextContent::new(message));
        let r = CallToolResult { content, is_error: Some(true) };
        proof {
            assert(r@.content =~= seq![TextContentView::of(message@)]);
        }
        r
    }

    /// A successful result that holds the one text `text`.
    pub fn text(text: &str) -> (r: CallToolResult)
        ensures
            r@ == CallToolResultView::success(seq![TextContentView::of(text@)]),
    {
        let mut content: Vec<TextContent> = Vec::new();
        content.push(TextContent::new(text));
        let r = CallToolResult { content, is_error: Some(false) };
        proof {
            assert(r@.content =~= seq![TextContentView::of(text@)]);
        }
        r
    }

    /// This result as it goes over the wire.
    pub fn to_json(&self) -> (r: Json)
        ensures
            r@ == self@.json(),
    {
        let mut items: Vec<Json> = Vec::new();
        let mut i: usize = 0;
        while i < self.content.len()
            invariant
                i <= self.content.len(),
                items@.len() == i,
                forall|j: int| 0 <= j < i ==> items@[j]@ == self.content@[j]@.json(),
            decreases self.content.len() - i,
        {
            items.push(self.content[i].to_json());
            i = i + 1;
        }
        proof {
            assert(items_view(items@) =~= self@.content.map_values(|c: TextContentView| c.json()));
        }
        let flag = match self.is_error {
            Some(flag) => Some(Json::boolean(flag)),
            None => None,
        };
        Json::empty_object().with("content", Json::Array(items)).with_opt("isError", flag)
    }
}

/// The model of what a call of a tool ended with.
pub open spec fn tool_outcome_view(outcome: Result<CallToolResult, Error>) -> Result<
    CallToolResultView,
    ErrorView,
> {
    match outcome {
        Ok(result) => Ok(result@),
        Err(e) => Err(e@),
    }
}

/// An action that a client may call with arguments.
pub trait ToolHandler: Send + Sync {
    /// Whether a call with `arguments` may end with `outcome`. A tool that says
    /// nothing of itself may end with anything.
    open spec fn may_return(
        &self,
        arguments: JsonView,
        outcome: Result<CallToolResultView, ErrorView>,
    ) -> bool {
        true
    }

    /// Whether this tool may describe itself by `descriptor`.
    open spec fn may_describe(&self, descriptor: ToolView) -> bool {
        true
    }

    /// Does what the tool is for. `Err` is a failure of the call; a tool that
    /// could take the arguments but not do what was asked says so in an `Ok`
    /// result with its error flag set.
    fn call(&self, arguments: Json) -> (outcome: Result<CallToolResult, Error>)
        ensures
            self.may_return(arguments@, tool_outcome_view(outcome)),
    ;

    /// How this tool is listed.
    fn definition(&self) -> (r: Tool)
        ensures
            self.may_describe(r@),
    ;
}

} // verus!
