//! The tool that greets a person by name.

use super::{
    annotations, object_schema, property, read_only_annotations, schema, string_property,
    CallToolResult, CallToolResultView, TextContentView, Tool, ToolHandler, ToolView,
};
use crate::json::{Json, JsonView};
use crate::utils::error::{Error, ErrorKind, ErrorView};
use vstd::prelude::*;

verus! {

/// Greets the person whose name the arguments give.
#[derive(Clone, Copy, Debug)]
pub struct GreetingTool {}

impl GreetingTool {
    /// The descriptor of the tool `greet`.
    pub open spec fn spec_definition() -> ToolView {
        ToolView {
            name: "greet"@,
            description: "Greets a person with a friendly message"@,
            input_schema: object_schema(
                JsonView::empty_object().with(
                    "name"@,
                    string_property("The name of the person to greet"@),
                ),
                seq!["name"@],
            ),
            annotations: Some(read_only_annotations("Greet Tool"@, false)),
        }
    }

    /// What a call with `arguments` ends with: the greeting for the member
    /// `name`, or a failure where no string of that name is there.
    pub open spec fn greeting(arguments: JsonView) -> Result<CallToolResultView, ErrorView> {
        match arguments.member_text("name"@) {
            Some(name) => Ok(
                CallToolResultView::success(
                    seq![TextContentView::of("Hello, "@ + name + "! Welcome to MCP."@)],
                ),
            ),
            None => Err(
                ErrorView { kind: ErrorKind::InvalidParams, detail: "Missing 'name' parameter"@ },
            ),
        }
    }

    /// The tool `greet`.
    pub fn new() -> (r: Self) {
        GreetingTool {  }
    }

    /// The descriptor of the tool `greet`.
    pub fn tool_definition() -> (r: Tool)
        ensures
            r@ == Self::spec_definition(),
    {
        let properties = Json::empty_object().with(
            "name",
            property("string", "The name of the person to greet"),
        );
        let names = ["name"];
        let input_schema = schema(properties, &names);
        proof {
            assert(Seq::new(names@.len(), |i: int| names@[i]@) =~= seq!["name"@]);
        }
        Tool {
            name: String::from_str("greet"),
            description: String::from_str("Greets a person with a friendly message"),
            input_schema,
            annotations: Some(annotations("Greet Tool", false)),
        }
    }
}

impl Default for GreetingTool {
    fn default() -> (r: Self) {
        GreetingTool::new()
    }
}

impl ToolHandler for GreetingTool {
    open spec fn may_return(
        &self,
        arguments: JsonView,
        outcome: Result<CallToolResultView, ErrorView>,
    ) -> bool {
        outcome == Self::greeting(arguments)
    }

    open spec fn may_describe(&self, descriptor: ToolView) -> bool {
        descriptor == Self::spec_definition()
    }

    fn call(&self, arguments: Json) -> (outcome: Result<CallToolResult, Error>) {
        match arguments.get_str("name") {
            Some(name) => {
                let message = String::from_str("Hello, ").concat(name).concat("! Welcome to MCP.");
                Ok(CallToolResult::text(message.as_str()))
            },
            None => Err(Error::invalid_params("Missing 'name' parameter")),
        }
    }

    fn definition(&self) -> (r: Tool) {
        Self::tool_definition()
    }
}

} // verus!
