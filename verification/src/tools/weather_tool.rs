//! The tool that reports the weather for a city.

use super::{
    annotations, object_schema, property, read_only_annotations, schema, string_property,
    CallToolResult, CallToolResultView, TextContentView, Tool, ToolHandler, ToolView,
};
use crate::codec::{pretty_text, to_string_pretty};
use crate::json::{Json, JsonView};
use crate::utils::error::{Error, ErrorKind, ErrorView};
use vstd::prelude::*;

verus! {

/// Reports the weather for the city that the arguments name. The report is
/// the same for every city: the tool stands in for a service.
#[derive(Clone, Copy, Debug)]
pub struct WeatherTool {}

impl WeatherTool {
    /// The descriptor of the tool `fetch-weather`.
    pub open spec fn spec_definition() -> ToolView {
        ToolView {
            name: "fetch-weather"@,
            description: "Fetches weather information for a given city"@,
            input_schema: object_schema(
                JsonView::empty_object().with("city"@, string_property("The city name"@)),
                seq!["city"@],
            ),
            annotations: Some(read_only_annotations("Fetch Weather"@, true)),
        }
    }

    /// The weather that is reported for `city`.
    pub open spec fn weather_data(city: Seq<char>) -> JsonView {
        JsonView::empty_object().with("city"@, JsonView::String(city)).with(
            "temperature"@,
            JsonView::String("72\u{b0}F"@),
        ).with("condition"@, JsonView::String("Partly Cloudy"@)).with(
            "humidity"@,
            JsonView::String("65%"@),
        ).with("windSpeed"@, JsonView::String("10 mph"@))
    }

    /// What a call with `arguments` ends with: the report for the member
    /// `city`, or a failure where no string of that name is there.
    pub open spec fn report(arguments: JsonView) -> Result<CallToolResultView, ErrorView> {
        match arguments.member_text("city"@) {
            Some(city) => Ok(
                CallToolResultView::success(
                    seq![
                        TextContentView::of(
                            "Weather for "@ + city + ":\n"@ + pretty_text(Self::weather_data(city)),
                        ),
                    ],
                ),
            ),
            None => Err(
                ErrorView { kind: ErrorKind::InvalidParams, detail: "Missing 'city' parameter"@ },
            ),
        }
    }

    /// The tool `fetch-weather`.
    pub fn new() -> (r: Self) {
        WeatherTool {  }
    }

    /// The descriptor of the tool `fetch-weather`.
    pub fn tool_definition() -> (r: Tool)
        ensures
            r@ == Self::spec_definition(),
    {
        let properties = Json::empty_object().with("city", property("string", "The city name"));
        let names = ["city"];
        let input_schema = schema(properties, &names);
        proof {
            assert(Seq::new(names@.len(), |i: int| names@[i]@) =~= seq!["city"@]);
        }
        Tool {
            name: String::from_str("fetch-weather"),
            description: String::from_str("Fetches weather information for a given city"),
            input_schema,
            annotations: Some(annotations("Fetch Weather", true)),
        }
    }
}

impl Default for WeatherTool {
    fn default() -> (r: Self) {
        WeatherTool::new()
    }
}

impl ToolHandler for WeatherTool {
    open spec fn may_return(
        &self,
        arguments: JsonView,
        outcome: Result<CallToolResultView, ErrorView>,
    ) -> bool {
        outcome == Self::report(arguments)
    }

    open spec fn may_describe(&self, descriptor: ToolView) -> bool {
        descriptor == Self::spec_definition()
    }

    fn call(&self, arguments: Json) -> (outcome: Result<CallToolResult, Error>) {
        match arguments.get_str("city") {
            Some(city) => {
                let data = Json::empty_object().with("city", Json::string(city)).with(
                    "temperature",
                    Json::string("72\u{b0}F"),
                ).with("condition", Json::string("Partly Cloudy")).with(
                    "humidity",
                    Json::string("65%"),
                ).with("windSpeed", Json::string("10 mph"));
                let pretty = to_string_pretty(&data)?;
                let message = String::from_str("Weather for ").concat(city).concat(":\n").concat(
                    pretty.as_str(),
                );
                Ok(CallToolResult::text(message.as_str()))
            },
            None => Err(Error::invalid_params("Missing 'city' parameter")),
        }
    }

    fn definition(&self) -> (r: Tool) {
        Self::tool_definition()
    }
}

} // verus!
