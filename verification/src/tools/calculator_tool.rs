//! The body-mass-index calculator.
//!
//! The tool divides a weight by the square of a height, in floating point, and
//! this library holds only integers. What stands here is everything around
//! that division: the descriptor, the reading of the two arguments, and the
//! result for each thing the division can come to.

use super::{
    annotations, number_property, object_schema, property, read_only_annotations, schema,
    CallToolResult, CallToolResultView, TextContentView, Tool, ToolView,
};
use crate::codec::{parse, parsed};
use crate::json::{Json, JsonNumber, JsonView};
use crate::utils::error::{Error, ErrorKind, ErrorView};
use vstd::prelude::*;

verus! {

/// Computes a body-mass index from `weightKg` and `heightM`.
#[derive(Clone, Copy, Debug)]
pub struct CalculatorTool {}

impl CalculatorTool {
    /// The schema of `heightM`: a number with the least value that the text
    /// `0.1` stands for.
    pub open spec fn height_property() -> JsonView {
        number_property("Height in meters"@).with_opt("minimum"@, parsed("0.1"@))
    }

    /// The descriptor of the tool `calculate-bmi`.
    pub open spec fn spec_definition() -> ToolView {
        ToolView {
            name: "calculate-bmi"@,
            description: "Calculates Body Mass Index from weight and height"@,
            input_schema: object_schema(
                JsonView::empty_object().with(
                    "weightKg"@,
                    number_property("Weight in kilograms"@),
                ).with("heightM"@, Self::height_property()),
                seq!["weightKg"@, "heightM"@],
            ),
            annotations: Some(read_only_annotations("BMI Calculator"@, false)),
        }
    }

    /// The number that the member `name` holds, if it holds one.
    pub open spec fn number_at(arguments: JsonView, name: Seq<char>) -> Option<JsonNumber> {
        match arguments.member(name) {
            Some(JsonView::Number(n)) => Some(n),
            _ => None,
        }
    }

    /// The weight and the height that `arguments` carry, or the failure for
    /// the first of the two that is missing or no number.
    pub open spec fn weight_and_height(arguments: JsonView) -> Result<
        (JsonNumber, JsonNumber),
        ErrorView,
    > {
        match Self::number_at(arguments, "weightKg"@) {
            None => Err(
                ErrorView {
                    kind: ErrorKind::InvalidParams,
                    detail: "Missing or invalid 'weightKg'"@,
                },
            ),
            Some(weight) => match Self::number_at(arguments, "heightM"@) {
                None => Err(
                    ErrorView {
                        kind: ErrorKind::InvalidParams,
                        detail: "Missing or invalid 'heightM'"@,
                    },
                ),
                Some(height) => Ok((weight, height)),
            },
        }
    }

    /// The result for an index written with two decimals, or for a height that
    /// is not above zero: that one is an error of the tool, not of the call.
    pub open spec fn report(index: Option<Seq<char>>) -> CallToolResultView {
        match index {
            Some(text) => CallToolResultView::success(seq![TextContentView::of("BMI: "@ + text)]),
            None => CallToolResultView::error("Height must be positive"@),
        }
    }

    /// The tool `calculate-bmi`.
    pub fn new() -> (r: Self) {
        CalculatorTool {  }
    }

    /// The descriptor of the tool `calculate-bmi`.
    pub fn tool_definition() -> (r: Tool)
        ensures
            r@ == Self::spec_definition(),
    {
        let minimum = match parse("0.1") {
            Ok(value) => Some(value),
            Err(_) => None,
        };
        let height = property("number", "Height in meters").with_opt("minimum", minimum);
        let properties = Json::empty_object().with(
            "weightKg",
            property("number", "Weight in kilograms"),
        ).with("heightM", height);
        let names = ["weightKg", "heightM"];
        let input_schema = schema(properties, &names);
        proof {
            assert(Seq::new(names@.len(), |i: int| names@[i]@) =~= seq!["weightKg"@, "heightM"@]);
        }
        Tool {
            name: String::from_str("calculate-bmi"),
            description: String::from_str("Calculates Body Mass Index from weight and height"),
            input_schema,
            annotations: Some(annotations("BMI Calculator", false)),
        }
    }

    /// Reads the weight and the height from the arguments of a call.
    pub fn arguments(arguments: &Json) -> (r: Result<(JsonNumber, JsonNumber), Error>)
        ensures
            match r {
                Ok(pair) => Self::weight_and_height(arguments@) == Ok::<_, ErrorView>(pair),
                Err(e) => Self::weight_and_height(arguments@) == Err::<(JsonNumber, JsonNumber), _>(
                    e@,
                ),
            },
    {
        let weight = match arguments.get("weightKg") {
            Some(value) => value.as_number(),
            None => None,
        };
        let height = match arguments.get("heightM") {
            Some(value) => value.as_number(),
            None => None,
        };
        match weight {
            None => Err(Error::invalid_params("Missing or invalid 'weightKg'")),
            Some(weight) => match height {
                None => Err(Error::invalid_params("Missing or invalid 'heightM'")),
                Some(height) => Ok((weight.clone(), height.clone())),
            },
        }
    }

    /// The result of a call: `index` is the index written with two decimals,
    /// or nothing where the height is not above zero.
    pub fn result(index: Option<&str>) -> (r: CallToolResult)
        ensures
            r@ == Self::report(
                match index {
                    Some(text) => Some(text@),
                    None => None,
                },
            ),
    {
        match index {
            Some(text) => {
                let message = String::from_str("BMI: ").concat(text);
                CallToolResult::text(message.as_str())
            },
            None => CallToolResult::error("Height must be positive"),
        }
    }
}

impl Default for CalculatorTool {
    fn default() -> (r: Self) {
        CalculatorTool::new()
    }
}

} // verus!
