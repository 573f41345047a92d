//! The prompt that asks for a review of a piece of code.

use super::{
    GetPromptResult, GetPromptResultView, Message, MessageView, Prompt, PromptArgument,
    PromptArgumentView, PromptHandler, PromptView,
};
use crate::json::{Json, JsonView};
use crate::utils::error::{Error, ErrorKind, ErrorView};
use crate::utils::text::str_eq;
use vstd::prelude::*;

verus! {

/// Asks for a review of the code that the arguments carry, with a focus if
/// they name one.
#[derive(Clone, Copy, Debug)]
pub struct CodeReviewPrompt {}

impl CodeReviewPrompt {
    /// The descriptor of the prompt `review-code`.
    pub open spec fn spec_definition() -> PromptView {
        PromptView {
            name: "review-code"@,
            description: "Generates a prompt to ask the LLM to review code"@,
            arguments: Some(
                seq![
                    PromptArgumentView {
                        name: "code"@,
                        description: "The code snippet to review"@,
                        required: Some(true),
                    },
                    PromptArgumentView {
                        name: "focus"@,
                        description: "Optional area of focus for the review (performance, security, style, general)"@,
                        required: Some(false),
                    },
                ],
            ),
        }
    }

    /// The focus that the arguments ask for: the member `focus` where it is a
    /// string, else `general`.
    pub open spec fn focus_of(arguments: JsonView) -> Seq<char> {
        match arguments.member_text("focus"@) {
            Some(focus) => focus,
            None => "general"@,
        }
    }

    /// The text that asks for the review of `code`.
    pub open spec fn request_text(code: Seq<char>, focus: Seq<char>) -> Seq<char> {
        "Please review the following code for potential issues and suggest improvements"@ + (if focus
            == "general"@ {
            Seq::<char>::empty()
        } else {
            ", focusing specifically on "@ + focus
        }) + ":\n\n```\n"@ + code + "\n```"@
    }

    /// What asking with `arguments` ends with: one message of the user, or a
    /// failure where there are no arguments or no string `code` among them.
    pub open spec fn review(arguments: Option<JsonView>) -> Result<GetPromptResultView, ErrorView> {
        match arguments {
            None => Err(ErrorView { kind: ErrorKind::InvalidParams, detail: "Missing arguments"@ }),
            Some(args) => match args.member_text("code"@) {
                None => Err(
                    ErrorView {
                        kind: ErrorKind::InvalidParams,
                        detail: "Missing 'code' argument"@,
                    },
                ),
                Some(code) => Ok(
                    GetPromptResultView {
                        description: Some(
                            "Requesting "@ + Self::focus_of(args) + " review for code snippet"@,
                        ),
                        messages: seq![
                            MessageView::of("user"@, Self::request_text(code, Self::focus_of(args))),
                        ],
                    },
                ),
            },
        }
    }

    /// The prompt `review-code`.
    pub fn new() -> (r: Self) {
        CodeReviewPrompt {  }
    }

    /// The descriptor of the prompt `review-code`.
    pub fn prompt_definition() -> (r: Prompt)
        ensures
            r@ == Self::spec_definition(),
    {
        let mut arguments: Vec<PromptArgument> = Vec::new();
        arguments.push(PromptArgument::new("code", "The code snippet to review", true));
        arguments.push(
            PromptArgument::new(
                "focus",
                "Optional area of focus for the review (performance, security, style, general)",
                false,
            ),
        );
        let r = Prompt {
            name: String::from_str("review-code"),
            description: String::from_str("Generates a prompt to ask the LLM to review code"),
            arguments: Some(arguments),
        };
        proof {
            assert(r@.arguments->0 =~= Self::spec_definition().arguments->0);
        }
        r
    }
}

impl Default for CodeReviewPrompt {
    fn default() -> (r: Self) {
        CodeReviewPrompt::new()
    }
}

impl PromptHandler for CodeReviewPrompt {
    open spec fn may_return(
        &self,
        arguments: Option<JsonView>,
        outcome: Result<GetPromptResultView, ErrorView>,
    ) -> bool {
        outcome == Self::review(arguments)
    }

    open spec fn may_describe(&self, descriptor: PromptView) -> bool {
        descriptor == Self::spec_definition()
    }

    fn get(&self, arguments: Option<Json>) -> (outcome: Result<GetPromptResult, Error>) {
        let args = match arguments {
            Some(args) => args,
            None => {
                return Err(Error::invalid_params("Missing arguments"));
            },
        };
        let code = match args.get_str("code") {
            Some(code) => code,
            None => {
                return Err(Error::invalid_params("Missing 'code' argument"));
            },
        };
        let focus = match args.get_str("focus") {
            Some(focus) => focus,
            None => "general",
        };
        let mut text = String::from_str(
            "Please review the following code for potential issues and suggest improvements",
        );
        if !str_eq(focus, "general") {
            text = text.concat(", focusing specifically on ").concat(focus);
        }
        text = text.concat(":\n\n```\n").concat(code).concat("\n```");
        let description = String::from_str("Requesting ").concat(focus).concat(
            " review for code snippet",
        );
        let mut messages: Vec<Message> = Vec::new();
        messages.push(Message::of("user", text.as_str()));
        let result = GetPromptResult { description: Some(description), messages };
        proof {
            let wanted = Self::review(Some(args@))->Ok_0;
            assert(text@ =~= Self::request_text(code@, focus@));
            assert(result@.messages =~= wanted.messages);
        }
        Ok(result)
    }

    fn definition(&self) -> (r: Prompt) {
        Self::prompt_definition()
    }
}

} // verus!
