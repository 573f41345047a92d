//! Prompts: message templates that a client may ask for by name.

pub mod code_review_prompt;

use crate::json::{items_view, opt_view, Json, JsonView};
use crate::resources::{opt_string, opt_text};
use crate::utils::error::{Error, ErrorView};
use vstd::prelude::*;

verus! {

/// A piece of text in a message.
#[derive(Debug)]
pub struct MessageContent {
    pub content_type: String,
    pub text: String,
}

/// The model of a [`MessageContent`].
pub struct MessageContentView {
    pub content_type: Seq<char>,
    pub text: Seq<char>,
}

impl Clone for MessageContent {
    fn clone(&self) -> (r: Self)
        ensures
            r@ == self@,
    {
        MessageContent { content_type: self.content_type.clone(), text: self.text.clone() }
    }
}

impl View for MessageContent {
    type V = MessageContentView;

    open spec fn view(&self) -> MessageContentView {
        MessageContentView { content_type: self.content_type@, text: self.text@ }
    }
}

impl MessageContentView {
    /// The content of type `text` that holds `text`.
    pub open spec fn of(text: Seq<char>) -> MessageContentView {
        MessageContentView { content_type: "text"@, text }
    }

    /// The object `type` and `text`.
    pub open spec fn json(self) -> JsonView {
        JsonView::empty_object().with("type"@, JsonView::String(self.content_type)).with(
            "text"@,
            JsonView::String(self.text),
        )
    }
}

impl MessageContent {
    /// The content of type `text` that holds `text`.
    pub fn new(text: &str) -> (r: MessageContent)
        ensures
            r@ == MessageContentView::of(text@),
    {
        MessageContent { content_type: String::from_str("text"), text: String::from_str(text) }
    }

    /// This content as it goes over the wire.
    pub fn to_json(&self) -> (r: Json)
        ensures
            r@ == self@.json(),
    {
        Json::empty_object().with("type", Json::string(self.content_type.as_str())).with(
            "text",
            Json::string(self.text.as_str()),
        )
    }
}

/// A message of a prompt: who says it, and what.
#[derive(Debug)]
pub struct Message {
    pub role: String,
    pub content: Vec<MessageContent>,
}

/// The model of a [`Message`].
pub struct MessageView {
    pub role: Seq<char>,
    pub content: Seq<MessageContentView>,
}

impl Clone for Message {
    fn clone(&self) -> (r: Self)
        ensures
            r@ == self@,
    {
        let mut content: Vec<MessageContent> = Vec::new();
        let mut i: usize = 0;
        while i < self.content.len()
            invariant
                i <= self.content.len(),
                content@.len() == i,
                forall|j: int| 0 <= j < i ==> content@[j]@ == self.content@[j]@,
            decreases self.content.len() - i,
        {
            content.push(self.content[i].clone());
            i = i + 1;
        }
        let r = Message { role: self.role.clone(), content };
        proof {
            assert(r@.content =~= self@.content);
        }
        r
    }
}

impl View for Message {
    type V = MessageView;

    open spec fn view(&self) -> MessageView {
        MessageView { role: self.role@, content: self.content@.map_values(|c: MessageContent| c@) }
    }
}

impl MessageView {
    /// The message in which `role` says the one text `text`.
    pub open spec fn of(role: Seq<char>, text: Seq<char>) -> MessageView {
        MessageView { role, content: seq![MessageContentView::of(text)] }
    }

    /// The object `role` and `content`.
    pub open spec fn json(self) -> JsonView {
        JsonView::empty_object().with("role"@, JsonView::String(self.role)).with(
            "content"@,
            JsonView::Array(self.content.map_values(|c: MessageContentView| c.json())),
        )
    }
}

impl Message {
    /// The message in which `role` says the one text `text`.
    pub fn of(role: &str, text: &str) -> (r: Message)
        ensures
            r@ == MessageView::of(role@, text@),
    {
        let mut content: Vec<MessageContent> = Vec::new();
        content.push(MessageContent::new(text));
        let r = Message { role: String::from_str(role), content };
        proof {
            assert(r@.content =~= seq![MessageContentView::of(text@)]);
        }
        r
    }

    /// This message as it goes over the wire.
    pub fn to_json(&self) -> (r: Json)
        ensures
            r@ == self@.json(),
    {
        let mut items: Vec<Json> = Vec::new();
        let mut i: usize = 0;
        while i < self.content.len()
            invariant
                i <= self.content.len(),
                items@.len() == i,
                forall|j: int| 0 <= j < i ==> items@[j]@ == self.content@[j]@.json(),
            decreases self.content.len() - i,
        {
            items.push(self.content[i].to_json());
            i = i + 1;
        }
        proof {
            assert(items_view(items@) =~= self@.content.map_values(
                |c: MessageContentView| c.json(),
            ));
        }
        Json::empty_object().with("role", Json::string(self.role.as_str())).with(
            "content",
            Json::Array(items),
        )
    }
}

/// What asking for a prompt gave: its messages, and what they are for.
#[derive(Debug)]
pub struct GetPromptResult {
    pub description: Option<String>,
    pub messages: Vec<Message>,
}

/// The model of a [`GetPromptResult`].
pub struct GetPromptResultView {
    pub description: Option<Seq<char>>,
    pub messages: Seq<MessageView>,
}

impl Clone for GetPromptResult {
    fn clone(&self) -> (r: Self)
        ensures
            r@ == self@,
    {
        let description = match &self.description {
            Some(text) => Some(text.clone()),
            None => None,
        };
        let mut messages: Vec<Message> = Vec::new();
        let mut i: usize = 0;
        while i < self.messages.len()
            invariant
                i <= self.messages.len(),
                messages@.len() == i,
                forall|j: int| 0 <= j < i ==> messages@[j]@ == self.messages@[j]@,
            decreases self.messages.len() - i,
        {
            messages.push(self.messages[i].clone());
            i = i + 1;
        }
        let r = GetPromptResult { description, messages };
        proof {
            assert(r@.messages =~= self@.messages);
        }
        r
    }
}

impl View for GetPromptResult {
    type V = GetPromptResultView;

    open spec fn view(&self) -> GetPromptResultView {
        GetPromptResultView {
            description: opt_text(self.description),
            messages: self.messages@.map_values(|m: Message| m@),
        }
    }
}

impl GetPromptResultView {
    /// The object `messages` and, where there is one, `description`.
    pub open spec fn json(self) -> JsonView {
        JsonView::empty_object().with_opt("description"@, opt_string(self.description)).with(
            "messages"@,
            JsonView::Array(self.messages.map_values(|m: MessageView| m.json())),
        )
    }
}

impl GetPromptResult {
    /// This result as it goes over the wire.
    pub fn to_json(&self) -> (r: Json)
        ensures
            r@ == self@.json(),
    {
        let mut items: Vec<Json> = Vec::new();
        let mut i: usize = 0;
        while i < self.messages.len()
            invariant
                i <= self.messages.len(),
                items@.len() == i,
                forall|j: int| 0 <= j < i ==> items@[j]@ == self.messages@[j]@.json(),
            decreases self.messages.len() - i,
        {
            items.push(self.messages[i].to_json());
            i = i + 1;
        }
        proof {
            assert(items_view(items@) =~= self@.messages.map_values(|m: MessageView| m.json()));
        }
        let description = match &self.description {
            Some(d) => Some(Json::string(d.as_str())),
            None => None,
        };
        Json::empty_object().with_opt("description", description).with(
            "messages",
            Json::Array(items),
        )
    }
}

/// An argument that a prompt takes.
#[derive(Debug)]
pub struct PromptArgument {
    pub name: String,
    pub description: String,
    pub required: Option<bool>,
}

/// The model of a [`PromptArgument`].
pub struct PromptArgumentView {
    pub name: Seq<char>,
    pub description: Seq<char>,
    pub required: Option<bool>,
}

impl Clone for PromptArgument {
    fn clone(&self) -> (r: Self)
        ensures
            r@ == self@,
    {
        PromptArgument {
            name: self.name.clone(),
            description: self.description.clone(),
            required: self.required,
        }
    }
}

impl View for PromptArgument {
    type V = PromptArgumentView;

    open spec fn view(&self) -> PromptArgumentView {
        PromptArgumentView {
            name: self.name@,
            description: self.description@,
            required: self.required,
        }
    }
}

impl PromptArgumentView {
    /// The object `name`, `description` and, where it is said, `required`.
    pub open spec fn json(self) -> JsonView {
        JsonView::empty_object().with("name"@, JsonView::String(self.name)).with(
            "description"@,
            JsonView::String(self.description),
        ).with_opt(
            "required"@,
            match self.required {
                Some(flag) => Some(JsonView::Bool(flag)),
                None => None,
            },
        )
    }
}

impl PromptArgument {
    /// The argument `name`, which must be given if `required`.
    pub fn new(name: &str, description: &str, required: bool) -> (r: PromptArgument)
        ensures
            r@ == (PromptArgumentView {
                name: name@,
                description: description@,
                required: Some(required),
            }),
    {
        PromptArgument {
            name: String::from_str(name),
            description: String::from_str(description),
            required: Some(required),
        }
    }

    /// This argument as it goes over the wire.
    pub fn to_json(&self) -> (r: Json)
        ensures
            r@ == self@.json(),
    {
        let required = match self.required {
            Some(flag) => Some(Json::boolean(flag)),
            None => None,
        };
        Json::empty_object().with("name", Json::string(self.name.as_str())).with(
            "description",
            Json::string(self.description.as_str()),
        ).with_opt("required", required)
    }
}

/// How a prompt is listed: its name, what it is for, and the arguments it takes.
#[derive(Debug)]
pub struct Prompt {
    pub name: String,
    pub description: String,
    pub arguments: Option<Vec<PromptArgument>>,
}

/// The model of a [`Prompt`].
pub struct PromptView {
    pub name: Seq<char>,
    pub description: Seq<char>,
    pub arguments: Option<Seq<PromptArgumentView>>,
}

impl Clone for Prompt {
    fn clone(&self) -> (r: Self)
        ensures
            r@ == self@,
    {
        let arguments = match &self.arguments {
            Some(list) => {
                let mut copy: Vec<PromptArgument> = Vec::new();
                let mut i: usize = 0;
                while i < list.len()
                    invariant
                        i <= list.len(),
                        copy@.len() == i,
                        forall|j: int| 0 <= j < i ==> copy@[j]@ == list@[j]@,
                    decreases list.len() - i,
                {
                    copy.push(list[i].clone());
                    i = i + 1;
                }
                proof {
                    assert(copy@.map_values(|a: PromptArgument| a@) =~= list@.map_values(
                        |a: PromptArgument| a@,
                    ));
                }
                Some(copy)
            },
            None => None,
        };
        Prompt { name: self.name.clone(), description: self.description.clone(), arguments }
    }
}

impl View for Prompt {
    type V = PromptView;

    open spec fn view(&self) -> PromptView {
        PromptView {
            name: self.name@,
            description: self.description@,
            arguments: match self.arguments {
                Some(list) => Some(list@.map_values(|a: PromptArgument| a@)),
                None => None,
            },
        }
    }
}

impl PromptView {
    /// The object `name`, `description` and, where there is a list of them,
    /// `arguments`.
    pub open spec fn json(self) -> JsonView {
        JsonView::empty_object().with("name"@, JsonView::String(self.name)).with(
            "description"@,
            JsonView::String(self.description),
        ).with_opt(
            "arguments"@,
            match self.arguments {
                Some(list) => Some(
                    JsonView::Array(list.map_values(|a: PromptArgumentView| a.json())),
                ),
                None => None,
            },
        )
    }
}

impl Prompt {
    /// This descriptor as it goes over the wire.
    pub fn to_json(&self) -> (r: Json)
        ensures
            r@ == self@.json(),
    {
        let arguments = match &self.arguments {
            Some(list) => {
                let mut items: Vec<Json> = Vec::new();
                let mut i: usize = 0;
                while i < list.len()
                    invariant
                        i <= list.len(),
                        items@.len() == i,
                        forall|j: int| 0 <= j < i ==> items@[j]@ == list@[j]@.json(),
                    decreases list.len() - i,
                {
                    items.push(list[i].to_json());
                    i = i + 1;
                }
                proof {
                    assert(items_view(items@) =~= list@.map_values(
                        |a: PromptArgument| a@,
                    ).map_values(|a: PromptArgumentView| a.json()));
                }
                Some(Json::Array(items))
            },
            None => None,
        };
        Json::empty_object().with("name", Json::string(self.name.as_str())).with(
            "description",
            Json::string(self.description.as_str()),
        ).with_opt("arguments", arguments)
    }

    /// This descriptor under another name.
    pub fn named(self, name: &str) -> (r: Prompt)
        ensures
            r@ == (PromptView { name: name@, ..self@ }),
    {
        Prompt {
            name: String::from_str(name),
            description: self.description,
            arguments: self.arguments,
        }
    }
}

/// The model of what asking for a prompt ended with.
pub open spec fn prompt_outcome_view(outcome: Result<GetPromptResult, Error>) -> Result<
    GetPromptResultView,
    ErrorView,
> {
    match outcome {
        Ok(result) => Ok(result@),
        Err(e) => Err(e@),
    }
}

/// A message template that a client may ask for.
pub trait PromptHandler: Send + Sync {
    /// Whether asking with `arguments` may end with `outcome`. A prompt that
    /// says nothing of itself may end with anything.
    open spec fn may_return(
        &self,
        arguments: Option<JsonView>,
        outcome: Result<GetPromptResultView, ErrorView>,
    ) -> bool {
        true
    }

    /// Whether this prompt may describe itself by `descriptor`.
    open spec fn may_describe(&self, descriptor: PromptView) -> bool {
        true
    }

    /// Fills the template in.
    fn get(&self, arguments: Option<Json>) -> (outcome: Result<GetPromptResult, Error>)
        ensures
            self.may_return(opt_view(arguments), prompt_outcome_view(outcome)),
    ;

    /// How this prompt is listed.
    fn definition(&self) -> (r: Prompt)
        ensures
            self.may_describe(r@),
    ;
}

} // verus!
