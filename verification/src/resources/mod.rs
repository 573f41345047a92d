//! Resources: content that a client may read by URI.

pub mod config_resource;
pub mod file_resource;

use crate::json::{items_view, Json, JsonNumber, JsonView};
use crate::utils::error::{Error, ErrorView};
use vstd::prelude::*;

verus! {

/// The model of a text that may be absent.
pub open spec fn opt_text(text: Option<String>) -> Option<Seq<char>> {
    match text {
        Some(t) => Some(t@),
        None => None,
    }
}

/// The JSON string for a text that may be absent.
pub open spec fn opt_string(text: Option<Seq<char>>) -> Option<JsonView> {
    match text {
        Some(t) => Some(JsonView::String(t)),
        None => None,
    }
}

/// One piece of content of a resource.
#[derive(Debug)]
pub struct Resource {
    pub uri: String,
    pub mime_type: String,
    pub text: Option<String>,
    /// Binary content, in base64.
    pub blob: Option<String>,
    pub size: Option<u64>,
}

/// The model of a [`Resource`].
pub struct ResourceView {
    pub uri: Seq<char>,
    pub mime_type: Seq<char>,
    pub text: Option<Seq<char>>,
    pub blob: Option<Seq<char>>,
    pub size: Option<u64>,
}

impl Clone for Resource {
    fn clone(&self) -> (r: Self)
        ensures
            r@ == self@,
    {
        let text = match &self.text {
            Some(text) => Some(text.clone()),
            None => None,
        };
        let blob = match &self.blob {
            Some(text) => Some(text.clone()),
            None => None,
        };
        Resource {
            uri: self.uri.clone(),
            mime_type: self.mime_type.clone(),
            text,
            blob,
            size: self.size,
        }
    }
}

impl View for Resource {
    type V = ResourceView;

    open spec fn view(&self) -> ResourceView {
        ResourceView {
            uri: self.uri@,
            mime_type: self.mime_type@,
            text: opt_text(self.text),
            blob: opt_text(self.blob),
            size: self.size,
        }
    }
}

impl ResourceView {
    /// The content at `uri` that is the text `text` of the given type.
    pub open spec fn of_text(uri: Seq<char>, mime_type: Seq<char>, text: Seq<char>) -> ResourceView {
        ResourceView { uri, mime_type, text: Some(text), blob: None, size: None }
    }

    /// The object `uri`, `mimeType` and those of `text`, `blob` and `size`
    /// that are there.
    pub open spec fn json(self) -> JsonView {
        JsonView::empty_object().with("uri"@, JsonView::String(self.uri)).with(
            "mimeType"@,
            JsonView::String(self.mime_type),
        ).with_opt("text"@, opt_string(self.text)).with_opt(
            "blob"@,
            opt_string(self.blob),
        ).with_opt(
            "size"@,
            match self.size {
                Some(n) => Some(JsonView::Number(JsonNumber::PosInt(n))),
                None => None,
            },
        )
    }
}

impl Resource {
    /// The content at `uri` that is the text `text` of the given type.
    pub fn of_text(uri: &str, mime_type: &str, text: String) -> (r: Resource)
        ensures
            r@ == ResourceView::of_text(uri@, mime_type@, text@),
    {
        Resource {
            uri: String::from_str(uri),
            mime_type: String::from_str(mime_type),
            text: Some(text),
            blob: None,
            size: None,
        }
    }

    /// This content as it goes over the wire.
    pub fn to_json(&self) -> (r: Json)
        ensures
            r@ == self@.json(),
    {
        let text = match &self.text {
            Some(t) => Some(Json::string(t.as_str())),
            None => None,
        };
        let blob = match &self.blob {
            Some(b) => Some(Json::string(b.as_str())),
            None => None,
        };
        let size = match self.size {
            Some(n) => Some(Json::Number(JsonNumber::PosInt(n))),
            None => None,
        };
        Json::empty_object().with("uri", Json::string(self.uri.as_str())).with(
            "mimeType",
            Json::string(self.mime_type.as_str()),
        ).with_opt("text", text).with_opt("blob", blob).with_opt("size", size)
    }
}

/// What reading a resource gave.
#[derive(Debug)]
pub struct ResourceReadResult {
    pub contents: Vec<Resource>,
}

/// The model of a [`ResourceReadResult`].
pub struct ResourceReadResultView {
    pub contents: Seq<ResourceView>,
}

impl Clone for ResourceReadResult {
    fn clone(&self) -> (r: Self)
        ensures
            r@ == self@,
    {
        let mut contents: Vec<Resource> = Vec::new();
        let mut i: usize = 0;
        while i < self.contents.len()
            invariant
                i <= self.contents.len(),
                contents@.len() == i,
                forall|j: int| 0 <= j < i ==> contents@[j]@ == self.contents@[j]@,
            decreases self.contents.len() - i,
        {
            contents.push(self.contents[i].clone());
            i = i + 1;
        }
        let r = ResourceReadResult { contents };
        proof {
            assert(r@.contents =~= self@.contents);
        }
        r
    }
}

impl View for ResourceReadResult {
    type V = ResourceReadResultView;

    open spec fn view(&self) -> ResourceReadResultView {
        ResourceReadResultView { contents: self.contents@.map_values(|c: Resource| c@) }
    }
}

impl ResourceReadResultView {
    /// The result that holds the one content `content`.
    pub open spec fn single(content: ResourceView) -> ResourceReadResultView {
        ResourceReadResultView { contents: seq![content] }
    }

    /// The object `contents`.
    pub open spec fn json(self) -> JsonView {
        JsonView::empty_object().with(
            "contents"@,
            JsonView::Array(self.contents.map_values(|c: ResourceView| c.json())),
        )
    }
}

impl ResourceReadResult {
    /// The result that holds the one content `content`.
    pub fn single(content: Resource) -> (r: ResourceReadResult)
        ensures
            r@ == ResourceReadResultView::single(content@),
    {
        let mut contents: Vec<Resource> = Vec::new();
        contents.push(content);
        let r = ResourceReadResult { contents };
        proof {
            assert(r@.contents =~= seq![content@]);
        }
        r
    }

    /// This result as it goes over the wire.
    pub fn to_json(&self) -> (r: Json)
        ensures
            r@ == self@.json(),
    {
        let mut items: Vec<Json> = Vec::new();
        let mut i: usize = 0;
        while i < self.contents.len()
            invariant
                i <= self.contents.len(),
                items@.len() == i,
                forall|j: int| 0 <= j < i ==> items@[j]@ == self.contents@[j]@.json(),
            decreases self.contents.len() - i,
        {
            items.push(self.contents[i].to_json());
            i = i + 1;
        }
        proof {
            assert(items_view(items@) =~= self@.contents.map_values(|c: ResourceView| c.json()));
        }
        Json::empty_object().with("contents", Json::Array(items))
    }
}

/// How a resource is listed.
#[derive(Debug)]
pub struct ResourceDescriptor {
    pub uri: String,
    pub name: String,
    pub description: String,
    pub mime_type: String,
}

/// The model of a [`ResourceDescriptor`].
pub struct ResourceDescriptorView {
    pub uri: Seq<char>,
    pub name: Seq<char>,
    pub description: Seq<char>,
    pub mime_type: Seq<char>,
}

impl Clone for ResourceDescriptor {
    fn clone(&self) -> (r: Self)
        ensures
            r@ == self@,
    {
        ResourceDescriptor {
            uri: self.uri.clone(),
            name: self.name.clone(),
            description: self.description.clone(),
            mime_type: self.mime_type.clone(),
        }
    }
}

impl View for ResourceDescriptor {
    type V = ResourceDescriptorView;

    open spec fn view(&self) -> ResourceDescriptorView {
        ResourceDescriptorView {
            uri: self.uri@,
            name: self.name@,
            description: self.description@,
            mime_type: self.mime_type@,
        }
    }
}

impl ResourceDescriptorView {
    /// The object `uri`, `name`, `description` and `mimeType`.
    pub open spec fn json(self) -> JsonView {
        JsonView::empty_object().with("uri"@, JsonView::String(self.uri)).with(
            "name"@,
            JsonView::String(self.name),
        ).with("description"@, JsonView::String(self.description)).with(
            "mimeType"@,
            JsonView::String(self.mime_type),
        )
    }
}

impl ResourceDescriptor {
    /// This descriptor as it goes over the wire.
    pub fn to_json(&self) -> (r: Json)
        ensures
            r@ == self@.json(),
    {
        Json::empty_object().with("uri", Json::string(self.uri.as_str())).with(
            "name",
            Json::string(self.name.as_str()),
        ).with("description", Json::string(self.description.as_str())).with(
            "mimeType",
            Json::string(self.mime_type.as_str()),
        )
    }
}

/// The model of what reading a resource ended with.
pub open spec fn read_outcome_view(outcome: Result<ResourceReadResult, Error>) -> Result<
    ResourceReadResultView,
    ErrorView,
> {
    match outcome {
        Ok(result) => Ok(result@),
        Err(e) => Err(e@),
    }
}

/// Content that a client may read by URI.
pub trait ResourceHandler: Send + Sync {
    /// Whether reading `uri` may end with `outcome`. A resource that says
    /// nothing of itself may end with anything.
    open spec fn may_return(
        &self,
        uri: Seq<char>,
        outcome: Result<ResourceReadResultView, ErrorView>,
    ) -> bool {
        true
    }

    /// Whether this resource may describe itself by `descriptor`.
    open spec fn may_describe(&self, descriptor: ResourceDescriptorView) -> bool {
        true
    }

    /// Reads the resource at `uri`.
    fn read(&self, uri: &str) -> (outcome: Result<ResourceReadResult, Error>)
        ensures
            self.may_return(uri@, read_outcome_view(outcome)),
    ;

    /// How this resource is listed.
    fn definition(&self) -> (r: ResourceDescriptor)
        ensures
            self.may_describe(r@),
    ;
}

} // verus!
