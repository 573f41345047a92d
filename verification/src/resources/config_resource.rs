//! The resource that shows the configuration of the application.

use super::{
    ResourceDescriptor, ResourceDescriptorView, Resource, ResourceHandler, ResourceReadResult,
    ResourceReadResultView, ResourceView,
};
use crate::codec::{pretty_text, to_string_pretty};
use crate::json::{Json, JsonView};
use crate::utils::error::{Error, ErrorView};
use vstd::prelude::*;

verus! {

/// Serves the configuration of the application, as JSON text, at any URI it
/// is asked for.
#[derive(Clone, Copy, Debug)]
pub struct ConfigResource {}

impl ConfigResource {
    /// The configuration that is served.
    pub open spec fn config_data() -> JsonView {
        JsonView::empty_object().with("appName"@, JsonView::String("Rust MCP Server"@)).with(
            "version"@,
            JsonView::String("1.0.0"@),
        ).with("environment"@, JsonView::String("development"@)).with(
            "features"@,
            JsonView::empty_object().with("tools"@, JsonView::Bool(true)).with(
                "resources"@,
                JsonView::Bool(true),
            ).with("prompts"@, JsonView::Bool(true)),
        )
    }

    /// What reading `uri` gives: the configuration as indented JSON text.
    pub open spec fn contents(uri: Seq<char>) -> ResourceReadResultView {
        ResourceReadResultView::single(
            ResourceView::of_text(uri, "application/json"@, pretty_text(Self::config_data())),
        )
    }

    /// The descriptor of the resource `config://app`.
    pub open spec fn spec_definition() -> ResourceDescriptorView {
        ResourceDescriptorView {
            uri: "config://app"@,
            name: "Application Configuration"@,
            description: "Current application configuration"@,
            mime_type: "application/json"@,
        }
    }

    /// The resource `config://app`.
    pub fn new() -> (r: Self) {
        ConfigResource {  }
    }

    /// The descriptor of the resource `config://app`.
    pub fn resource_definition() -> (r: ResourceDescriptor)
        ensures
            r@ == Self::spec_definition(),
    {
        ResourceDescriptor {
            uri: String::from_str("config://app"),
            name: String::from_str("Application Configuration"),
            description: String::from_str("Current application configuration"),
            mime_type: String::from_str("application/json"),
        }
    }
}

impl Default for ConfigResource {
    fn default() -> (r: Self) {
        ConfigResource::new()
    }
}

impl ResourceHandler for ConfigResource {
    open spec fn may_return(
        &self,
        uri: Seq<char>,
        outcome: Result<ResourceReadResultView, ErrorView>,
    ) -> bool {
        outcome == Ok::<_, ErrorView>(Self::contents(uri))
    }

    open spec fn may_describe(&self, descriptor: ResourceDescriptorView) -> bool {
        descriptor == Self::spec_definition()
    }

    fn read(&self, uri: &str) -> (outcome: Result<ResourceReadResult, Error>) {
        let features = Json::empty_object().with("tools", Json::boolean(true)).with(
            "resources",
            Json::boolean(true),
        ).with("prompts", Json::boolean(true));
        let data = Json::empty_object().with("appName", Json::string("Rust MCP Server")).with(
            "version",
            Json::string("1.0.0"),
        ).with("environment", Json::string("development")).with("features", features);
        let content = to_string_pretty(&data)?;
        Ok(ResourceReadResult::single(Resource::of_text(uri, "application/json", content)))
    }

    fn definition(&self) -> (r: ResourceDescriptor) {
        Self::resource_definition()
    }
}

} // verus!
