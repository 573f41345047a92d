//! The dispatcher: it reads a message as an envelope, routes it by the name of
//! its method, calls the handler that the method names, and frames what came
//! of it.
//!
//! What a handler returns is its own affair; the contracts here say which
//! handler is called, with what, and what the client is sent for each thing
//! the handler can return.

use crate::json::{items_view, opt_view, Json, JsonView};
use crate::prompts::{
    prompt_outcome_view, GetPromptResultView, Prompt, PromptHandler, PromptView,
};
use crate::protocol::{reply, Envelope, EnvelopeView, Response};
use crate::registry::{lookup, lookup_prefix, registered, Registry};
use crate::resources::{
    read_outcome_view, ResourceDescriptorView, ResourceHandler, ResourceReadResultView,
};
use crate::tools::{tool_outcome_view, CallToolResultView, Tool, ToolHandler, ToolView};
use crate::utils::error::{Error, ErrorKind, ErrorView};
use crate::utils::text::str_eq;
use vstd::prelude::*;

verus! {

/// The version of the protocol that the server speaks.
pub const PROTOCOL_VERSION: &'static str = "2024-11-05";

/// The name and the version that the server gives of itself.
#[derive(Debug)]
pub struct ServerConfig {
    pub name: String,
    pub version: String,
}

/// The model of a [`ServerConfig`].
pub struct ServerConfigView {
    pub name: Seq<char>,
    pub version: Seq<char>,
}

impl View for ServerConfig {
    type V = ServerConfigView;

    open spec fn view(&self) -> ServerConfigView {
        ServerConfigView { name: self.name@, version: self.version@ }
    }
}

impl ServerConfig {
    /// The configuration of a server of the given name and version.
    pub fn new(name: &str, version: &str) -> (r: Self)
        ensures
            r@ == (ServerConfigView { name: name@, version: version@ }),
    {
        ServerConfig { name: String::from_str(name), version: String::from_str(version) }
    }
}

impl Clone for ServerConfig {
    fn clone(&self) -> (r: Self)
        ensures
            r@ == self@,
    {
        ServerConfig { name: self.name.clone(), version: self.version.clone() }
    }
}

/// An invalid-params failure with the given detail.
pub open spec fn invalid_params(detail: Seq<char>) -> ErrorView {
    ErrorView { kind: ErrorKind::InvalidParams, detail }
}

/// A not-found failure with the given detail.
pub open spec fn not_found(detail: Seq<char>) -> ErrorView {
    ErrorView { kind: ErrorKind::MethodNotFound, detail }
}

/// The answer to `initialize`: the version of the protocol, the three groups
/// as capabilities, and what the server gives of itself.
pub open spec fn initialize_result(config: ServerConfigView) -> JsonView {
    JsonView::empty_object().with("protocolVersion"@, JsonView::String("2024-11-05"@)).with(
        "capabilities"@,
        JsonView::empty_object().with("tools"@, JsonView::empty_object()).with(
            "resources"@,
            JsonView::empty_object(),
        ).with("prompts"@, JsonView::empty_object()),
    ).with(
        "serverInfo"@,
        JsonView::empty_object().with("name"@, JsonView::String(config.name)).with(
            "version"@,
            JsonView::String(config.version),
        ),
    )
}

/// The tool and the arguments that the parameters of `tools/call` name.
/// Arguments that are not given are the empty object.
pub open spec fn tool_call_of(params: Option<JsonView>) -> Result<(Seq<char>, JsonView), ErrorView> {
    match params {
        None => Err(invalid_params("Missing params"@)),
        Some(p) => match p.member_text("name"@) {
            None => Err(invalid_params("Missing tool name"@)),
            Some(name) => Ok(
                (
                    name,
                    match p.member("arguments"@) {
                        Some(arguments) => arguments,
                        None => JsonView::empty_object(),
                    },
                ),
            ),
        },
    }
}

/// The URI that the parameters of `resources/read` name.
pub open spec fn resource_read_of(params: Option<JsonView>) -> Result<Seq<char>, ErrorView> {
    match params {
        None => Err(invalid_params("Missing params"@)),
        Some(p) => match p.member_text("uri"@) {
            None => Err(invalid_params("Missing resource URI"@)),
            Some(uri) => Ok(uri),
        },
    }
}

/// The prompt and the arguments, if any, that the parameters of
/// `prompts/get` name.
pub open spec fn prompt_get_of(params: Option<JsonView>) -> Result<
    (Seq<char>, Option<JsonView>),
    ErrorView,
> {
    match params {
        None => Err(invalid_params("Missing params"@)),
        Some(p) => match p.member_text("name"@) {
            None => Err(invalid_params("Missing prompt name"@)),
            Some(name) => Ok((name, p.member("arguments"@))),
        },
    }
}

/// Whether `listed` is how the tool of `binding` is listed: a descriptor that
/// the handler may give of itself, under the name that the handler is bound to.
pub open spec fn lists_tool<T: ToolHandler>(binding: (Seq<char>, T), listed: ToolView) -> bool {
    exists|d: ToolView| #[trigger]
        binding.1.may_describe(d) && listed == (ToolView { name: binding.0, ..d })
}

/// Whether `listing` lists the tools that are bound: one descriptor for each
/// binding, in order.
pub open spec fn lists_tools<T: ToolHandler>(
    tools: Seq<(Seq<char>, T)>,
    listing: Seq<ToolView>,
) -> bool {
    &&& listing.len() == tools.len()
    &&& forall|i: int| 0 <= i < tools.len() ==> lists_tool(#[trigger] tools[i], listing[i])
}

/// Whether `listing` lists the resources that are bound: one descriptor for
/// each binding, in order, each a descriptor that the handler may give of
/// itself.
pub open spec fn lists_resources<R: ResourceHandler>(
    resources: Seq<(Seq<char>, R)>,
    listing: Seq<ResourceDescriptorView>,
) -> bool {
    &&& listing.len() == resources.len()
    &&& forall|i: int|
        0 <= i < resources.len() ==> (#[trigger] resources[i]).1.may_describe(listing[i])
}

/// Whether `listed` is how the prompt of `binding` is listed: a descriptor
/// that the handler may give of itself, under the name that the handler is
/// bound to.
pub open spec fn lists_prompt<P: PromptHandler>(binding: (Seq<char>, P), listed: PromptView) -> bool {
    exists|d: PromptView| #[trigger]
        binding.1.may_describe(d) && listed == (PromptView { name: binding.0, ..d })
}

/// Whether `listing` lists the prompts that are bound: one descriptor for
/// each binding, in order.
pub open spec fn lists_prompts<P: PromptHandler>(
    prompts: Seq<(Seq<char>, P)>,
    listing: Seq<PromptView>,
) -> bool {
    &&& listing.len() == prompts.len()
    &&& forall|i: int| 0 <= i < prompts.len() ==> lists_prompt(#[trigger] prompts[i], listing[i])
}

/// The model of what handling a method ended with.
pub open spec fn outcome_view(outcome: Result<Json, Error>) -> Result<JsonView, ErrorView> {
    match outcome {
        Ok(result) => Ok(result@),
        Err(e) => Err(e@),
    }
}

/// The server: what it gives of itself, the handlers of the three groups, and
/// whether a client has asked it to initialize.
pub struct McpServer<T, R, P> {
    config: ServerConfig,
    tools: Registry<T>,
    resources: Registry<R>,
    prompts: Registry<P>,
    initialized: bool,
}

impl<T: ToolHandler, R: ResourceHandler, P: PromptHandler> McpServer<T, R, P> {
    /// What the server gives of itself.
    pub closed spec fn config(&self) -> ServerConfigView {
        self.config@
    }

    /// The tools that are bound.
    pub closed spec fn tools(&self) -> Seq<(Seq<char>, T)> {
        self.tools@
    }

    /// The resources that are bound.
    pub closed spec fn resources(&self) -> Seq<(Seq<char>, R)> {
        self.resources@
    }

    /// The prompts that are bound.
    pub closed spec fn prompts(&self) -> Seq<(Seq<char>, P)> {
        self.prompts@
    }

    /// Whether a client has asked the server to initialize.
    pub closed spec fn initialized(&self) -> bool {
        self.initialized
    }

    /// Whether `after` has the configuration and the handlers of this server.
    pub open spec fn same_setup(&self, after: &Self) -> bool {
        &&& after.config() == self.config()
        &&& after.tools() == self.tools()
        &&& after.resources() == self.resources()
        &&& after.prompts() == self.prompts()
    }

    /// Whether `tools/list` may come to `outcome`.
    pub open spec fn tools_list_may_give(&self, outcome: Result<JsonView, ErrorView>) -> bool {
        exists|listing: Seq<ToolView>| #[trigger]
            lists_tools(self.tools(), listing) && outcome == Ok::<JsonView, ErrorView>(
                JsonView::empty_object().with(
                    "tools"@,
                    JsonView::Array(listing.map_values(|d: ToolView| d.json())),
                ),
            )
    }

    /// Whether `resources/list` may come to `outcome`.
    pub open spec fn resources_list_may_give(&self, outcome: Result<JsonView, ErrorView>) -> bool {
        exists|listing: Seq<ResourceDescriptorView>| #[trigger]
            lists_resources(self.resources(), listing) && outcome == Ok::<JsonView, ErrorView>(
                JsonView::empty_object().with(
                    "resources"@,
                    JsonView::Array(listing.map_values(|d: ResourceDescriptorView| d.json())),
                ),
            )
    }

    /// Whether `prompts/list` may come to `outcome`.
    pub open spec fn prompts_list_may_give(&self, outcome: Result<JsonView, ErrorView>) -> bool {
        exists|listing: Seq<PromptView>| #[trigger]
            lists_prompts(self.prompts(), listing) && outcome == Ok::<JsonView, ErrorView>(
                JsonView::empty_object().with(
                    "prompts"@,
                    JsonView::Array(listing.map_values(|d: PromptView| d.json())),
                ),
            )
    }

    /// Whether `tools/call` with `params` may come to `outcome`: the failure
    /// for parameters that name no tool or a tool that is not bound, else
    /// what the handler bound to the name returned for the arguments.
    pub open spec fn tool_call_may_give(
        &self,
        params: Option<JsonView>,
        outcome: Result<JsonView, ErrorView>,
    ) -> bool {
        match tool_call_of(params) {
            Err(e) => outcome == Err::<JsonView, ErrorView>(e),
            Ok((name, arguments)) => match lookup(self.tools(), name) {
                None => outcome == Err::<JsonView, ErrorView>(not_found("Tool not found: "@ + name)),
                Some(handler) => exists|returned: Result<CallToolResultView, ErrorView>| #[trigger]
                    handler.may_return(arguments, returned) && outcome == (match returned {
                        Ok(result) => Ok::<JsonView, ErrorView>(result.json()),
                        Err(e) => Err(e),
                    }),
            },
        }
    }

    /// Whether `resources/read` with `params` may come to `outcome`: the
    /// failure for parameters that name no URI or a URI that begins with no
    /// bound name, else what the handler bound to the first such name
    /// returned for the URI.
    pub open spec fn resource_read_may_give(
        &self,
        params: Option<JsonView>,
        outcome: Result<JsonView, ErrorView>,
    ) -> bool {
        match resource_read_of(params) {
            Err(e) => outcome == Err::<JsonView, ErrorView>(e),
            Ok(uri) => match lookup_prefix(self.resources(), uri) {
                None => outcome == Err::<JsonView, ErrorView>(
                    not_found("Resource not found: "@ + uri),
                ),
                Some(handler) => exists|returned: Result<ResourceReadResultView, ErrorView>|
                    #[trigger] handler.may_return(uri, returned) && outcome == (match returned {
                        Ok(result) => Ok::<JsonView, ErrorView>(result.json()),
                        Err(e) => Err(e),
                    }),
            },
        }
    }

    /// Whether `prompts/get` with `params` may come to `outcome`: the failure
    /// for parameters that name no prompt or a prompt that is not bound, else
    /// what the handler bound to the name returned for the arguments.
    pub open spec fn prompt_get_may_give(
        &self,
        params: Option<JsonView>,
        outcome: Result<JsonView, ErrorView>,
    ) -> bool {
        match prompt_get_of(params) {
            Err(e) => outcome == Err::<JsonView, ErrorView>(e),
            Ok((name, arguments)) => match lookup(self.prompts(), name) {
                None => outcome == Err::<JsonView, ErrorView>(
                    not_found("Prompt not found: "@ + name),
                ),
                Some(handler) => exists|returned: Result<GetPromptResultView, ErrorView>| #[trigger]
                    handler.may_return(arguments, returned) && outcome == (match returned {
                        Ok(result) => Ok::<JsonView, ErrorView>(result.json()),
                        Err(e) => Err(e),
                    }),
            },
        }
    }

    /// Whether handling `envelope` may come to `outcome`. The nine methods
    /// are told apart by their exact names; any other name is not found.
    pub open spec fn may_give(
        &self,
        envelope: EnvelopeView,
        outcome: Result<JsonView, ErrorView>,
    ) -> bool {
        let method = envelope.method;
        if method == "initialize"@ {
            outcome == Ok::<JsonView, ErrorView>(initialize_result(self.config()))
        } else if method == "initialized"@ || method == "ping"@ {
            outcome == Ok::<JsonView, ErrorView>(JsonView::empty_object())
        } else if method == "tools/list"@ {
            self.tools_list_may_give(outcome)
        } else if method == "tools/call"@ {
            self.tool_call_may_give(envelope.params, outcome)
        } else if method == "resources/list"@ {
            self.resources_list_may_give(outcome)
        } else if method == "resources/read"@ {
            self.resource_read_may_give(envelope.params, outcome)
        } else if method == "prompts/list"@ {
            self.prompts_list_may_give(outcome)
        } else if method == "prompts/get"@ {
            self.prompt_get_may_give(envelope.params, outcome)
        } else {
            outcome == Err::<JsonView, ErrorView>(not_found(method))
        }
    }

    /// Whether handling `message` may end with sending `sent`, and with the
    /// server initialized or not as `initialized` says.
    ///
    /// A message that is no envelope is answered with the failure that says
    /// why, if it has an id. An envelope is handled, whether it has an id or
    /// not, and answered with what came of it if it has one.
    pub open spec fn may_answer(
        &self,
        message: JsonView,
        sent: Option<JsonView>,
        initialized: bool,
    ) -> bool {
        match EnvelopeView::of(message) {
            Err(e) => sent == reply(message.member("id"@), Err(e)) && initialized
                == self.initialized(),
            Ok(envelope) => {
                &&& exists|outcome: Result<JsonView, ErrorView>| #[trigger]
                    self.may_give(envelope, outcome) && sent == reply(envelope.id, outcome)
                &&& initialized == (self.initialized() || envelope.method == "initialize"@)
            },
        }
    }

    /// A server without handlers, not yet initialized.
    pub fn new(config: ServerConfig) -> (r: Self)
        ensures
            r.config() == config@,
            r.tools() == Seq::<(Seq<char>, T)>::empty(),
            r.resources() == Seq::<(Seq<char>, R)>::empty(),
            r.prompts() == Seq::<(Seq<char>, P)>::empty(),
            !r.initialized(),
    {
        McpServer {
            config,
            tools: Registry::new(),
            resources: Registry::new(),
            prompts: Registry::new(),
            initialized: false,
        }
    }

    /// Binds the tool `name` to `handler`, in place of the handler that the
    /// name was bound to, if it was.
    pub fn register_tool(&mut self, name: String, handler: T) -> (r: Result<(), Error>)
        ensures
            r is Ok,
            final(self).tools() == registered(old(self).tools(), name@, handler),
            final(self).config() == old(self).config(),
            final(self).resources() == old(self).resources(),
            final(self).prompts() == old(self).prompts(),
            final(self).initialized() == old(self).initialized(),
    {
        self.tools.register(name, handler);
        Ok(())
    }

    /// Binds the resources whose URI begins with `name` to `handler`, in
    /// place of the handler that the name was bound to, if it was.
    pub fn register_resource(&mut self, name: String, handler: R) -> (r: Result<(), Error>)
        ensures
            r is Ok,
            final(self).resources() == registered(old(self).resources(), name@, handler),
            final(self).config() == old(self).config(),
            final(self).tools() == old(self).tools(),
            final(self).prompts() == old(self).prompts(),
            final(self).initialized() == old(self).initialized(),
    {
        self.resources.register(name, handler);
        Ok(())
    }

    /// Binds the prompt `name` to `handler`, in place of the handler that the
    /// name was bound to, if it was.
    pub fn register_prompt(&mut self, name: String, handler: P) -> (r: Result<(), Error>)
        ensures
            r is Ok,
            final(self).prompts() == registered(old(self).prompts(), name@, handler),
            final(self).config() == old(self).config(),
            final(self).tools() == old(self).tools(),
            final(self).resources() == old(self).resources(),
            final(self).initialized() == old(self).initialized(),
    {
        self.prompts.register(name, handler);
        Ok(())
    }

    /// Whether a client has asked the server to initialize.
    pub fn is_initialized(&self) -> (r: bool)
        ensures
            r == self.initialized(),
    {
        self.initialized
    }

    /// Handles one message and returns what is to be sent back, if anything.
    ///
    /// A message with an id is answered, and the answer carries that id; a
    /// message without one is never answered, whatever came of it.
    pub fn handle_request(&mut self, message: Json) -> (r: Result<Option<Json>, Error>)
        ensures
            r matches Ok(sent) && old(self).may_answer(
                message@,
                opt_view(sent),
                final(self).initialized(),
            ),
            old(self).same_setup(final(self)),
            message@.member("id"@) matches Some(id) ==> r matches Ok(Some(answer))
                && answer@.member("id"@) == Some(id),
            message@.member("id"@) is None ==> r matches Ok(None),
    {
        let envelope = match Envelope::from_json(&message) {
            Ok(envelope) => envelope,
            Err(e) => {
                let sent = match message.get("id") {
                    Some(id) => {
                        let response = Response::failure(id.clone(), &e);
                        proof {
                            crate::protocol::lemma_response_id(response@);
                        }
                        Some(response.to_json())
                    },
                    None => None,
                };
                return Ok(sent);
            },
        };
        let outcome = self.dispatch(&envelope);
        let sent = match envelope.id {
            Some(id) => {
                let response = match outcome {
                    Ok(result) => Response::success(id, result),
                    Err(e) => Response::failure(id, &e),
                };
                proof {
                    crate::protocol::lemma_response_id(response@);
                }
                Some(response.to_json())
            },
            None => None,
        };
        Ok(sent)
    }

    /// Routes an envelope to the procedure that its method names.
    fn dispatch(&mut self, envelope: &Envelope) -> (outcome: Result<Json, Error>)
        ensures
            old(self).may_give(envelope@, outcome_view(outcome)),
            old(self).same_setup(final(self)),
            final(self).initialized() == (old(self).initialized() || envelope@.method
                == "initialize"@),
    {
        let method = envelope.method.as_str();
        if str_eq(method, "initialize") {
            self.handle_initialize()
        } else if str_eq(method, "initialized") {
            self.handle_initialized()
        } else if str_eq(method, "ping") {
            self.handle_ping()
        } else if str_eq(method, "tools/list") {
            self.handle_tools_list()
        } else if str_eq(method, "tools/call") {
            self.handle_tools_call(&envelope.params)
        } else if str_eq(method, "resources/list") {
            self.handle_resources_list()
        } else if str_eq(method, "resources/read") {
            self.handle_resources_read(&envelope.params)
        } else if str_eq(method, "prompts/list") {
            self.handle_prompts_list()
        } else if str_eq(method, "prompts/get") {
            self.handle_prompts_get(&envelope.params)
        } else {
            Err(Error::method_not_found(method))
        }
    }

    fn handle_initialize(&mut self) -> (outcome: Result<Json, Error>)
        ensures
            outcome_view(outcome) == Ok::<JsonView, ErrorView>(
                initialize_result(old(self).config()),
            ),
            old(self).same_setup(final(self)),
            final(self).initialized(),
    {
        self.initialized = true;
        let capabilities = Json::empty_object().with("tools", Json::empty_object()).with(
            "resources",
            Json::empty_object(),
        ).with("prompts", Json::empty_object());
        let info = Json::empty_object().with(
            "name",
            Json::string(self.config.name.as_str()),
        ).with("version", Json::string(self.config.version.as_str()));
        Ok(
            Json::empty_object().with("protocolVersion", Json::string(PROTOCOL_VERSION)).with(
                "capabilities",
                capabilities,
            ).with("serverInfo", info),
        )
    }

    fn handle_initialized(&self) -> (outcome: Result<Json, Error>)
        ensures
            outcome_view(outcome) == Ok::<JsonView, ErrorView>(JsonView::empty_object()),
    {
        Ok(Json::empty_object())
    }

    fn handle_ping(&self) -> (outcome: Result<Json, Error>)
        ensures
            outcome_view(outcome) == Ok::<JsonView, ErrorView>(JsonView::empty_object()),
    {
        Ok(Json::empty_object())
    }

    fn handle_tools_list(&self) -> (outcome: Result<Json, Error>)
        ensures
            self.tools_list_may_give(outcome_view(outcome)),
    {
        let mut items: Vec<Json> = Vec::new();
        let ghost mut listing: Seq<ToolView> = Seq::empty();
        let count = self.tools.len();
        let mut i: usize = 0;
        loop
            invariant
                i <= self.tools@.len(),
                count == self.tools@.len(),
                items@.len() == i,
                listing.len() == i,
                forall|j: int| 0 <= j < i ==> items@[j]@ == listing[j].json(),
                forall|j: int| 0 <= j < i ==> lists_tool(#[trigger] self.tools@[j], listing[j]),
            ensures
                i == self.tools@.len(),
            decreases self.tools@.len() - i,
        {
            let (name, handler) = match self.tools.entry(i) {
                Some(entry) => entry,
                None => {
                    break;
                },
            };
            let descriptor = handler.definition();
            let ghost given = descriptor@;
            let listed = descriptor.named(name);
            proof {
                assert(self.tools@[i as int].1.may_describe(given));
                assert(lists_tool(self.tools@[i as int], listed@));
                listing = listing.push(listed@);
            }
            items.push(listed.to_json());
            i = i + 1;
        }
        proof {
            assert(items_view(items@) =~= listing.map_values(|d: ToolView| d.json()));
            assert(lists_tools(self.tools(), listing));
        }
        Ok(Json::empty_object().with("tools", Json::Array(items)))
    }

    fn handle_tools_call(&self, params: &Option<Json>) -> (outcome: Result<Json, Error>)
        ensures
            self.tool_call_may_give(opt_view(*params), outcome_view(outcome)),
    {
        let params = match params {
            Some(params) => params,
            None => {
                return Err(Error::invalid_params("Missing params"));
            },
        };
        let name = match params.get_str("name") {
            Some(name) => name,
            None => {
                return Err(Error::invalid_params("Missing tool name"));
            },
        };
        let arguments = match params.get("arguments") {
            Some(arguments) => arguments.clone(),
            None => Json::empty_object(),
        };
        let handler = match self.tools.lookup(name) {
            Some(handler) => handler,
            None => {
                return Err(
                    Error::MethodNotFound(String::from_str("Tool not found: ").concat(name)),
                );
            },
        };
        let ghost handed = arguments@;
        let returned = handler.call(arguments);
        let ghost given = tool_outcome_view(returned);
        let outcome = match returned {
            Ok(result) => Ok(result.to_json()),
            Err(e) => Err(e),
        };
        proof {
            assert(handler.may_return(handed, given));
            assert(outcome_view(outcome) == (match given {
                Ok(result) => Ok::<JsonView, ErrorView>(result.json()),
                Err(e) => Err(e),
            }));
            assert(tool_call_of(Some(params@)) == Ok::<(Seq<char>, JsonView), ErrorView>(
                (name@, handed),
            ));
            let bound = lookup(self.tools(), name@)->0;
            assert(exists|returned: Result<CallToolResultView, ErrorView>| #[trigger]
                bound.may_return(handed, returned) && outcome_view(outcome) == (match returned {
                    Ok(result) => Ok::<JsonView, ErrorView>(result.json()),
                    Err(e) => Err(e),
                }));
        }
        outcome
    }

    fn handle_resources_list(&self) -> (outcome: Result<Json, Error>)
        ensures
            self.resources_list_may_give(outcome_view(outcome)),
    {
        let mut items: Vec<Json> = Vec::new();
        let ghost mut listing: Seq<ResourceDescriptorView> = Seq::empty();
        let count = self.resources.len();
        let mut i: usize = 0;
        loop
            invariant
                i <= self.resources@.len(),
                count == self.resources@.len(),
                items@.len() == i,
                listing.len() == i,
                forall|j: int| 0 <= j < i ==> items@[j]@ == listing[j].json(),
                forall|j: int|
                    0 <= j < i ==> (#[trigger] self.resources@[j]).1.may_describe(listing[j]),
            ensures
                i == self.resources@.len(),
            decreases self.resources@.len() - i,
        {
            let handler = match self.resources.entry(i) {
                Some(entry) => entry.1,
                None => {
                    break;
                },
            };
            let descriptor = handler.definition();
            proof {
                listing = listing.push(descriptor@);
            }
            items.push(descriptor.to_json());
            i = i + 1;
        }
        proof {
            assert(items_view(items@) =~= listing.map_values(
                |d: ResourceDescriptorView| d.json(),
            ));
            assert(lists_resources(self.resources(), listing));
        }
        Ok(Json::empty_object().with("resources", Json::Array(items)))
    }

    fn handle_resources_read(&self, params: &Option<Json>) -> (outcome: Result<Json, Error>)
        ensures
            self.resource_read_may_give(opt_view(*params), outcome_view(outcome)),
    {
        let params = match params {
            Some(params) => params,
            None => {
                return Err(Error::invalid_params("Missing params"));
            },
        };
        let uri = match params.get_str("uri") {
            Some(uri) => uri,
            None => {
                return Err(Error::invalid_params("Missing resource URI"));
            },
        };
        let handler = match self.resources.lookup_by_prefix(uri) {
            Some(handler) => handler,
            None => {
                return Err(
                    Error::MethodNotFound(String::from_str("Resource not found: ").concat(uri)),
                );
            },
        };
        let returned = handler.read(uri);
        let ghost given = read_outcome_view(returned);
        let outcome = match returned {
            Ok(result) => Ok(result.to_json()),
            Err(e) => Err(e),
        };
        proof {
            assert(handler.may_return(uri@, given));
            assert(outcome_view(outcome) == (match given {
                Ok(result) => Ok::<JsonView, ErrorView>(result.json()),
                Err(e) => Err(e),
            }));
            assert(resource_read_of(Some(params@)) == Ok::<Seq<char>, ErrorView>(uri@));
            let bound = lookup_prefix(self.resources(), uri@)->0;
            assert(exists|returned: Result<ResourceReadResultView, ErrorView>| #[trigger]
                bound.may_return(uri@, returned) && outcome_view(outcome) == (match returned {
                    Ok(result) => Ok::<JsonView, ErrorView>(result.json()),
                    Err(e) => Err(e),
                }));
        }
        outcome
    }

    fn handle_prompts_list(&self) -> (outcome: Result<Json, Error>)
        ensures
            self.prompts_list_may_give(outcome_view(outcome)),
    {
        let mut items: Vec<Json> = Vec::new();
        let ghost mut listing: Seq<PromptView> = Seq::empty();
        let count = self.prompts.len();
        let mut i: usize = 0;
        loop
            invariant
                i <= self.prompts@.len(),
                count == self.prompts@.len(),
                items@.len() == i,
                listing.len() == i,
                forall|j: int| 0 <= j < i ==> items@[j]@ == listing[j].json(),
                forall|j: int|
                    0 <= j < i ==> lists_prompt(#[trigger] self.prompts@[j], listing[j]),
            ensures
                i == self.prompts@.len(),
            decreases self.prompts@.len() - i,
        {
            let (name, handler) = match self.prompts.entry(i) {
                Some(entry) => entry,
                None => {
                    break;
                },
            };
            let descriptor = handler.definition();
            let ghost given = descriptor@;
            let listed = descriptor.named(name);
            proof {
                assert(self.prompts@[i as int].1.may_describe(given));
                assert(lists_prompt(self.prompts@[i as int], listed@));
                listing = listing.push(listed@);
            }
            items.push(listed.to_json());
            i = i + 1;
        }
        proof {
            assert(items_view(items@) =~= listing.map_values(|d: PromptView| d.json()));
            assert(lists_prompts(self.prompts(), listing));
        }
        Ok(Json::empty_object().with("prompts", Json::Array(items)))
    }

    fn handle_prompts_get(&self, params: &Option<Json>) -> (outcome: Result<Json, Error>)
        ensures
            self.prompt_get_may_give(opt_view(*params), outcome_view(outcome)),
    {
        let params = match params {
            Some(params) => params,
            None => {
                return Err(Error::invalid_params("Missing params"));
            },
        };
        let name = match params.get_str("name") {
            Some(name) => name,
            None => {
                return Err(Error::invalid_params("Missing prompt name"));
            },
        };
        let arguments = match params.get("arguments") {
            Some(arguments) => Some(arguments.clone()),
            None => None,
        };
        let handler = match self.prompts.lookup(name) {
            Some(handler) => handler,
            None => {
                return Err(
                    Error::MethodNotFound(String::from_str("Prompt not found: ").concat(name)),
                );
            },
        };
        let ghost handed = opt_view(arguments);
        let returned = handler.get(arguments);
        let ghost given = prompt_outcome_view(returned);
        let outcome = match returned {
            Ok(result) => Ok(result.to_json()),
            Err(e) => Err(e),
        };
        proof {
            assert(handler.may_return(handed, given));
            assert(outcome_view(outcome) == (match given {
                Ok(result) => Ok::<JsonView, ErrorView>(result.json()),
                Err(e) => Err(e),
            }));
            assert(prompt_get_of(Some(params@)) == Ok::<
                (Seq<char>, Option<JsonView>),
                ErrorView,
            >((name@, handed)));
            let bound = lookup(self.prompts(), name@)->0;
            assert(exists|returned: Result<GetPromptResultView, ErrorView>| #[trigger]
                bound.may_return(handed, returned) && outcome_view(outcome) == (match returned {
                    Ok(result) => Ok::<JsonView, ErrorView>(result.json()),
                    Err(e) => Err(e),
                }));
        }
        outcome
    }
}

/// Once a tool is registered under a name, a call of that name is answered
/// by the handler it was registered with, and by no handler that the name
/// was bound to before.
pub proof fn lemma_call_reaches_registered<T: ToolHandler, R: ResourceHandler, P: PromptHandler>(
    before: &McpServer<T, R, P>,
    after: &McpServer<T, R, P>,
    name: Seq<char>,
    handler: T,
    params: Option<JsonView>,
    outcome: Result<JsonView, ErrorView>,
)
    requires
        after.tools() == registered(before.tools(), name, handler),
        tool_call_of(params) is Ok,
        tool_call_of(params)->Ok_0.0 == name,
        after.tool_call_may_give(params, outcome),
    ensures
        exists|returned: Result<CallToolResultView, ErrorView>| #[trigger]
            handler.may_return(tool_call_of(params)->Ok_0.1, returned) && outcome == (
            match returned {
                Ok(result) => Ok::<JsonView, ErrorView>(result.json()),
                Err(e) => Err(e),
            }),
{
    crate::registry::lemma_lookup_registered(before.tools(), name, handler);
}

/// Registering a tool changes nothing for a call of any other name.
pub proof fn lemma_call_of_other_unchanged<T: ToolHandler, R: ResourceHandler, P: PromptHandler>(
    before: &McpServer<T, R, P>,
    after: &McpServer<T, R, P>,
    name: Seq<char>,
    handler: T,
    params: Option<JsonView>,
    outcome: Result<JsonView, ErrorView>,
)
    requires
        after.tools() == registered(before.tools(), name, handler),
        tool_call_of(params) is Ok,
        tool_call_of(params)->Ok_0.0 != name,
    ensures
        after.tool_call_may_give(params, outcome) == before.tool_call_may_give(params, outcome),
{
    crate::registry::lemma_lookup_other(
        before.tools(),
        name,
        handler,
        tool_call_of(params)->Ok_0.0,
    );
}

/// Once a prompt is registered under a name, asking for that name is answered
/// by the handler it was registered with, and by no handler that the name
/// was bound to before.
pub proof fn lemma_get_reaches_registered<T: ToolHandler, R: ResourceHandler, P: PromptHandler>(
    before: &McpServer<T, R, P>,
    after: &McpServer<T, R, P>,
    name: Seq<char>,
    handler: P,
    params: Option<JsonView>,
    outcome: Result<JsonView, ErrorView>,
)
    requires
        after.prompts() == registered(before.prompts(), name, handler),
        prompt_get_of(params) is Ok,
        prompt_get_of(params)->Ok_0.0 == name,
        after.prompt_get_may_give(params, outcome),
    ensures
        exists|returned: Result<GetPromptResultView, ErrorView>| #[trigger]
            handler.may_return(prompt_get_of(params)->Ok_0.1, returned) && outcome == (
            match returned {
                Ok(result) => Ok::<JsonView, ErrorView>(result.json()),
                Err(e) => Err(e),
            }),
{
    crate::registry::lemma_lookup_registered(before.prompts(), name, handler);
}

/// Whether `method` is the name of one of the nine methods.
pub open spec fn known_method(method: Seq<char>) -> bool {
    ||| method == "initialize"@
    ||| method == "initialized"@
    ||| method == "ping"@
    ||| method == "tools/list"@
    ||| method == "tools/call"@
    ||| method == "resources/list"@
    ||| method == "resources/read"@
    ||| method == "prompts/list"@
    ||| method == "prompts/get"@
}

/// A method that is none of the nine is not found, whatever the handlers are,
/// and is reported under the code for that.
pub proof fn lemma_unknown_method<T: ToolHandler, R: ResourceHandler, P: PromptHandler>(
    server: &McpServer<T, R, P>,
    envelope: EnvelopeView,
    outcome: Result<JsonView, ErrorView>,
)
    requires
        !known_method(envelope.method),
        server.may_give(envelope, outcome),
    ensures
        outcome == Err::<JsonView, ErrorView>(not_found(envelope.method)),
        outcome->Err_0.code() == crate::utils::error::METHOD_NOT_FOUND,
{
}

/// The names under which tools are listed are the names under which they
/// can be called: each listed name is bound, and each bound name is listed.
pub proof fn lemma_listed_tools_are_bound<T: ToolHandler>(
    tools: Seq<(Seq<char>, T)>,
    listing: Seq<ToolView>,
)
    requires
        lists_tools(tools, listing),
    ensures
        forall|i: int| 0 <= i < listing.len() ==> lookup(tools, (#[trigger] listing[i]).name) is Some,
        forall|name: Seq<char>| #[trigger]
            lookup(tools, name) is Some ==> exists|i: int|
                0 <= i < listing.len() && (#[trigger] listing[i]).name == name,
{
    assert forall|i: int| 0 <= i < listing.len() implies lookup(
        tools,
        (#[trigger] listing[i]).name,
    ) is Some by {
        assert(lists_tool(tools[i], listing[i]));
        crate::registry::lemma_exists_first(tools, listing[i].name, i);
    }
    assert forall|name: Seq<char>| #[trigger] lookup(tools, name) is Some implies exists|i: int|
        0 <= i < listing.len() && (#[trigger] listing[i]).name == name by {
        crate::registry::lemma_find_some(tools, name);
        let k = crate::registry::find(tools, name)->0;
        assert(lists_tool(tools[k], listing[k]));
        assert(listing[k].name == name);
    }
}

/// The names under which prompts are listed are the names under which they
/// can be asked for: each listed name is bound, and each bound name is listed.
pub proof fn lemma_listed_prompts_are_bound<P: PromptHandler>(
    prompts: Seq<(Seq<char>, P)>,
    listing: Seq<PromptView>,
)
    requires
        lists_prompts(prompts, listing),
    ensures
        forall|i: int|
            0 <= i < listing.len() ==> lookup(prompts, (#[trigger] listing[i]).name) is Some,
        forall|name: Seq<char>| #[trigger]
            lookup(prompts, name) is Some ==> exists|i: int|
                0 <= i < listing.len() && (#[trigger] listing[i]).name == name,
{
    assert forall|i: int| 0 <= i < listing.len() implies lookup(
        prompts,
        (#[trigger] listing[i]).name,
    ) is Some by {
        assert(lists_prompt(prompts[i], listing[i]));
        crate::registry::lemma_exists_first(prompts, listing[i].name, i);
    }
    assert forall|name: Seq<char>| #[trigger] lookup(prompts, name) is Some implies exists|i: int|
        0 <= i < listing.len() && (#[trigger] listing[i]).name == name by {
        crate::registry::lemma_find_some(prompts, name);
        let k = crate::registry::find(prompts, name)->0;
        assert(lists_prompt(prompts[k], listing[k]));
        assert(listing[k].name == name);
    }
}

} // verus!
