//! Protocol capabilities and the builder that negotiates them.
use vstd::prelude::*;

verus! {

/// The tools capability: the server offers tools.
#[derive(Debug, Clone, Copy, PartialEq, Eq, Structural)]
pub struct ToolsCapability {
    /// Whether the list of tools may change at run time.
    pub list_changed: Option<bool>,
}

/// The prompts capability: the server offers prompts.
#[derive(Debug, Clone, Copy, PartialEq, Eq, Structural)]
pub struct PromptsCapability {
    /// Whether the list of prompts may change at run time.
    pub list_changed: Option<bool>,
}

/// The resources capability: the server offers resources.
#[derive(Debug, Clone, Copy, PartialEq, Eq, Structural)]
pub struct ResourcesCapability {
    /// Whether a client may subscribe to changes of a resource.
    pub subscribe: Option<bool>,
    /// Whether the list of resources may change at run time.
    pub list_changed: Option<bool>,
}

/// The capabilities a server advertises. An absent capability is unsupported.
#[derive(Debug, Clone, Copy, PartialEq, Eq, Structural)]
pub struct ServerCapabilities {
    pub tools: Option<ToolsCapability>,
    pub prompts: Option<PromptsCapability>,
    pub resources: Option<ResourcesCapability>,
}

/// Builder for configuring and constructing capabilities.
#[derive(Debug, Clone, Copy, PartialEq, Eq, Structural)]
pub struct CapabilitiesBuilder {
    tools: Option<ToolsCapability>,
    prompts: Option<PromptsCapability>,
    resources: Option<ResourcesCapability>,
}

impl CapabilitiesBuilder {
    /// The capabilities configured so far.
    pub closed spec fn configured(self) -> ServerCapabilities {
        ServerCapabilities { tools: self.tools, prompts: self.prompts, resources: self.resources }
    }

    /// A builder with no capability enabled.
    pub fn new() -> (r: Self)
        ensures
            r.configured() == (ServerCapabilities { tools: None, prompts: None, resources: None }),
    {
        Self { tools: None, prompts: None, resources: None }
    }

    /// Enable the tools capability.
    pub fn with_tools(self, list_changed: bool) -> (r: Self)
        ensures
            r.configured() == (ServerCapabilities {
                tools: Some(ToolsCapability { list_changed: Some(list_changed) }),
                ..self.configured()
            }),
    {
        Self { tools: Some(ToolsCapability { list_changed: Some(list_changed) }), ..self }
    }

    /// Enable the prompts capability.
    pub fn with_prompts(self, list_changed: bool) -> (r: Self)
        ensures
            r.configured() == (ServerCapabilities {
                prompts: Some(PromptsCapability { list_changed: Some(list_changed) }),
                ..self.configured()
            }),
    {
        Self { prompts: Some(PromptsCapability { list_changed: Some(list_changed) }), ..self }
    }

    /// Enable the resources capability.
    pub fn with_resources(self, subscribe: bool, list_changed: bool) -> (r: Self)
        ensures
            r.configured() == (ServerCapabilities {
                resources: Some(
                    ResourcesCapability {
                        subscribe: Some(subscribe),
                        list_changed: Some(list_changed),
                    },
                ),
                ..self.configured()
            }),
    {
        Self {
            resources: Some(
                ResourcesCapability { subscribe: Some(subscribe), list_changed: Some(list_changed) },
            ),
            ..self
        }
    }

    /// The capability set, exactly as configured.
    pub fn build(self) -> (r: ServerCapabilities)
        ensures
            r == self.configured(),
    {
        ServerCapabilities { tools: self.tools, prompts: self.prompts, resources: self.resources }
    }
}

} // verus!
