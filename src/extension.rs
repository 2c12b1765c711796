//! Extension configuration: the client request shape discriminated by its type
//! tag, the runtime pre-step for `npx` commands, and the conversion into the
//! configuration that the agent registers.
use crate::handlers::ExtensionResponse;
use crate::text::{has_suffix, text_eq, text_ends_with};
use vstd::prelude::*;
use vstd::string::*;

verus! {

#[verifier::external_type_specification]
#[verifier::external_body]
pub struct ExValue(serde_json::Value);

/// Name of the installer script looked for beside an `npx` command.
pub const NODE_INSTALLER_SCRIPT: &'static str = "install-node.cmd";

/// The one argument handed to the installer script.
pub const NODE_INSTALLER_URL: &'static str = "https://nodejs.org/dist/v23.10.0/node-v23.10.0-x64.msi";

/// Where a local Node runtime is looked for.
pub const NODE_PATH: &'static str = "C:\\Program Files\\nodejs\\node.exe";

/// Where a local Node runtime is looked for, in the 32-bit program directory.
pub const NODE_PATH_X86: &'static str = "C:\\Program Files (x86)\\nodejs\\node.exe";

/// The type tag of an extension configuration.
#[derive(Clone, Copy, Debug, PartialEq, Eq, Structural)]
pub enum ExtensionKind {
    Sse,
    Stdio,
    Builtin,
    Frontend,
}

/// The kind that a type tag names, if it names one.
pub open spec fn kind_of_tag(tag: Seq<char>) -> Option<ExtensionKind> {
    if tag == "sse"@ {
        Some(ExtensionKind::Sse)
    } else if tag == "stdio"@ {
        Some(ExtensionKind::Stdio)
    } else if tag == "builtin"@ {
        Some(ExtensionKind::Builtin)
    } else if tag == "frontend"@ {
        Some(ExtensionKind::Frontend)
    } else {
        None
    }
}

/// Reads the type tag of a submitted extension configuration; any other tag
/// is refused.
pub fn extension_kind(tag: &str) -> (r: Option<ExtensionKind>)
    ensures
        r == kind_of_tag(tag@),
{
    if text_eq(tag, "sse") {
        Some(ExtensionKind::Sse)
    } else if text_eq(tag, "stdio") {
        Some(ExtensionKind::Stdio)
    } else if text_eq(tag, "builtin") {
        Some(ExtensionKind::Builtin)
    } else if text_eq(tag, "frontend") {
        Some(ExtensionKind::Frontend)
    } else {
        None
    }
}

/// An extension configuration as a client submits it.
pub enum ExtensionConfigRequest {
    Sse {
        name: String,
        uri: String,
        envs: Vec<(String, String)>,
        env_keys: Vec<String>,
        timeout: Option<u64>,
    },
    Stdio {
        name: String,
        cmd: String,
        args: Vec<String>,
        envs: Vec<(String, String)>,
        env_keys: Vec<String>,
        timeout: Option<u64>,
    },
    Builtin { name: String, display_name: Option<String>, timeout: Option<u64> },
    Frontend { name: String, tools: Vec<serde_json::Value>, instructions: Option<String> },
}

/// An extension configuration as the agent registers it.
pub enum ExtensionConfig {
    Sse {
        name: String,
        uri: String,
        envs: Vec<(String, String)>,
        env_keys: Vec<String>,
        description: Option<String>,
        timeout: Option<u64>,
        bundled: Option<bool>,
    },
    Stdio {
        name: String,
        cmd: String,
        args: Vec<String>,
        envs: Vec<(String, String)>,
        env_keys: Vec<String>,
        timeout: Option<u64>,
        description: Option<String>,
        bundled: Option<bool>,
    },
    Builtin {
        name: String,
        display_name: Option<String>,
        timeout: Option<u64>,
        bundled: Option<bool>,
    },
    Frontend {
        name: String,
        tools: Vec<serde_json::Value>,
        instructions: Option<String>,
        bundled: Option<bool>,
    },
}

impl ExtensionConfigRequest {
    /// The kind of this request.
    pub open spec fn kind_spec(&self) -> ExtensionKind {
        match self {
            ExtensionConfigRequest::Sse { .. } => ExtensionKind::Sse,
            ExtensionConfigRequest::Stdio { .. } => ExtensionKind::Stdio,
            ExtensionConfigRequest::Builtin { .. } => ExtensionKind::Builtin,
            ExtensionConfigRequest::Frontend { .. } => ExtensionKind::Frontend,
        }
    }

    /// The kind of this request.
    pub fn kind(&self) -> (r: ExtensionKind)
        ensures
            r == self.kind_spec(),
    {
        match self {
            ExtensionConfigRequest::Sse { .. } => ExtensionKind::Sse,
            ExtensionConfigRequest::Stdio { .. } => ExtensionKind::Stdio,
            ExtensionConfigRequest::Builtin { .. } => ExtensionKind::Builtin,
            ExtensionConfigRequest::Frontend { .. } => ExtensionKind::Frontend,
        }
    }
}

/// The fields of a submitted extension configuration as its body carries
/// them, each `None` where the body lacks it.
pub struct ExtensionFields {
    /// The `type` tag.
    pub tag: Option<String>,
    pub name: Option<String>,
    pub uri: Option<String>,
    pub cmd: Option<String>,
    pub args: Option<Vec<String>>,
    pub envs: Option<Vec<(String, String)>>,
    pub env_keys: Option<Vec<String>>,
    pub timeout: Option<u64>,
    pub display_name: Option<String>,
    pub tools: Option<Vec<serde_json::Value>>,
    pub instructions: Option<String>,
}

/// A field without which a configuration of some kind is refused.
#[derive(Clone, Copy, Debug, PartialEq, Eq, Structural)]
pub enum RequiredField {
    Name,
    Uri,
    Cmd,
    Tools,
}

/// Why a submitted extension configuration was refused.
#[derive(Clone, Copy, Debug, PartialEq, Eq, Structural)]
pub enum SchemaError {
    /// The body has no `type` tag.
    MissingType,
    /// The `type` tag names none of the four kinds.
    UnknownType,
    /// The kind that the tag names needs this field, and the body lacks it.
    MissingField(RequiredField),
}

/// Why `f` does not describe a configuration, if it does not: the tag must
/// name a kind, every kind needs a name, an sse extension its uri, a stdio
/// extension its command, and a frontend extension its tool list.
pub open spec fn schema_error(f: ExtensionFields) -> Option<SchemaError> {
    match f.tag {
        None => Some(SchemaError::MissingType),
        Some(tag) => match kind_of_tag(tag@) {
            None => Some(SchemaError::UnknownType),
            Some(kind) => if f.name is None {
                Some(SchemaError::MissingField(RequiredField::Name))
            } else if kind == ExtensionKind::Sse && f.uri is None {
                Some(SchemaError::MissingField(RequiredField::Uri))
            } else if kind == ExtensionKind::Stdio && f.cmd is None {
                Some(SchemaError::MissingField(RequiredField::Cmd))
            } else if kind == ExtensionKind::Frontend && f.tools is None {
                Some(SchemaError::MissingField(RequiredField::Tools))
            } else {
                None
            },
        },
    }
}

/// A list field of a body, empty where the body lacks it.
pub open spec fn list_or_empty<T>(v: Option<Vec<T>>) -> Seq<T> {
    match v {
        Some(v) => v@,
        None => Seq::empty(),
    }
}

/// `req` carries the fields of `f` that its kind has, lists defaulting to
/// empty.
pub open spec fn carries_fields(f: ExtensionFields, req: ExtensionConfigRequest) -> bool {
    match req {
        ExtensionConfigRequest::Sse { name, uri, envs, env_keys, timeout } => f.name == Some(name)
            && f.uri == Some(uri) && envs@ == list_or_empty(f.envs) && env_keys@ == list_or_empty(
            f.env_keys,
        ) && timeout == f.timeout,
        ExtensionConfigRequest::Stdio { name, cmd, args, envs, env_keys, timeout } => f.name
            == Some(name) && f.cmd == Some(cmd) && args@ == list_or_empty(f.args) && envs@
            == list_or_empty(f.envs) && env_keys@ == list_or_empty(f.env_keys) && timeout
            == f.timeout,
        ExtensionConfigRequest::Builtin { name, display_name, timeout } => f.name == Some(name)
            && display_name == f.display_name && timeout == f.timeout,
        ExtensionConfigRequest::Frontend { name, tools, instructions } => f.name == Some(name)
            && f.tools == Some(tools) && instructions == f.instructions,
    }
}

/// A body whose `type` tag is absent or names none of the four kinds is
/// refused, whatever else it holds.
pub proof fn lemma_unknown_tag_is_refused(f: ExtensionFields)
    requires
        f.tag is None || kind_of_tag(f.tag->0@) is None,
    ensures
        schema_error(f) is Some,
        schema_error(f) != Some(SchemaError::MissingField(RequiredField::Name)),
{
}

fn vec_or_empty<T>(v: Option<Vec<T>>) -> (r: Vec<T>)
    ensures
        r@ == list_or_empty(v),
{
    match v {
        Some(v) => v,
        None => Vec::new(),
    }
}

/// Reads a submitted extension configuration from the fields of its body.
/// A body with no tag, an unknown tag, or without a field that its kind needs
/// is refused, and so never reaches the agent.
pub fn parse_extension_request(f: ExtensionFields) -> (r: Result<
    ExtensionConfigRequest,
    SchemaError,
>)
    ensures
        schema_error(f) matches Some(e) ==> r == Err::<ExtensionConfigRequest, SchemaError>(e),
        schema_error(f) is None ==> (r matches Ok(req) && Some(req.kind_spec()) == kind_of_tag(
            f.tag->0@,
        ) && carries_fields(f, req)),
{
    let kind = match &f.tag {
        None => {
            return Err(SchemaError::MissingType);
        },
        Some(tag) => match extension_kind(tag.as_str()) {
            None => {
                return Err(SchemaError::UnknownType);
            },
            Some(kind) => kind,
        },
    };
    let ExtensionFields {
        tag: _,
        name,
        uri,
        cmd,
        args,
        envs,
        env_keys,
        timeout,
        display_name,
        tools,
        instructions,
    } = f;
    let name = match name {
        None => {
            return Err(SchemaError::MissingField(RequiredField::Name));
        },
        Some(name) => name,
    };
    match kind {
        ExtensionKind::Sse => match uri {
            None => Err(SchemaError::MissingField(RequiredField::Uri)),
            Some(uri) => Ok(
                ExtensionConfigRequest::Sse {
                    name,
                    uri,
                    envs: vec_or_empty(envs),
                    env_keys: vec_or_empty(env_keys),
                    timeout,
                },
            ),
        },
        ExtensionKind::Stdio => match cmd {
            None => Err(SchemaError::MissingField(RequiredField::Cmd)),
            Some(cmd) => Ok(
                ExtensionConfigRequest::Stdio {
                    name,
                    cmd,
                    args: vec_or_empty(args),
                    envs: vec_or_empty(envs),
                    env_keys: vec_or_empty(env_keys),
                    timeout,
                },
            ),
        },
        ExtensionKind::Builtin => Ok(ExtensionConfigRequest::Builtin { name, display_name, timeout }),
        ExtensionKind::Frontend => match tools {
            None => Err(SchemaError::MissingField(RequiredField::Tools)),
            Some(tools) => Ok(ExtensionConfigRequest::Frontend { name, tools, instructions }),
        },
    }
}

/// The configuration registered for a request: the same fields, with no
/// description and no bundled flag.
pub open spec fn registered_form(req: ExtensionConfigRequest) -> ExtensionConfig {
    match req {
        ExtensionConfigRequest::Sse { name, uri, envs, env_keys, timeout } => ExtensionConfig::Sse {
            name,
            uri,
            envs,
            env_keys,
            description: None,
            timeout,
            bundled: None,
        },
        ExtensionConfigRequest::Stdio {
            name,
            cmd,
            args,
            envs,
            env_keys,
            timeout,
        } => ExtensionConfig::Stdio {
            name,
            cmd,
            args,
            envs,
            env_keys,
            timeout,
            description: None,
            bundled: None,
        },
        ExtensionConfigRequest::Builtin {
            name,
            display_name,
            timeout,
        } => ExtensionConfig::Builtin { name, display_name, timeout, bundled: None },
        ExtensionConfigRequest::Frontend {
            name,
            tools,
            instructions,
        } => ExtensionConfig::Frontend { name, tools, instructions, bundled: None },
    }
}

/// Converts a submitted configuration into the one the agent registers.
pub fn to_extension_config(req: ExtensionConfigRequest) -> (r: ExtensionConfig)
    ensures
        r == registered_form(req),
{
    match req {
        ExtensionConfigRequest::Sse { name, uri, envs, env_keys, timeout } => ExtensionConfig::Sse {
            name,
            uri,
            envs,
            env_keys,
            description: None,
            timeout,
            bundled: None,
        },
        ExtensionConfigRequest::Stdio {
            name,
            cmd,
            args,
            envs,
            env_keys,
            timeout,
        } => ExtensionConfig::Stdio {
            name,
            cmd,
            args,
            envs,
            env_keys,
            timeout,
            description: None,
            bundled: None,
        },
        ExtensionConfigRequest::Builtin {
            name,
            display_name,
            timeout,
        } => ExtensionConfig::Builtin { name, display_name, timeout, bundled: None },
        ExtensionConfigRequest::Frontend {
            name,
            tools,
            instructions,
        } => ExtensionConfig::Frontend { name, tools, instructions, bundled: None },
    }
}

/// `cmd` invokes `npx`.
pub open spec fn is_npx(cmd: Seq<char>) -> bool {
    has_suffix(cmd, "npx.cmd"@) || has_suffix(cmd, "npx"@)
}

/// Whether a local Node runtime must be installed before `req` is registered:
/// on a platform that needs one, for a local-process extension whose command
/// invokes `npx`, when none is present.
pub open spec fn needs_node(req: ExtensionConfigRequest, windows: bool, node_present: bool) -> bool {
    windows && !node_present && (req matches ExtensionConfigRequest::Stdio { cmd, .. } && is_npx(
        cmd@,
    ))
}

/// What an add-extension request does first.
pub enum AddExtensionStep {
    /// Run the installer script found beside this command, then go on with
    /// the request.
    InstallNode { cmd: String, req: ExtensionConfigRequest },
    /// Register this configuration with the agent.
    Register(ExtensionConfig),
}

/// The first step of an add-extension request: the Node runtime pre-step where
/// it is needed, else registration of the converted configuration.
pub fn add_extension_handler(req: ExtensionConfigRequest, windows: bool, node_present: bool) -> (r:
    AddExtensionStep)
    ensures
        needs_node(req, windows, node_present) ==> (r matches AddExtensionStep::InstallNode {
            cmd,
            req: kept,
        } && kept == req && (req matches ExtensionConfigRequest::Stdio { cmd: c, .. } && cmd@
            == c@)),
        !needs_node(req, windows, node_present) ==> r == AddExtensionStep::Register(
            registered_form(req),
        ),
{
    if windows && !node_present {
        let npx_cmd: Option<String> = match &req {
            ExtensionConfigRequest::Stdio { cmd, .. } => {
                if text_ends_with(cmd.as_str(), "npx.cmd") || text_ends_with(cmd.as_str(), "npx") {
                    Some(cmd.clone())
                } else {
                    None
                }
            },
            _ => None,
        };
        match npx_cmd {
            Some(cmd) => {
                return AddExtensionStep::InstallNode { cmd, req };
            },
            None => {},
        }
    }
    AddExtensionStep::Register(to_extension_config(req))
}

/// What came of the Node runtime pre-step.
pub enum NodeInstall {
    /// The installer script ran and succeeded.
    Installed,
    /// No installer script sits beside the command.
    ScriptMissing,
    /// The installer script exited with a failure; this is its error output.
    Failed(String),
}

/// The second step of an add-extension request, after the Node runtime
/// pre-step: the configuration to register, or the answer that ends the
/// request without registering anything.
pub fn after_node_install(req: ExtensionConfigRequest, outcome: NodeInstall) -> (r: Result<
    ExtensionConfig,
    ExtensionResponse,
>)
    ensures
        outcome is Installed ==> r == Ok::<ExtensionConfig, ExtensionResponse>(registered_form(req)),
        outcome is ScriptMissing ==> (r matches Err(resp) && resp.error && (resp.message matches Some(
            m,
        ) && m@ == "Node.js installer script not found"@)),
        outcome matches NodeInstall::Failed(stderr) ==> (r matches Err(resp) && resp.error && (
        resp.message matches Some(m) && m@ == "Failed to install Node.js: "@ + stderr@)),
{
    match outcome {
        NodeInstall::Installed => Ok(to_extension_config(req)),
        NodeInstall::ScriptMissing => Err(
            ExtensionResponse {
                error: true,
                message: Some(String::from_str("Node.js installer script not found")),
            },
        ),
        NodeInstall::Failed(stderr) => Err(
            ExtensionResponse {
                error: true,
                message: Some(String::from_str("Failed to install Node.js: ").concat(stderr.as_str())),
            },
        ),
    }
}

} // verus!
