//! Startup settings: layered lookup of each setting, the provider's
//! configuration keys, and the extensions declared in configuration.
use crate::address::{host_octets, parse_host, parse_port, port_of};
use crate::extension::ExtensionConfig;
use vstd::prelude::*;
use vstd::string::*;

verus! {

/// Provider used when none is configured.
pub const DEFAULT_PROVIDER: &'static str = "openai";

/// Model used when none is configured.
pub const DEFAULT_MODEL: &'static str = "gpt-4o";

/// Shared secret used when none is configured.
pub const DEFAULT_API_KEY: &'static str = "default_api_key";

/// Bind host used when none is configured.
pub const DEFAULT_HOST: &'static str = "127.0.0.1";

/// Bind port text used when none is configured.
pub const DEFAULT_PORT_TEXT: &'static str = "8080";

/// A setting looked up in the environment first, then in the configuration
/// file, then taken from its default.
pub open spec fn layered(env: Option<String>, file: Option<String>, default: Seq<char>) -> Seq<
    char,
> {
    match env {
        Some(v) => v@,
        None => match file {
            Some(v) => v@,
            None => default,
        },
    }
}

/// Resolves a setting: the environment's value if set, else the configuration
/// file's, else `default`.
pub fn resolve_setting(env: Option<String>, file: Option<String>, default: &str) -> (r: String)
    ensures
        r@ == layered(env, file, default@),
{
    match env {
        Some(v) => v,
        None => match file {
            Some(v) => v,
            None => String::from_str(default),
        },
    }
}

/// The values that one setting was found to have in each layer.
pub struct SettingSources {
    pub env: Option<String>,
    pub file: Option<String>,
}

/// The settings that the server starts with.
pub struct ServerSettings {
    pub api_key: String,
    /// Whether no layer set the key, so that the default one is used.
    pub api_key_defaulted: bool,
    pub host: [u8; 4],
    pub port: u16,
}

/// Resolves the shared secret and the bind address of the server.
pub fn resolve_server_settings(
    api_key: SettingSources,
    host: SettingSources,
    port: SettingSources,
) -> (r: ServerSettings)
    ensures
        r.api_key@ == layered(api_key.env, api_key.file, DEFAULT_API_KEY@),
        r.api_key_defaulted == (api_key.env is None && api_key.file is None),
        r.host@ == host_octets(layered(host.env, host.file, DEFAULT_HOST@)),
        r.port == port_of(layered(port.env, port.file, DEFAULT_PORT_TEXT@)),
{
    let api_key_defaulted = api_key.env.is_none() && api_key.file.is_none();
    let key = resolve_setting(api_key.env, api_key.file, DEFAULT_API_KEY);
    let host_text = resolve_setting(host.env, host.file, DEFAULT_HOST);
    let port_text = resolve_setting(port.env, port.file, DEFAULT_PORT_TEXT);
    ServerSettings {
        api_key: key,
        api_key_defaulted,
        host: parse_host(host_text.as_str()),
        port: parse_port(port_text.as_str()),
    }
}

/// The provider and model to start with.
pub struct ProviderChoice {
    pub provider: String,
    pub model: String,
}

/// Resolves the provider and model names.
pub fn resolve_provider(provider: SettingSources, model: SettingSources) -> (r: ProviderChoice)
    ensures
        r.provider@ == layered(provider.env, provider.file, DEFAULT_PROVIDER@),
        r.model@ == layered(model.env, model.file, DEFAULT_MODEL@),
{
    ProviderChoice {
        provider: resolve_setting(provider.env, provider.file, DEFAULT_PROVIDER),
        model: resolve_setting(model.env, model.file, DEFAULT_MODEL),
    }
}

/// A configuration key that a provider declares.
pub struct ConfigKey {
    pub name: String,
    pub required: bool,
    pub secret: bool,
}

/// What bootstrap does about one provider configuration key.
pub enum KeyAction {
    /// Store the value as a secret.
    SetSecret { name: String, value: String },
    /// Store the value as a plain parameter.
    SetParam { name: String, value: String },
    /// Leave the key unset and warn.
    Unset { name: String },
    /// Stop bootstrap: a required key has no value.
    Abort { message: String },
}

/// The key is required and has no value.
pub open spec fn aborts(key: ConfigKey, value: Option<String>) -> bool {
    key.required && value is None
}

/// `a` is what bootstrap does about `key` when the environment gives `value`.
pub open spec fn key_action_is(a: KeyAction, key: ConfigKey, value: Option<String>) -> bool {
    match value {
        Some(v) => if key.secret {
            a matches KeyAction::SetSecret { name, value: w } && name@ == key.name@ && w@ == v@
        } else {
            a matches KeyAction::SetParam { name, value: w } && name@ == key.name@ && w@ == v@
        },
        None => if key.required {
            a matches KeyAction::Abort { message } && message@ == "Required key "@ + key.name@
                + " not provided"@
        } else {
            a matches KeyAction::Unset { name } && name@ == key.name@
        },
    }
}

fn key_action(key: &ConfigKey, value: &Option<String>) -> (r: KeyAction)
    ensures
        key_action_is(r, *key, *value),
{
    match value {
        Some(v) => {
            if key.secret {
                KeyAction::SetSecret { name: key.name.clone(), value: v.clone() }
            } else {
                KeyAction::SetParam { name: key.name.clone(), value: v.clone() }
            }
        },
        None => {
            if key.required {
                let message = String::from_str("Required key ").concat(key.name.as_str()).concat(
                    " not provided",
                );
                KeyAction::Abort { message }
            } else {
                KeyAction::Unset { name: key.name.clone() }
            }
        },
    }
}

/// What bootstrap does about a provider's configuration keys, given the value
/// that the environment holds under each key's name: one action per key, in
/// order, ending at the first required key without a value.
pub fn initialize_provider_config(keys: &Vec<ConfigKey>, values: &Vec<Option<String>>) -> (r: Vec<
    KeyAction,
>)
    requires
        keys@.len() == values@.len(),
    ensures
        r@.len() <= keys@.len(),
        forall|i: int| 0 <= i < r@.len() ==> key_action_is(#[trigger] r@[i], keys@[i], values@[i]),
        forall|i: int| 0 <= i < r@.len() - 1 ==> !aborts(#[trigger] keys@[i], values@[i]),
        r@.len() < keys@.len() ==> r@.len() > 0 && aborts(
            keys@[r@.len() - 1],
            values@[r@.len() - 1],
        ),
{
    let mut actions: Vec<KeyAction> = Vec::new();
    let mut i: usize = 0;
    while i < keys.len()
        invariant
            keys@.len() == values@.len(),
            i <= keys@.len(),
            actions@.len() == i,
            forall|j: int| 0 <= j < i ==> key_action_is(#[trigger] actions@[j], keys@[j], values@[j]),
            forall|j: int| 0 <= j < i ==> !aborts(#[trigger] keys@[j], values@[j]),
        decreases keys@.len() - i,
    {
        let action = key_action(&keys[i], &values[i]);
        actions.push(action);
        if keys[i].required && values[i].is_none() {
            return actions;
        }
        i = i + 1;
    }
    actions
}

/// An extension declared in configuration.
pub struct ExtensionEntry {
    pub enabled: bool,
    pub config: ExtensionConfig,
}

/// One named entry of the configuration's extension table: the entry, or the
/// text of why it could not be read.
pub struct ConfiguredExtension {
    pub name: String,
    pub entry: Result<ExtensionEntry, String>,
}

/// The configurations to register, in order: those of the enabled entries up
/// to the first entry that could not be read.
pub open spec fn to_register(s: Seq<ConfiguredExtension>) -> Seq<ExtensionConfig>
    decreases s.len(),
{
    if s.len() == 0 {
        Seq::empty()
    } else {
        match s[0].entry {
            Err(_) => Seq::empty(),
            Ok(e) => if e.enabled {
                seq![e.config] + to_register(s.drop_first())
            } else {
                to_register(s.drop_first())
            },
        }
    }
}

/// Why bootstrap of the extensions stopped, if it did: the first entry that
/// could not be read.
pub open spec fn read_failure(s: Seq<ConfiguredExtension>) -> Option<Seq<char>>
    decreases s.len(),
{
    if s.len() == 0 {
        None
    } else {
        match s[0].entry {
            Err(e) => Some("Failed to deserialize extension config for "@ + s[0].name@ + ": "@ + e@),
            Ok(_) => read_failure(s.drop_first()),
        }
    }
}

/// What bootstrap does with the configured extensions.
pub struct ExtensionPlan {
    /// Configurations to register with the agent, in order.
    pub register: Vec<ExtensionConfig>,
    /// Why bootstrap stopped early, if it did.
    pub failure: Option<String>,
}

/// Plans bootstrap of the configured extensions: every enabled entry is
/// registered and every disabled one skipped, until an entry cannot be read.
pub fn initialize_extensions(entries: Vec<ConfiguredExtension>) -> (r: ExtensionPlan)
    ensures
        r.register@ == to_register(entries@),
        match r.failure {
            Some(m) => read_failure(entries@) == Some(m@),
            None => read_failure(entries@) is None,
        },
{
    let ghost all = entries@;
    let mut rest = entries;
    let mut register: Vec<ExtensionConfig> = Vec::new();
    while rest.len() > 0
        invariant
            all == entries@,
            register@ + to_register(rest@) == to_register(all),
            read_failure(rest@) == read_failure(all),
        decreases rest@.len(),
    {
        let ghost before = rest@;
        let item = rest.remove(0);
        assert(rest@ == before.drop_first());
        assert(item == before[0]);
        match item.entry {
            Err(e) => {
                let message = String::from_str("Failed to deserialize extension config for ").concat(
                    item.name.as_str(),
                ).concat(": ").concat(e.as_str());
                assert(to_register(before) == Seq::<ExtensionConfig>::empty());
                assert(register@ + Seq::<ExtensionConfig>::empty() == register@);
                assert(read_failure(before) == Some(message@));
                return ExtensionPlan { register, failure: Some(message) };
            },
            Ok(e) => {
                if e.enabled {
                    let ghost reg_before = register@;
                    register.push(e.config);
                    assert(register@ + to_register(rest@) == reg_before + (seq![before[0].entry->Ok_0.config] + to_register(rest@)));
                }
            },
        }
    }
    assert(register@ + Seq::<ExtensionConfig>::empty() == register@);
    ExtensionPlan { register, failure: None }
}

} // verus!
