use goose_api::extension::{
    add_extension_handler, after_node_install, extension_kind, to_extension_config,
    AddExtensionStep, ExtensionConfig, ExtensionConfigRequest, ExtensionKind, NodeInstall,
};

fn stdio(cmd: &str) -> ExtensionConfigRequest {
    ExtensionConfigRequest::Stdio {
        name: "tool".to_string(),
        cmd: cmd.to_string(),
        args: vec!["-y".to_string(), "pkg".to_string()],
        envs: vec![("K".to_string(), "V".to_string())],
        env_keys: vec!["TOKEN".to_string()],
        timeout: Some(30),
    }
}

#[test]
fn known_tags_are_read() {
    assert_eq!(extension_kind("sse"), Some(ExtensionKind::Sse));
    assert_eq!(extension_kind("stdio"), Some(ExtensionKind::Stdio));
    assert_eq!(extension_kind("builtin"), Some(ExtensionKind::Builtin));
    assert_eq!(extension_kind("frontend"), Some(ExtensionKind::Frontend));
}

#[test]
fn unknown_tags_are_refused() {
    assert_eq!(extension_kind("Stdio"), None);
    assert_eq!(extension_kind("http"), None);
    assert_eq!(extension_kind(""), None);
    assert_eq!(extension_kind("sse "), None);
}

#[test]
fn conversion_keeps_fields_and_clears_extras() {
    match to_extension_config(stdio("uvx")) {
        ExtensionConfig::Stdio { name, cmd, args, envs, env_keys, timeout, description, bundled } => {
            assert_eq!(name, "tool");
            assert_eq!(cmd, "uvx");
            assert_eq!(args, vec!["-y".to_string(), "pkg".to_string()]);
            assert_eq!(envs, vec![("K".to_string(), "V".to_string())]);
            assert_eq!(env_keys, vec!["TOKEN".to_string()]);
            assert_eq!(timeout, Some(30));
            assert!(description.is_none());
            assert!(bundled.is_none());
        }
        _ => panic!("expected a stdio configuration"),
    }
    let req = ExtensionConfigRequest::Builtin {
        name: "developer".to_string(),
        display_name: Some("Developer".to_string()),
        timeout: None,
    };
    match to_extension_config(req) {
        ExtensionConfig::Builtin { name, display_name, timeout, bundled } => {
            assert_eq!(name, "developer");
            assert_eq!(display_name.as_deref(), Some("Developer"));
            assert!(timeout.is_none());
            assert!(bundled.is_none());
        }
        _ => panic!("expected a builtin configuration"),
    }
    let req = ExtensionConfigRequest::Frontend {
        name: "ui".to_string(),
        tools: vec![serde_json::Value::String("t".to_string())],
        instructions: None,
    };
    match to_extension_config(req) {
        ExtensionConfig::Frontend { name, tools, instructions, bundled } => {
            assert_eq!(name, "ui");
            assert_eq!(tools.len(), 1);
            assert!(instructions.is_none());
            assert!(bundled.is_none());
        }
        _ => panic!("expected a frontend configuration"),
    }
    let req = ExtensionConfigRequest::Sse {
        name: "remote".to_string(),
        uri: "http://localhost:9000/sse".to_string(),
        envs: vec![],
        env_keys: vec![],
        timeout: Some(5),
    };
    assert_eq!(req.kind(), ExtensionKind::Sse);
    match to_extension_config(req) {
        ExtensionConfig::Sse { name, uri, description, timeout, bundled, .. } => {
            assert_eq!(name, "remote");
            assert_eq!(uri, "http://localhost:9000/sse");
            assert!(description.is_none());
            assert_eq!(timeout, Some(5));
            assert!(bundled.is_none());
        }
        _ => panic!("expected an sse configuration"),
    }
}

#[test]
fn npx_without_node_on_windows_installs_first() {
    for cmd in ["C:\\tools\\npx", "C:\\tools\\npx.cmd"] {
        match add_extension_handler(stdio(cmd), true, false) {
            AddExtensionStep::InstallNode { cmd: c, req } => {
                assert_eq!(c, cmd);
                assert_eq!(req.kind(), ExtensionKind::Stdio);
            }
            AddExtensionStep::Register(_) => panic!("expected the install step"),
        }
    }
}

#[test]
fn other_requests_register_directly() {
    let cases = [
        (stdio("C:\\tools\\npx"), false, false),
        (stdio("C:\\tools\\npx"), true, true),
        (stdio("C:\\tools\\npx.exe"), true, false),
        (stdio("uvx"), true, false),
    ];
    for (req, windows, node_present) in cases {
        match add_extension_handler(req, windows, node_present) {
            AddExtensionStep::Register(ExtensionConfig::Stdio { name, .. }) => assert_eq!(name, "tool"),
            _ => panic!("expected direct registration"),
        }
    }
}

#[test]
fn node_install_outcomes() {
    match after_node_install(stdio("npx"), NodeInstall::Installed) {
        Ok(ExtensionConfig::Stdio { cmd, .. }) => assert_eq!(cmd, "npx"),
        _ => panic!("expected registration after install"),
    }
    match after_node_install(stdio("npx"), NodeInstall::ScriptMissing) {
        Err(r) => {
            assert!(r.error);
            assert_eq!(r.message.as_deref(), Some("Node.js installer script not found"));
        }
        Ok(_) => panic!("expected a refusal"),
    }
    match after_node_install(stdio("npx"), NodeInstall::Failed("exit 1".to_string())) {
        Err(r) => {
            assert!(r.error);
            assert_eq!(r.message.as_deref(), Some("Failed to install Node.js: exit 1"));
        }
        Ok(_) => panic!("expected a refusal"),
    }
}

use goose_api::extension::{parse_extension_request, ExtensionFields, RequiredField, SchemaError};

fn fields(tag: Option<&str>) -> ExtensionFields {
    ExtensionFields {
        tag: tag.map(|t| t.to_string()),
        name: Some("ext".to_string()),
        uri: None,
        cmd: None,
        args: None,
        envs: None,
        env_keys: None,
        timeout: None,
        display_name: None,
        tools: None,
        instructions: None,
    }
}

#[test]
fn body_without_known_tag_is_refused() {
    assert_eq!(parse_extension_request(fields(None)).err(), Some(SchemaError::MissingType));
    assert_eq!(parse_extension_request(fields(Some("http"))).err(), Some(SchemaError::UnknownType));
    assert_eq!(parse_extension_request(fields(Some("SSE"))).err(), Some(SchemaError::UnknownType));
    assert_eq!(parse_extension_request(fields(Some(""))).err(), Some(SchemaError::UnknownType));
}

#[test]
fn body_without_required_field_is_refused() {
    assert_eq!(
        parse_extension_request(fields(Some("sse"))).err(),
        Some(SchemaError::MissingField(RequiredField::Uri))
    );
    assert_eq!(
        parse_extension_request(fields(Some("stdio"))).err(),
        Some(SchemaError::MissingField(RequiredField::Cmd))
    );
    assert_eq!(
        parse_extension_request(fields(Some("frontend"))).err(),
        Some(SchemaError::MissingField(RequiredField::Tools))
    );
    let mut f = fields(Some("builtin"));
    f.name = None;
    assert_eq!(parse_extension_request(f).err(), Some(SchemaError::MissingField(RequiredField::Name)));
}

#[test]
fn complete_bodies_are_read() {
    match parse_extension_request(fields(Some("builtin"))) {
        Ok(ExtensionConfigRequest::Builtin { name, display_name, timeout }) => {
            assert_eq!(name, "ext");
            assert!(display_name.is_none());
            assert!(timeout.is_none());
        }
        _ => panic!("expected a builtin request"),
    }
    let mut f = fields(Some("stdio"));
    f.cmd = Some("npx".to_string());
    f.timeout = Some(10);
    match parse_extension_request(f) {
        Ok(ExtensionConfigRequest::Stdio { name, cmd, args, envs, env_keys, timeout }) => {
            assert_eq!(name, "ext");
            assert_eq!(cmd, "npx");
            assert!(args.is_empty() && envs.is_empty() && env_keys.is_empty());
            assert_eq!(timeout, Some(10));
        }
        _ => panic!("expected a stdio request"),
    }
    let mut f = fields(Some("sse"));
    f.uri = Some("http://h/sse".to_string());
    f.env_keys = Some(vec!["K".to_string()]);
    match parse_extension_request(f) {
        Ok(ExtensionConfigRequest::Sse { uri, env_keys, .. }) => {
            assert_eq!(uri, "http://h/sse");
            assert_eq!(env_keys, vec!["K".to_string()]);
        }
        _ => panic!("expected an sse request"),
    }
    let mut f = fields(Some("frontend"));
    f.tools = Some(vec![]);
    f.instructions = Some("use them".to_string());
    match parse_extension_request(f) {
        Ok(ExtensionConfigRequest::Frontend { tools, instructions, .. }) => {
            assert!(tools.is_empty());
            assert_eq!(instructions.as_deref(), Some("use them"));
        }
        _ => panic!("expected a frontend request"),
    }
}
