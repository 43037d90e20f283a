use discord_cli::manifest::{build_manifest, command_specs, skill_specs, tool_specs};

#[test]
fn all_seven_commands_registered() {
    let commands = command_specs();
    assert_eq!(commands.len(), 9);
    let names: Vec<&str> = commands.iter().map(|c| c.name).collect();
    assert!(names.contains(&"servers"));
    assert!(names.contains(&"channels"));
    assert!(names.contains(&"members"));
    assert!(names.contains(&"read"));
    assert!(names.contains(&"search"));
    assert!(names.contains(&"send"));
    assert!(names.contains(&"status"));
    assert!(names.contains(&"switch"));
}

#[test]
fn all_seven_tools_registered() {
    let tools = tool_specs();
    assert_eq!(tools.len(), 9);
    assert!(tools.iter().any(|t| t.name == "discord_servers"));
    assert!(tools.iter().any(|t| t.name == "discord_send"));
    assert!(tools.iter().any(|t| t.name == "discord_switch"));
}

#[test]
fn all_three_skills_registered() {
    let skills = skill_specs();
    assert_eq!(skills.len(), 3);
    assert!(skills.iter().any(|s| s.name == "list_workspace"));
    assert!(skills.iter().any(|s| s.name == "search_conversation"));
    assert!(skills.iter().any(|s| s.name == "send_notification"));
}

#[test]
fn manifest_base_url_joins_host_and_port() {
    let m = build_manifest("/home/u/.config/discord-cli/config.toml".to_string(), "0.0.0.0".to_string(), 12235);
    assert_eq!(m.server_defaults.base_url, "http://0.0.0.0:12235");
    assert_eq!(m.server_defaults.host, "0.0.0.0");
    assert_eq!(m.server_defaults.port, 12235);
    assert_eq!(m.runtime.config_path, "/home/u/.config/discord-cli/config.toml");
    assert_eq!(m.runtime.binary, "discord-cli");
    assert_eq!(m.site.id, "discord");
    assert_eq!(m.site.version, "0.1.0");
    assert_eq!(m.auth_model.cookie_name, "discord_cli_token");
    assert_eq!(m.agent_browser.default_session_name, "discord-cli");
    assert_eq!(m.commands.len(), 9);
    assert_eq!(m.mcp_tools.len(), 9);
    assert_eq!(m.skills.len(), 3);
}

#[test]
fn manifest_base_url_edge_ports() {
    let m = build_manifest(String::new(), "localhost".to_string(), 0);
    assert_eq!(m.server_defaults.base_url, "http://localhost:0");
    let m = build_manifest(String::new(), "h".to_string(), 65535);
    assert_eq!(m.server_defaults.base_url, "http://h:65535");
    let m = build_manifest(String::new(), "h".to_string(), 80);
    assert_eq!(m.server_defaults.base_url, "http://h:80");
}

#[test]
fn tools_are_named_after_registered_commands() {
    let commands = command_specs();
    for t in tool_specs() {
        assert!(commands.iter().any(|c| c.name == t.command));
        assert_eq!(t.name, format!("discord_{}", t.command));
    }
}

#[test]
fn skills_use_registered_commands() {
    let commands = command_specs();
    for s in skill_specs() {
        for step in &s.steps {
            assert!(commands.iter().any(|c| c.name == step.uses));
        }
    }
    let first = &skill_specs()[0];
    let uses: Vec<&str> = first.steps.iter().map(|s| s.uses).collect();
    assert_eq!(uses, vec!["servers", "channels", "read"]);
}

#[test]
fn command_names_are_distinct() {
    let commands = command_specs();
    for (i, a) in commands.iter().enumerate() {
        for b in commands.iter().skip(i + 1) {
            assert_ne!(a.name, b.name);
        }
    }
    let tools = tool_specs();
    for (i, a) in tools.iter().enumerate() {
        for b in tools.iter().skip(i + 1) {
            assert_ne!(a.name, b.name);
        }
    }
}

#[test]
fn switching_commands_take_server_and_channel() {
    for c in command_specs() {
        if c.name == "read" || c.name == "search" || c.name == "send" {
            assert_eq!(c.params.len(), 3);
            assert_eq!(c.params[0].name, "server");
            assert!(!c.params[0].required);
            assert_eq!(c.params[1].name, "channel");
            assert!(!c.params[1].required);
        }
    }
    let read = command_specs().into_iter().find(|c| c.name == "read").unwrap();
    assert_eq!(read.params[2].name, "count");
    assert_eq!(read.params[2].kind, "integer");
    assert_eq!(read.params[2].description, "Number of messages to read (default: 20)");
    let open = command_specs().into_iter().find(|c| c.name == "open").unwrap();
    assert_eq!(open.category, "write");
    assert!(open.params[0].required);
}

#[test]
fn tool_read_only_flags() {
    let tools = tool_specs();
    let send = tools.iter().find(|t| t.name == "discord_send").unwrap();
    assert!(!send.read_only);
    let open = tools.iter().find(|t| t.name == "discord_open").unwrap();
    assert!(open.read_only);
    assert!(tools.iter().all(|t| !t.requires_auth));
}
