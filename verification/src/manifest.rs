use vstd::prelude::*;

use crate::text::{decimal, decimal_string, join2};

verus! {

/// A parameter that a command accepts.
pub struct ParamSpec {
    pub name: &'static str,
    /// The JSON type of the parameter (`"string"` or `"integer"`).
    pub kind: &'static str,
    pub required: bool,
    pub description: &'static str,
}

/// A command of the command-line tool and the HTTP API.
pub struct CommandSpec {
    pub name: &'static str,
    pub category: &'static str,
    pub wave: u8,
    pub execution_mode: &'static str,
    pub summary: &'static str,
    pub requires_auth: bool,
    pub params: Vec<ParamSpec>,
}

/// One MCP tool exposed by the service.
pub struct ToolSpec {
    pub name: &'static str,
    pub command: &'static str,
    pub read_only: bool,
    pub requires_auth: bool,
}

/// One step of a skill: the command it uses.
pub struct SkillStep {
    pub uses: &'static str,
}

/// A named sequence of commands.
pub struct SkillSpec {
    pub name: &'static str,
    pub summary: &'static str,
    pub requires_auth: bool,
    pub steps: Vec<SkillStep>,
}

pub struct SiteSpec {
    pub id: &'static str,
    pub name: &'static str,
    pub version: &'static str,
}

pub struct RuntimeSpec {
    pub binary: &'static str,
    pub config_path: String,
}

pub struct ServerDefaults {
    pub host: String,
    pub port: u16,
    pub base_url: String,
}

pub struct AuthModelSpec {
    pub mode: &'static str,
    pub cookie_name: &'static str,
    pub bearer_format: &'static str,
    pub first_run_requires_password_setup: bool,
}

pub struct AgentBrowserSpec {
    pub binding: &'static str,
    pub binary_auto_detect: bool,
    pub supports_cdp_url: bool,
    pub default_session_name: &'static str,
}

/// Everything the `describe` output says about the tool.
pub struct DescribeManifest {
    pub site: SiteSpec,
    pub runtime: RuntimeSpec,
    pub server_defaults: ServerDefaults,
    pub auth_model: AuthModelSpec,
    pub agent_browser: AgentBrowserSpec,
    pub commands: Vec<CommandSpec>,
    pub mcp_tools: Vec<ToolSpec>,
    pub skills: Vec<SkillSpec>,
}

// ---------------------------------------------------------------------------
// Models
// ---------------------------------------------------------------------------

pub struct ParamModel {
    pub name: Seq<char>,
    pub kind: Seq<char>,
    pub required: bool,
    pub description: Seq<char>,
}

pub struct CommandModel {
    pub name: Seq<char>,
    pub category: Seq<char>,
    pub wave: u8,
    pub execution_mode: Seq<char>,
    pub summary: Seq<char>,
    pub requires_auth: bool,
    pub params: Seq<ParamModel>,
}

pub struct ToolModel {
    pub name: Seq<char>,
    pub command: Seq<char>,
    pub read_only: bool,
    pub requires_auth: bool,
}

pub struct SkillModel {
    pub name: Seq<char>,
    pub summary: Seq<char>,
    pub requires_auth: bool,
    pub steps: Seq<Seq<char>>,
}

impl View for ParamSpec {
    type V = ParamModel;

    open spec fn view(&self) -> ParamModel {
        ParamModel {
            name: self.name@,
            kind: self.kind@,
            required: self.required,
            description: self.description@,
        }
    }
}

impl View for CommandSpec {
    type V = CommandModel;

    open spec fn view(&self) -> CommandModel {
        CommandModel {
            name: self.name@,
            category: self.category@,
            wave: self.wave,
            execution_mode: self.execution_mode@,
            summary: self.summary@,
            requires_auth: self.requires_auth,
            params: self.params@.map_values(|p: ParamSpec| p@),
        }
    }
}

impl View for ToolSpec {
    type V = ToolModel;

    open spec fn view(&self) -> ToolModel {
        ToolModel {
            name: self.name@,
            command: self.command@,
            read_only: self.read_only,
            requires_auth: self.requires_auth,
        }
    }
}

impl View for SkillSpec {
    type V = SkillModel;

    open spec fn view(&self) -> SkillModel {
        SkillModel {
            name: self.name@,
            summary: self.summary@,
            requires_auth: self.requires_auth,
            steps: self.steps@.map_values(|s: SkillStep| s.uses@),
        }
    }
}

/// The views of a list of commands.
pub open spec fn commands_view(v: Seq<CommandSpec>) -> Seq<CommandModel> {
    v.map_values(|c: CommandSpec| c@)
}

/// The views of a list of tools.
pub open spec fn tools_view(v: Seq<ToolSpec>) -> Seq<ToolModel> {
    v.map_values(|t: ToolSpec| t@)
}

/// The views of a list of skills.
pub open spec fn skills_view(v: Seq<SkillSpec>) -> Seq<SkillModel> {
    v.map_values(|s: SkillSpec| s@)
}

// ---------------------------------------------------------------------------
// The tables
// ---------------------------------------------------------------------------

pub open spec fn param(name: Seq<char>, kind: Seq<char>, required: bool, description: Seq<char>) -> ParamModel {
    ParamModel { name, kind, required, description }
}

/// Every command is of wave 1, runs "ui-first" and needs no authentication.
pub open spec fn command(name: Seq<char>, category: Seq<char>, summary: Seq<char>, params: Seq<ParamModel>) -> CommandModel {
    CommandModel {
        name,
        category,
        wave: 1,
        execution_mode: "ui-first"@,
        summary,
        requires_auth: false,
        params,
    }
}

/// The registered commands, in registration order.
pub open spec fn command_table() -> Seq<CommandModel> {
    seq![
        command("servers"@, "read"@, "List all Discord servers (guilds) in the sidebar"@, seq![]),
        command("channels"@, "read"@, "List channels in the current Discord server"@, seq![]),
        command("open"@, "write"@, "Navigate browser to a URL (default: https://discord.com)"@, seq![
            param("url"@, "string"@, true, "URL to navigate to"@),
        ]),
        command("members"@, "read"@, "List online members in the current channel"@, seq![]),
        command("read"@, "read"@, "Read recent messages from the active Discord channel"@, seq![
            param("server"@, "string"@, false, "Switch to this server before reading (partial match)"@),
            param("channel"@, "string"@, false, "Switch to this channel before reading (partial match)"@),
            param("count"@, "integer"@, false, "Number of messages to read (default: 20)"@),
        ]),
        command("search"@, "read"@, "Search messages in the current Discord server/channel"@, seq![
            param("server"@, "string"@, false, "Switch to this server before searching (partial match)"@),
            param("channel"@, "string"@, false, "Switch to this channel before searching (partial match)"@),
            param("query"@, "string"@, true, "Search query"@),
        ]),
        command("send"@, "write"@, "Send a message to the active Discord channel"@, seq![
            param("server"@, "string"@, false, "Switch to this server before sending (partial match)"@),
            param("channel"@, "string"@, false, "Switch to this channel before sending (partial match)"@),
            param("text"@, "string"@, true, "Message to send"@),
        ]),
        command("status"@, "read"@, "Check active CDP connection to Discord"@, seq![]),
        command("switch"@, "write"@, "Switch to a server and/or channel by name (partial, case-insensitive)"@, seq![
            param("server"@, "string"@, false, "Target server name (partial match). Omit to stay on current server."@),
            param("channel"@, "string"@, false, "Target channel name (partial match). Omit to skip channel switch."@),
        ]),
    ]
}

pub open spec fn tool(name: Seq<char>, command: Seq<char>, read_only: bool) -> ToolModel {
    ToolModel { name, command, read_only, requires_auth: false }
}

/// The MCP tools, in registration order.
pub open spec fn tool_table() -> Seq<ToolModel> {
    seq![
        tool("discord_servers"@, "servers"@, true),
        tool("discord_channels"@, "channels"@, true),
        tool("discord_members"@, "members"@, true),
        tool("discord_read"@, "read"@, true),
        tool("discord_search"@, "search"@, true),
        tool("discord_send"@, "send"@, false),
        tool("discord_open"@, "open"@, true),
        tool("discord_status"@, "status"@, true),
        tool("discord_switch"@, "switch"@, false),
    ]
}

pub open spec fn skill(name: Seq<char>, summary: Seq<char>, steps: Seq<Seq<char>>) -> SkillModel {
    SkillModel { name, summary, requires_auth: false, steps }
}

/// The skills, in registration order.
pub open spec fn skill_table() -> Seq<SkillModel> {
    seq![
        skill("list_workspace"@, "List servers, channels, and recent messages"@,
            seq!["servers"@, "channels"@, "read"@]),
        skill("search_conversation"@, "Search messages in the current channel"@, seq!["search"@]),
        skill("send_notification"@, "Send a message to the active channel"@, seq!["send"@]),
    ]
}

/// The version of this tool.
pub open spec fn tool_version() -> Seq<char> {
    "0.1.0"@
}

/// The base URL of the HTTP service: `http://{host}:{port}`.
pub open spec fn base_url(host: Seq<char>, port: u16) -> Seq<char> {
    "http://"@ + host + ":"@ + decimal(port as nat)
}

// ---------------------------------------------------------------------------
// Builders
// ---------------------------------------------------------------------------

fn param_spec(name: &'static str, kind: &'static str, required: bool, description: &'static str) -> (p: ParamSpec)
    ensures
        p@ == param(name@, kind@, required, description@),
{
    ParamSpec { name, kind, required, description }
}

fn command_spec(
    name: &'static str,
    category: &'static str,
    summary: &'static str,
    params: Vec<ParamSpec>,
) -> (c: CommandSpec)
    ensures
        c@ == command(name@, category@, summary@, params@.map_values(|p: ParamSpec| p@)),
{
    CommandSpec { name, category, wave: 1, execution_mode: "ui-first", summary, requires_auth: false, params }
}

/// The commands that the tool registers.
pub fn command_specs() -> (res: Vec<CommandSpec>)
    ensures
        commands_view(res@) == command_table(),
{
    let open_params = vec![param_spec("url", "string", true, "URL to navigate to")];
    let read_params = vec![
        param_spec("server", "string", false, "Switch to this server before reading (partial match)"),
        param_spec("channel", "string", false, "Switch to this channel before reading (partial match)"),
        param_spec("count", "integer", false, "Number of messages to read (default: 20)"),
    ];
    let search_params = vec![
        param_spec("server", "string", false, "Switch to this server before searching (partial match)"),
        param_spec("channel", "string", false, "Switch to this channel before searching (partial match)"),
        param_spec("query", "string", true, "Search query"),
    ];
    let send_params = vec![
        param_spec("server", "string", false, "Switch to this server before sending (partial match)"),
        param_spec("channel", "string", false, "Switch to this channel before sending (partial match)"),
        param_spec("text", "string", true, "Message to send"),
    ];
    let switch_params = vec![
        param_spec("server", "string", false, "Target server name (partial match). Omit to stay on current server."),
        param_spec("channel", "string", false, "Target channel name (partial match). Omit to skip channel switch."),
    ];
    assert(open_params@.map_values(|p: ParamSpec| p@) =~= command_table()[2].params);
    assert(read_params@.map_values(|p: ParamSpec| p@) =~= command_table()[4].params);
    assert(search_params@.map_values(|p: ParamSpec| p@) =~= command_table()[5].params);
    assert(send_params@.map_values(|p: ParamSpec| p@) =~= command_table()[6].params);
    assert(switch_params@.map_values(|p: ParamSpec| p@) =~= command_table()[8].params);
    let res = vec![
        command_spec("servers", "read", "List all Discord servers (guilds) in the sidebar", vec![]),
        command_spec("channels", "read", "List channels in the current Discord server", vec![]),
        command_spec("open", "write", "Navigate browser to a URL (default: https://discord.com)", open_params),
        command_spec("members", "read", "List online members in the current channel", vec![]),
        command_spec("read", "read", "Read recent messages from the active Discord channel", read_params),
        command_spec("search", "read", "Search messages in the current Discord server/channel", search_params),
        command_spec("send", "write", "Send a message to the active Discord channel", send_params),
        command_spec("status", "read", "Check active CDP connection to Discord", vec![]),
        command_spec("switch", "write", "Switch to a server and/or channel by name (partial, case-insensitive)", switch_params),
    ];
    assert(commands_view(res@) =~= command_table()) by {
        let empty: Seq<ParamModel> = seq![];
        assert(Seq::<ParamSpec>::empty().map_values(|p: ParamSpec| p@) =~= empty);
    }
    res
}

/// The MCP tools that the service exposes.
pub fn tool_specs() -> (res: Vec<ToolSpec>)
    ensures
        tools_view(res@) == tool_table(),
{
    let res = vec![
        ToolSpec { name: "discord_servers", command: "servers", read_only: true, requires_auth: false },
        ToolSpec { name: "discord_channels", command: "channels", read_only: true, requires_auth: false },
        ToolSpec { name: "discord_members", command: "members", read_only: true, requires_auth: false },
        ToolSpec { name: "discord_read", command: "read", read_only: true, requires_auth: false },
        ToolSpec { name: "discord_search", command: "search", read_only: true, requires_auth: false },
        ToolSpec { name: "discord_send", command: "send", read_only: false, requires_auth: false },
        ToolSpec { name: "discord_open", command: "open", read_only: true, requires_auth: false },
        ToolSpec { name: "discord_status", command: "status", read_only: true, requires_auth: false },
        ToolSpec { name: "discord_switch", command: "switch", read_only: false, requires_auth: false },
    ];
    assert(tools_view(res@) =~= tool_table());
    res
}

/// The skills that the service offers.
pub fn skill_specs() -> (res: Vec<SkillSpec>)
    ensures
        skills_view(res@) == skill_table(),
{
    let workspace_steps = vec![SkillStep { uses: "servers" }, SkillStep { uses: "channels" }, SkillStep { uses: "read" }];
    let search_steps = vec![SkillStep { uses: "search" }];
    let send_steps = vec![SkillStep { uses: "send" }];
    assert(workspace_steps@.map_values(|s: SkillStep| s.uses@) =~= skill_table()[0].steps);
    assert(search_steps@.map_values(|s: SkillStep| s.uses@) =~= skill_table()[1].steps);
    assert(send_steps@.map_values(|s: SkillStep| s.uses@) =~= skill_table()[2].steps);
    let res = vec![
        SkillSpec {
            name: "list_workspace",
            summary: "List servers, channels, and recent messages",
            requires_auth: false,
            steps: workspace_steps,
        },
        SkillSpec {
            name: "search_conversation",
            summary: "Search messages in the current channel",
            requires_auth: false,
            steps: search_steps,
        },
        SkillSpec {
            name: "send_notification",
            summary: "Send a message to the active channel",
            requires_auth: false,
            steps: send_steps,
        },
    ];
    assert(skills_view(res@) =~= skill_table());
    res
}

/// Builds the manifest that `describe` prints, for a service configured by
/// the file at `config_path` and listening on `host:port`.
pub fn build_manifest(config_path: String, host: String, port: u16) -> (m: DescribeManifest)
    ensures
        m.site.id@ == "discord"@,
        m.site.name@ == "Discord CLI"@,
        m.site.version@ == tool_version(),
        m.runtime.binary@ == "discord-cli"@,
        m.runtime.config_path@ == config_path@,
        m.server_defaults.host@ == host@,
        m.server_defaults.port == port,
        m.server_defaults.base_url@ == base_url(host@, port),
        m.auth_model.mode@ == "shared-password"@,
        m.auth_model.cookie_name@ == "discord_cli_token"@,
        m.auth_model.bearer_format@ == "Authorization: Bearer <password>"@,
        m.auth_model.first_run_requires_password_setup,
        m.agent_browser.binding@ == "cli"@,
        m.agent_browser.binary_auto_detect,
        m.agent_browser.supports_cdp_url,
        m.agent_browser.default_session_name@ == "discord-cli"@,
        commands_view(m.commands@) == command_table(),
        tools_view(m.mcp_tools@) == tool_table(),
        skills_view(m.skills@) == skill_table(),
{
    let mut base = join2("http://", host.as_str());
    base.append(":");
    let port_text = decimal_string(port as u64);
    base.append(port_text.as_str());
    DescribeManifest {
        site: SiteSpec { id: "discord", name: "Discord CLI", version: "0.1.0" },
        runtime: RuntimeSpec { binary: "discord-cli", config_path },
        server_defaults: ServerDefaults { base_url: base, host, port },
        auth_model: AuthModelSpec {
            mode: "shared-password",
            cookie_name: "discord_cli_token",
            bearer_format: "Authorization: Bearer <password>",
            first_run_requires_password_setup: true,
        },
        agent_browser: AgentBrowserSpec {
            binding: "cli",
            binary_auto_detect: true,
            supports_cdp_url: true,
            default_session_name: "discord-cli",
        },
        commands: command_specs(),
        mcp_tools: tool_specs(),
        skills: skill_specs(),
    }
}


// ---------------------------------------------------------------------------
// Laws of the manifest
// ---------------------------------------------------------------------------

/// Does some registered command carry the name `name`?
pub open spec fn is_registered_command(name: Seq<char>) -> bool {
    exists|j: int| 0 <= j < command_table().len() && #[trigger] command_table()[j].name == name
}

/// No two registered commands share a name.
pub proof fn lemma_command_names_distinct()
    ensures
        forall|i: int, j: int|
            0 <= i < j < command_table().len() ==> #[trigger] command_table()[i].name
                != #[trigger] command_table()[j].name,
{
    reveal_strlit("servers");
    reveal_strlit("channels");
    reveal_strlit("open");
    reveal_strlit("members");
    reveal_strlit("read");
    reveal_strlit("search");
    reveal_strlit("send");
    reveal_strlit("status");
    reveal_strlit("switch");
    let c = command_table();
    assert(c[0].name.len() == 7 && c[0].name[0] == 's' && c[0].name[1] == 'e');
    assert(c[1].name.len() == 8);
    assert(c[2].name.len() == 4 && c[2].name[0] == 'o');
    assert(c[3].name.len() == 7 && c[3].name[0] == 'm');
    assert(c[4].name.len() == 4 && c[4].name[0] == 'r');
    assert(c[5].name.len() == 6 && c[5].name[0] == 's' && c[5].name[1] == 'e');
    assert(c[6].name.len() == 4 && c[6].name[0] == 's');
    assert(c[7].name.len() == 6 && c[7].name[0] == 's' && c[7].name[1] == 't');
    assert(c[8].name.len() == 6 && c[8].name[0] == 's' && c[8].name[1] == 'w');
    assert forall|i: int, j: int| 0 <= i < j < c.len() implies c[i].name != c[j].name by {
        if c[i].name == c[j].name {
            assert(c[i].name.len() == c[j].name.len());
            assert(c[i].name[0] == c[j].name[0]);
            assert(c[i].name[1] == c[j].name[1]);
        }
    }
}

/// No two MCP tools share a name.
pub proof fn lemma_tool_names_distinct()
    ensures
        forall|i: int, j: int|
            0 <= i < j < tool_table().len() ==> #[trigger] tool_table()[i].name
                != #[trigger] tool_table()[j].name,
{
    reveal_strlit("discord_servers");
    reveal_strlit("discord_channels");
    reveal_strlit("discord_members");
    reveal_strlit("discord_read");
    reveal_strlit("discord_search");
    reveal_strlit("discord_send");
    reveal_strlit("discord_open");
    reveal_strlit("discord_status");
    reveal_strlit("discord_switch");
    let t = tool_table();
    // discord_ + servers/channels/members/read/search/send/open/status/switch
    assert(t[0].name.len() == 15 && t[0].name[8] == 's' && t[0].name[9] == 'e');
    assert(t[1].name.len() == 16);
    assert(t[2].name.len() == 15 && t[2].name[8] == 'm');
    assert(t[3].name.len() == 12 && t[3].name[8] == 'r');
    assert(t[4].name.len() == 14 && t[4].name[8] == 's' && t[4].name[9] == 'e');
    assert(t[5].name.len() == 12 && t[5].name[8] == 's');
    assert(t[6].name.len() == 12 && t[6].name[8] == 'o');
    assert(t[7].name.len() == 14 && t[7].name[8] == 's' && t[7].name[9] == 't');
    assert(t[8].name.len() == 14 && t[8].name[8] == 's' && t[8].name[9] == 'w');
    assert forall|i: int, j: int| 0 <= i < j < t.len() implies t[i].name != t[j].name by {
        if t[i].name == t[j].name {
            assert(t[i].name.len() == t[j].name.len());
            assert(t[i].name[8] == t[j].name[8]);
            assert(t[i].name[9] == t[j].name[9]);
        }
    }
}

/// Every MCP tool runs a registered command, and is named after it with
/// the prefix `discord_`.
pub proof fn lemma_tools_run_registered_commands()
    ensures
        forall|i: int|
            0 <= i < tool_table().len() ==> is_registered_command(#[trigger] tool_table()[i].command)
                && tool_table()[i].name == "discord_"@ + tool_table()[i].command,
{
    reveal_strlit("servers");
    reveal_strlit("channels");
    reveal_strlit("open");
    reveal_strlit("members");
    reveal_strlit("read");
    reveal_strlit("search");
    reveal_strlit("send");
    reveal_strlit("status");
    reveal_strlit("switch");
    reveal_strlit("discord_");
    reveal_strlit("discord_servers");
    reveal_strlit("discord_channels");
    reveal_strlit("discord_members");
    reveal_strlit("discord_read");
    reveal_strlit("discord_search");
    reveal_strlit("discord_send");
    reveal_strlit("discord_open");
    reveal_strlit("discord_status");
    reveal_strlit("discord_switch");
    let c = command_table();
    let t = tool_table();
    assert(c[0].name == t[0].command);
    assert(c[1].name == t[1].command);
    assert(c[3].name == t[2].command);
    assert(c[4].name == t[3].command);
    assert(c[5].name == t[4].command);
    assert(c[6].name == t[5].command);
    assert(c[2].name == t[6].command);
    assert(c[7].name == t[7].command);
    assert(c[8].name == t[8].command);
    assert(t[0].name =~= "discord_"@ + t[0].command);
    assert(t[1].name =~= "discord_"@ + t[1].command);
    assert(t[2].name =~= "discord_"@ + t[2].command);
    assert(t[3].name =~= "discord_"@ + t[3].command);
    assert(t[4].name =~= "discord_"@ + t[4].command);
    assert(t[5].name =~= "discord_"@ + t[5].command);
    assert(t[6].name =~= "discord_"@ + t[6].command);
    assert(t[7].name =~= "discord_"@ + t[7].command);
    assert(t[8].name =~= "discord_"@ + t[8].command);
}

/// Every step of every skill uses a registered command.
pub proof fn lemma_skills_use_registered_commands()
    ensures
        forall|i: int, k: int|
            0 <= i < skill_table().len() && 0 <= k < skill_table()[i].steps.len()
                ==> is_registered_command(#[trigger] skill_table()[i].steps[k]),
{
    let c = command_table();
    let s = skill_table();
    assert(c[0].name == s[0].steps[0]);
    assert(c[1].name == s[0].steps[1]);
    assert(c[4].name == s[0].steps[2]);
    assert(c[5].name == s[1].steps[0]);
    assert(c[6].name == s[2].steps[0]);
}

/// `read`, `search` and `send` take the optional `server` and `channel`
/// parameters, in that order, ahead of their own.
pub proof fn lemma_switching_commands_take_server_and_channel()
    ensures
        forall|i: int|
            (i == 4 || i == 5 || i == 6) ==> {
                let p = #[trigger] command_table()[i].params;
                &&& p.len() == 3
                &&& p[0].name == "server"@ && !p[0].required
                &&& p[1].name == "channel"@ && !p[1].required
            },
        command_table()[4].name == "read"@,
        command_table()[5].name == "search"@,
        command_table()[6].name == "send"@,
{
}

} // verus!
