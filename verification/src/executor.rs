use vstd::prelude::*;

use crate::error::{AppError, ErrorModel};
use crate::manifest::commands_view;
use crate::registry::{first_named, CommandRegistry};
use crate::text::join3;

verus! {

/// The command that a name resolves to.
#[derive(Debug, PartialEq, Eq)]
pub enum Dispatch {
    Channels,
    Members,
    Read,
    Search,
    Send,
    Servers,
    Status,
    Switch,
    /// Registered, but with no implementation: the text says so.
    Planned(String),
}

pub enum DispatchModel {
    Channels,
    Members,
    Read,
    Search,
    Send,
    Servers,
    Status,
    Switch,
    Planned(Seq<char>),
}

impl View for Dispatch {
    type V = DispatchModel;

    open spec fn view(&self) -> DispatchModel {
        match self {
            Dispatch::Channels => DispatchModel::Channels,
            Dispatch::Members => DispatchModel::Members,
            Dispatch::Read => DispatchModel::Read,
            Dispatch::Search => DispatchModel::Search,
            Dispatch::Send => DispatchModel::Send,
            Dispatch::Servers => DispatchModel::Servers,
            Dispatch::Status => DispatchModel::Status,
            Dispatch::Switch => DispatchModel::Switch,
            Dispatch::Planned(m) => DispatchModel::Planned(m@),
        }
    }
}

/// The text for a registered command with no implementation.
pub open spec fn planned_message(name: Seq<char>) -> Seq<char> {
    "Command `"@ + name + "` is registered but not implemented yet"@
}

/// What the command named `name` runs.
pub open spec fn dispatch_of(name: Seq<char>) -> DispatchModel {
    if name == "channels"@ {
        DispatchModel::Channels
    } else if name == "members"@ {
        DispatchModel::Members
    } else if name == "read"@ {
        DispatchModel::Read
    } else if name == "search"@ {
        DispatchModel::Search
    } else if name == "send"@ {
        DispatchModel::Send
    } else if name == "servers"@ {
        DispatchModel::Servers
    } else if name == "status"@ {
        DispatchModel::Status
    } else if name == "switch"@ {
        DispatchModel::Switch
    } else {
        DispatchModel::Planned(planned_message(name))
    }
}

/// The error for a configuration without a CDP address.
pub open spec fn missing_cdp_url() -> ErrorModel {
    ErrorModel::InvalidParams("agent_browser.cdp_url is required"@)
}

/// Resolves command names to what they run.
pub struct CommandExecutor {
    registry: CommandRegistry,
}

impl CommandExecutor {
    pub closed spec fn registry(&self) -> CommandRegistry {
        self.registry
    }

    pub fn new(registry: CommandRegistry) -> (e: CommandExecutor)
        ensures
            e.registry() == registry,
    {
        CommandExecutor { registry }
    }

    /// What the command `command_name` runs, for a browser reached at
    /// `cdp_url`: an unregistered name is an error, then an empty address.
    pub fn execute(&self, command_name: &str, cdp_url: &str) -> (r: Result<Dispatch, AppError>)
        ensures
            ({
                let found = first_named(commands_view(self.registry().commands@), command_name@);
                match r {
                    Err(e) => if found is None {
                        e@ == ErrorModel::CommandNotFound(command_name@)
                    } else {
                        cdp_url@.len() == 0 && e@ == missing_cdp_url()
                    },
                    Ok(d) => found is Some && cdp_url@.len() > 0 && d@ == dispatch_of(command_name@),
                }
            }),
    {
        let command = match self.registry.get(command_name) {
            Some(c) => c,
            None => return Err(AppError::CommandNotFound(command_name.to_string())),
        };
        if cdp_url.is_empty() {
            return Err(AppError::InvalidParams("agent_browser.cdp_url is required".to_string()));
        }
        let name = command.name.to_string();
        proof {
            let cmds = commands_view(self.registry.commands@);
            let i: int = first_named(cmds, command_name@)->0;
            assert(cmds[i].name == command_name@);
        }
        let d = if name == "channels".to_string() {
            Dispatch::Channels
        } else if name == "members".to_string() {
            Dispatch::Members
        } else if name == "read".to_string() {
            Dispatch::Read
        } else if name == "search".to_string() {
            Dispatch::Search
        } else if name == "send".to_string() {
            Dispatch::Send
        } else if name == "servers".to_string() {
            Dispatch::Servers
        } else if name == "status".to_string() {
            Dispatch::Status
        } else if name == "switch".to_string() {
            Dispatch::Switch
        } else {
            Dispatch::Planned(join3("Command `", name.as_str(), "` is registered but not implemented yet"))
        };
        Ok(d)
    }
}

} // verus!
