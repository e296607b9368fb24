use vstd::prelude::*;

pub mod agent;
pub mod chat;
pub mod command;
pub mod config;
pub mod editor;
pub mod errors;
pub mod json;
pub mod message;
pub mod history;
pub mod menu;
pub mod model;
pub mod present;
pub mod render;
pub mod settings;
pub mod strutil;
pub mod tools;

verus! {

/// The configuration files the application keeps under its configuration
/// directory.
pub enum ConfigFile {
    Settings,
    MCPServers,
}

impl ConfigFile {
    /// The file name each configuration file is stored under.
    pub fn file_name(&self) -> (r: &'static str)
        ensures
            self is Settings ==> r@ == "settings.json"@,
            self is MCPServers ==> r@ == "mcp_servers.json"@,
    {
        match self {
            ConfigFile::Settings => "settings.json",
            ConfigFile::MCPServers => "mcp_servers.json",
        }
    }
}

} // verus!
