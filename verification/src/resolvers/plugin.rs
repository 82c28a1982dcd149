//! Plugin registry queries and lifecycle mutations.

use vstd::prelude::*;

use super::{after_session, answer, ControlCall, ResolverError};

verus! {

/// A plugin of the registry.
pub struct Plugin {
    pub id: String,
    pub name: String,
    pub version: String,
    pub kind: String,
    pub enabled: bool,
    pub installed_at: String,
    pub description: Option<String>,
}

impl Plugin {
    /// Every field empty, absent or false.
    pub open spec fn is_blank(&self) -> bool {
        &&& self.id@.len() == 0
        &&& self.name@.len() == 0
        &&& self.version@.len() == 0
        &&& self.kind@.len() == 0
        &&& !self.enabled
        &&& self.installed_at@.len() == 0
        &&& self.description is None
    }
}

impl Default for Plugin {
    fn default() -> (r: Plugin)
        ensures
            r.is_blank(),
    {
        Plugin {
            id: String::new(),
            name: String::new(),
            version: String::new(),
            kind: String::new(),
            enabled: false,
            installed_at: String::new(),
            description: None,
        }
    }
}

/// What `installPlugin` is asked to install.
pub struct InstallPluginInput {
    pub source: String,
    pub kind: Option<String>,
    pub version: Option<String>,
}

/// The `plugin` query.
pub struct PluginQuery;

impl PluginQuery {
    /// The `plugin.list` call for the plugins, optionally of one kind, once
    /// the control session is open; the daemon's answer is the list.
    pub fn plugin(&self, session: Result<(), ResolverError>, kind: Option<String>) -> (r: Result<
        ControlCall,
        ResolverError,
    >)
        ensures
            r == answer(session, (ControlCall::PluginList { kind })),
    {
        after_session(session, ControlCall::PluginList { kind })
    }
}

/// The `installPlugin` and `uninstallPlugin` mutations.
pub struct PluginMutation;

impl PluginMutation {
    /// The `plugin.install` call, once the control session is open; the
    /// daemon's answer is the installed plugin.
    pub fn install_plugin(&self, session: Result<(), ResolverError>, input: InstallPluginInput) -> (r: Result<
        ControlCall,
        ResolverError,
    >)
        ensures
            r == answer(session, (ControlCall::PluginInstall(input))),
    {
        after_session(session, ControlCall::PluginInstall(input))
    }

    /// The `plugin.uninstall` call for the plugin `id`, once the control
    /// session is open; the mutation answers `true` when the daemon acknowledges it.
    pub fn uninstall_plugin(&self, session: Result<(), ResolverError>, id: String) -> (r: Result<
        ControlCall,
        ResolverError,
    >)
        ensures
            r == answer(session, (ControlCall::PluginUninstall { id })),
    {
        after_session(session, ControlCall::PluginUninstall { id })
    }
}

} // verus!
