//! The server plugin: the bundle a game application registers at
//! startup to stand up the server side of the stack.
//!
//! The plugin only carries its configuration and the application's
//! protocol value until the registration step consumes them, exactly
//! once; the scheduling framework that drives registration is outside
//! this library.

use vstd::prelude::*;
use crate::config::ServerConfig;

verus! {

/// What a server plugin is built from: the server configuration and
/// the application's protocol value.
pub struct PluginConfig<P> {
    pub server_config: ServerConfig,
    pub protocol: P,
}

impl<P> PluginConfig<P> {
    /// Bundle a configuration with a protocol.
    pub fn new(server_config: ServerConfig, protocol: P) -> (r: Self)
        ensures
            r.server_config == server_config,
            r.protocol == protocol,
    {
        PluginConfig { server_config, protocol }
    }

    /// Decompose into the parts the registration step consumes.
    pub fn parts(self) -> (r: (ServerConfig, P))
        ensures
            r.0 == self.server_config,
            r.1 == self.protocol,
    {
        (self.server_config, self.protocol)
    }
}

/// The server plugin. It holds its configuration until registration
/// takes it; a second take finds nothing.
pub struct ServerPlugin<P> {
    config: Option<PluginConfig<P>>,
}

impl<P> ServerPlugin<P> {
    /// A plugin that still holds its configuration.
    pub fn new(config: PluginConfig<P>) -> (r: Self)
        ensures
            r.config_spec() == Some(config),
            r.holds_config(),
    {
        ServerPlugin { config: Some(config) }
    }

    /// Whether the configuration has not been taken yet.
    pub closed spec fn holds_config(&self) -> bool {
        self.config is Some
    }

    /// Hand the configuration to the registration step, exactly once:
    /// every later call returns nothing.
    pub fn take_config(&mut self) -> (r: Option<PluginConfig<P>>)
        ensures
            r == old(self).config_spec(),
            !final(self).holds_config(),
            old(self).holds_config() <==> r is Some,
    {
        self.config.take()
    }

    /// The configuration still held, if any.
    pub closed spec fn config_spec(&self) -> Option<PluginConfig<P>> {
        self.config
    }
}

} // verus!
