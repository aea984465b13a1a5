//! The configuration snapshot that the gateway reads on every request.
use vstd::prelude::*;

verus! {

/// Where the HTTP listener binds.
#[derive(Debug)]
pub struct ServerConfig {
    pub bind: String,
    pub port: u16,
}

/// What a session backend is built from when a request names no model.
#[derive(Debug)]
pub struct AgentSettings {
    pub default_model: String,
    pub context_window: usize,
    pub reserve_tokens: usize,
}

/// Parameters of the memory store.
#[derive(Debug)]
pub struct MemoryConfig {
    pub workspace: String,
}

/// Immutable configuration, taken once at startup and only read afterwards.
#[derive(Debug)]
pub struct Config {
    pub server: ServerConfig,
    pub agent: AgentSettings,
    pub memory: MemoryConfig,
}

impl Clone for ServerConfig {
    fn clone(&self) -> (r: Self)
        ensures
            r == *self,
    {
        ServerConfig { bind: self.bind.clone(), port: self.port }
    }
}

impl Clone for AgentSettings {
    fn clone(&self) -> (r: Self)
        ensures
            r == *self,
    {
        AgentSettings {
            default_model: self.default_model.clone(),
            context_window: self.context_window,
            reserve_tokens: self.reserve_tokens,
        }
    }
}

impl Clone for MemoryConfig {
    fn clone(&self) -> (r: Self)
        ensures
            r == *self,
    {
        MemoryConfig { workspace: self.workspace.clone() }
    }
}

impl Clone for Config {
    fn clone(&self) -> (r: Self)
        ensures
            r == *self,
    {
        Config { server: self.server.clone(), agent: self.agent.clone(), memory: self.memory.clone() }
    }
}

} // verus!
