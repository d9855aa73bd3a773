//! Agent configuration.

use vstd::prelude::*;

verus! {

/// Configuration of the agent.
#[derive(Debug, Clone, PartialEq, Eq)]
pub struct AgentConfig {
    /// Maximum number of concurrent operations.
    pub max_concurrent_operations: usize,
    /// Rate-limit buffer, in requests per second.
    pub rate_limit_buffer: u64,
    /// Cache size in megabytes.
    pub cache_size_mb: usize,
    /// Path to the suggestion models.
    pub ai_model_path: String,
    /// Session timeout in seconds.
    pub session_timeout: u64,
    /// Whether telemetry is collected.
    pub telemetry_enabled: bool,
}

impl Default for AgentConfig {
    fn default() -> (r: AgentConfig)
        ensures
            r.max_concurrent_operations == 100,
            r.rate_limit_buffer == 10,
            r.cache_size_mb == 256,
            r.ai_model_path@ == "models/github-agent-v2"@,
            r.session_timeout == 1800,
            r.telemetry_enabled,
    {
        AgentConfig {
            max_concurrent_operations: 100,
            rate_limit_buffer: 10,
            cache_size_mb: 256,
            ai_model_path: "models/github-agent-v2".to_owned(),
            session_timeout: 1800,
            telemetry_enabled: true,
        }
    }
}

} // verus!
