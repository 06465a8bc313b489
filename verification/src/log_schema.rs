//! The caller-facing log record: a message and its context.

use vstd::prelude::*;

use crate::betterstack_log_schema::BetterStackLogSchema;
use crate::env_config::EnvConfig;
use crate::log_level::LogLevel;

verus! {

/// A log event as the caller hands it in: a message and a free-form
/// context string.
#[derive(Debug)]
pub struct LogSchema {
    pub message: String,
    pub context: String,
}

impl LogSchema {
    /// Enriches this record with the ambient configuration and the
    /// requested level, ready for delivery. Message and context are
    /// carried over unchanged; environment and application version come
    /// from the configuration.
    pub fn to_betterstack(&self, env_config: &EnvConfig, level: LogLevel) -> (r:
        BetterStackLogSchema)
        ensures
            r.env == env_config.environment,
            r.message == self.message,
            r.context == self.context,
            r.level == level,
            r.app_version == env_config.app_version,
    {
        BetterStackLogSchema::new(env_config, level, self.message.clone(), self.context.clone())
    }
}

} // verus!
