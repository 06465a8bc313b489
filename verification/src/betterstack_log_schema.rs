//! The enriched log record and its canonical JSON wire form.

use vstd::prelude::*;
use vstd::string::StringExecFns;

use crate::env_config::EnvConfig;
use crate::env_config::EnvEnum;
use crate::env_config::env_label;
use crate::env_config::env_wire_label;
use crate::json_text::append_json_quoted;
use crate::json_text::json_quoted;
use crate::log_level::LogLevel;
use crate::log_level::level_label;
use crate::log_level::level_wire_label;

verus! {

/// A log event enriched with the ambient configuration: what actually
/// travels to the collection endpoint.
#[derive(Debug)]
pub struct BetterStackLogSchema {
    pub env: EnvEnum,
    pub message: String,
    pub context: String,
    pub level: LogLevel,
    pub app_version: String,
}

impl BetterStackLogSchema {
    /// Builds an enriched record: message and context as given,
    /// environment and application version from the configuration.
    pub fn new(env_config: &EnvConfig, level: LogLevel, message: String, context: String) -> (r:
        Self)
        ensures
            r.env == env_config.environment,
            r.message == message,
            r.context == context,
            r.level == level,
            r.app_version == env_config.app_version,
    {
        BetterStackLogSchema {
            env: env_config.environment,
            message,
            context,
            level,
            app_version: env_config.app_version.clone(),
        }
    }

    /// The canonical wire form: a flat JSON object with exactly the
    /// five keys `env`, `message`, `context`, `level` and
    /// `app_version`, in that order, enums rendered as their
    /// capitalized variant names.
    pub open spec fn wire_json(self) -> Seq<char> {
        "{\"env\":"@ + json_quoted(env_wire_label(self.env)) + ",\"message\":"@ + json_quoted(
            self.message@,
        ) + ",\"context\":"@ + json_quoted(self.context@) + ",\"level\":"@ + json_quoted(
            level_wire_label(self.level),
        ) + ",\"app_version\":"@ + json_quoted(self.app_version@) + "}"@
    }

    /// Renders the canonical string form of this record, equal to its
    /// JSON serialization.
    pub fn to_json_string(&self) -> (r: String)
        ensures
            r@ == self.wire_json(),
    {
        let mut out = String::new();
        out.append("{\"env\":");
        append_json_quoted(&mut out, env_label(self.env));
        out.append(",\"message\":");
        append_json_quoted(&mut out, self.message.as_str());
        out.append(",\"context\":");
        append_json_quoted(&mut out, self.context.as_str());
        out.append(",\"level\":");
        append_json_quoted(&mut out, level_label(self.level));
        out.append(",\"app_version\":");
        append_json_quoted(&mut out, self.app_version.as_str());
        out.append("}");
        proof {
            assert(out@ =~= self.wire_json());
        }
        out
    }
}

} // verus!
