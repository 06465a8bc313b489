//! Deployment environments and the configuration a logger runs with.

use vstd::prelude::*;
use vstd::string::StringExecFns;

verus! {

/// The deployment environment a log event originates from. `Local` is
/// special: log events are never delivered over the network from it.
#[derive(Clone, Copy, PartialEq, Eq, Structural, Debug)]
pub enum EnvEnum {
    Local,
    QA,
    PreProd,
    Prod,
}

/// The capitalized variant name used on the wire.
pub open spec fn env_wire_label(env: EnvEnum) -> Seq<char> {
    match env {
        EnvEnum::Local => "Local"@,
        EnvEnum::QA => "QA"@,
        EnvEnum::PreProd => "PreProd"@,
        EnvEnum::Prod => "Prod"@,
    }
}

/// The capitalized wire label of an environment.
pub fn env_label(env: EnvEnum) -> (r: &'static str)
    ensures
        r@ == env_wire_label(env),
{
    match env {
        EnvEnum::Local => "Local",
        EnvEnum::QA => "QA",
        EnvEnum::PreProd => "PreProd",
        EnvEnum::Prod => "Prod",
    }
}

/// How configuration input (such as an environment variable) names an
/// environment: the lowercase labels, and nothing else.
pub open spec fn env_label_parsed(s: Seq<char>) -> Option<EnvEnum> {
    if s == "local"@ {
        Some(EnvEnum::Local)
    } else if s == "qa"@ {
        Some(EnvEnum::QA)
    } else if s == "preprod"@ {
        Some(EnvEnum::PreProd)
    } else if s == "prod"@ {
        Some(EnvEnum::Prod)
    } else {
        None
    }
}

pub(crate) fn str_eq(a: &str, b: &str) -> (r: bool)
    ensures
        r == (a@ == b@),
{
    let x: String = a.to_owned();
    let y: String = b.to_owned();
    x == y
}

/// Parses the lowercase configuration label of an environment; any
/// other input is rejected.
pub fn parse_env_label(s: &str) -> (r: Option<EnvEnum>)
    ensures
        r == env_label_parsed(s@),
{
    if str_eq(s, "local") {
        Some(EnvEnum::Local)
    } else if str_eq(s, "qa") {
        Some(EnvEnum::QA)
    } else if str_eq(s, "preprod") {
        Some(EnvEnum::PreProd)
    } else if str_eq(s, "prod") {
        Some(EnvEnum::Prod)
    } else {
        None
    }
}

/// Configuration a logger holds for its lifetime: the application
/// version and environment stamped onto every record, the token used to
/// authorize against the collection endpoint, and whether records are
/// echoed to the console.
pub struct EnvConfig {
    pub app_version: String,
    pub environment: EnvEnum,
    pub logs_source_token: String,
    pub verbose: bool,
}

impl EnvConfig {
    /// Builds a configuration from explicitly supplied values.
    pub fn from_values(
        app_version: String,
        environment: EnvEnum,
        logs_source_token: String,
        verbose: bool,
    ) -> (r: Self)
        ensures
            r.app_version == app_version,
            r.environment == environment,
            r.logs_source_token == logs_source_token,
            r.verbose == verbose,
    {
        EnvConfig { app_version, environment, logs_source_token, verbose }
    }
}

} // verus!
