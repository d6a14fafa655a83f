//! The health report.
use vstd::prelude::*;
use crate::text::{join2, same_text};

verus! {

/// The state of each service.
pub struct HealthServices {
    pub database: String,
    pub ollama: String,
    pub ollama_required: bool,
}

/// The health of the server.
pub struct HealthStatus {
    pub status: String,
    pub version: String,
    pub services: HealthServices,
}

/// How the model server answered a health probe.
pub enum OllamaProbe {
    /// With a success status.
    Healthy,
    /// With another status (its text).
    Status(String),
    /// Not at all (the error's text).
    Unreachable(String),
}

/// The state of the database: `ok` when a query succeeded.
pub fn database_state(query_ok: bool) -> (s: String)
    ensures
        s@ == if query_ok { "ok"@ } else { "error"@ },
{
    if query_ok { "ok".to_owned() } else { "error".to_owned() }
}

/// The state of the model server.
pub fn ollama_state(probe: OllamaProbe) -> (s: String)
    ensures
        s@ == match probe {
            OllamaProbe::Healthy => "ok"@,
            OllamaProbe::Status(st) => "error: status "@ + st@,
            OllamaProbe::Unreachable(e) => "unreachable: "@ + e@,
        },
{
    match probe {
        OllamaProbe::Healthy => "ok".to_owned(),
        OllamaProbe::Status(st) => join2("error: status ", st.as_str()),
        OllamaProbe::Unreachable(e) => join2("unreachable: ", e.as_str()),
    }
}

/// The health report: `ok` when both services are, else `degraded`.
pub fn health_status(database: String, ollama: String, ollama_required: bool) -> (h: HealthStatus)
    ensures
        h.status@ == if database@ == "ok"@ && ollama@ == "ok"@ { "ok"@ } else { "degraded"@ },
        h.version@ == "0.1.0"@,
        h.services.database@ == database@ && h.services.ollama@ == ollama@,
        h.services.ollama_required == ollama_required,
{
    let ok = same_text(database.as_str(), "ok") && same_text(ollama.as_str(), "ok");
    HealthStatus {
        status: if ok { "ok".to_owned() } else { "degraded".to_owned() },
        version: "0.1.0".to_owned(),
        services: HealthServices { database, ollama, ollama_required },
    }
}

} // verus!
