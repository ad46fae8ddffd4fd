//! Response envelope and records exchanged with the user interface.

use vstd::prelude::*;
use vstd::string::*;
use crate::text::same_text;

verus! {

/// Typed error of an [`ApiResponse`].
pub struct ApiError {
    /// Machine-readable kind, such as `validation_error`.
    pub error_type: String,
    pub message: String,
}

/// Uniform envelope of every answer to the interface: data on success, an
/// error otherwise.
pub struct ApiResponse<T> {
    pub ok: bool,
    pub data: Option<T>,
    pub error: Option<ApiError>,
}

impl<T> ApiResponse<T> {
    /// A successful answer carrying `data`.
    pub fn success(data: T) -> (r: ApiResponse<T>)
        ensures
            r.ok,
            r.data == Some(data),
            r.error is None,
    {
        ApiResponse { ok: true, data: Some(data), error: None }
    }

    /// A failed answer of kind `error_type`.
    pub fn error(error_type: &str, message: String) -> (r: ApiResponse<T>)
        ensures
            !r.ok,
            r.data is None,
            r.error matches Some(e) && e.error_type@ == error_type@ && e.message == message,
    {
        ApiResponse {
            ok: false,
            data: None,
            error: Some(ApiError { error_type: String::from_str(error_type), message }),
        }
    }
}

/// The interface's greeting for `name`.
pub fn greet(name: &str) -> (r: String)
    ensures
        r@ == "Hello, "@ + name@ + "! You've been greeted from Rust!"@,
{
    crate::text::concat3("Hello, ", name, "! You've been greeted from Rust!")
}

/// Reachability of a local service.
pub struct ServiceStatus {
    /// `up` or `down`.
    pub status: String,
    pub details: Option<String>,
}

/// Reachability of the two local services.
pub struct SystemStatus {
    pub ollama: ServiceStatus,
    pub cortex: ServiceStatus,
}

/// A generation request to the language-model service.
pub struct OllamaRequest {
    pub model: String,
    pub prompt: String,
    pub stream: bool,
}

/// A generation answer.
pub struct OllamaResponse {
    pub response: String,
    pub model: String,
}

/// A query to the knowledge service.
pub struct CortexRequest {
    pub query: String,
    pub top_k: Option<u32>,
    pub mode: Option<String>,
}

/// Start of an indexation.
pub struct IndexationStartInfo {
    pub started_at: String,
    pub status: String,
}

/// Persisted state of the indexation job.
pub struct IndexationStatus {
    /// `idle`, `running` or `error`.
    pub state: String,
    pub last_run: Option<String>,
    pub last_error: Option<String>,
}

impl IndexationStatus {
    /// The state of an indexation that never ran.
    pub fn idle() -> (r: IndexationStatus)
        ensures
            r.state@ == "idle"@,
            r.last_run is None,
            r.last_error is None,
    {
        IndexationStatus { state: String::from_str("idle"), last_run: None, last_error: None }
    }

    /// Whether an indexation is under way, so that no second one may start.
    pub fn is_running(&self) -> (r: bool)
        ensures
            r == (self.state@ == "running"@),
    {
        same_text(self.state.as_str(), "running")
    }
}

impl Default for IndexationStatus {
    fn default() -> (r: IndexationStatus)
        ensures
            r.state@ == "idle"@,
            r.last_run is None,
            r.last_error is None,
    {
        IndexationStatus::idle()
    }
}

/// Outcome of an agent command.
pub struct ExecutionResult {
    pub success: bool,
    pub message: String,
    pub command_type: String,
}

/// Start of a training job.
pub struct TrainingStartInfo {
    pub job_id: String,
    pub started_at: String,
    pub profile: String,
}

} // verus!
