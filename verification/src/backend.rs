use vstd::prelude::*;

verus! {

/// What an exporter needs to know of a Fastly backend: its name, whether the
/// service configuration defines it, and where it sends requests.
#[derive(Debug)]
pub struct BackendInfo {
    /// The backend's name in the service configuration.
    pub name: String,
    /// Whether a backend of that name exists.
    pub exists: bool,
    /// The host the backend sends requests to.
    pub host: String,
    /// The port the backend sends requests to.
    pub port: u16,
    /// Whether the backend connects over TLS.
    pub is_ssl: bool,
}

} // verus!
