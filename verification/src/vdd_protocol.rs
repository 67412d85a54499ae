//! What the driver manager and its service say to each other.

use vstd::prelude::*;

verus! {

/// What is known of the installed driver.
#[derive(Debug, Clone)]
pub struct DriverManagerDetails {
    pub friendly_name: Option<String>,
    pub instance_id: Option<String>,
}

/// Whether the driver is installed, and in which state.
#[derive(Debug, Clone)]
pub struct DriverManagerStatus {
    pub installed: bool,
    pub status: String,
    pub details: Option<DriverManagerDetails>,
}

/// A request to the service: one command word.
#[derive(Debug, Clone)]
pub struct ServiceRequest {
    pub command: String,
}

/// The service's answer.
#[derive(Debug, Clone)]
pub struct ServiceResponse {
    pub ok: bool,
    pub message: String,
    pub status: Option<DriverManagerStatus>,
}

} // verus!
