//! Talking to the driver manager's service: the request for each call,
//! and what the service's answer amounts to.

use crate::codec::HostPlatform;
use crate::vdd_protocol::{DriverManagerStatus, ServiceRequest, ServiceResponse};
use vstd::prelude::*;
use vstd::string::*;

verus! {

/// The request that `send` lets through on `platform`: the service exists
/// on Windows only.
pub fn send(platform: HostPlatform, request: ServiceRequest) -> (result: Result<
    ServiceRequest,
    String,
>)
    ensures
        match result {
            Ok(sent) => platform == HostPlatform::Windows && sent == request,
            Err(message) => platform != HostPlatform::Windows && message@
                == "Virtual driver manager is only available on Windows."@,
        },
{
    match platform {
        HostPlatform::Windows => Ok(request),
        _ => Err(String::from_str("Virtual driver manager is only available on Windows.")),
    }
}

/// The request for the driver's status.
pub fn status(platform: HostPlatform) -> (result: Result<ServiceRequest, String>)
    ensures
        match result {
            Ok(request) => platform == HostPlatform::Windows && request.command@ == "status"@,
            Err(message) => platform != HostPlatform::Windows && message@
                == "Virtual driver manager is only available on Windows."@,
        },
{
    send(platform, ServiceRequest { command: String::from_str("status") })
}

/// The request for an action on the driver, named by its command word.
pub fn action(platform: HostPlatform, word: &str) -> (result: Result<ServiceRequest, String>)
    ensures
        match result {
            Ok(request) => platform == HostPlatform::Windows && request.command@ == word@,
            Err(message) => platform != HostPlatform::Windows && message@
                == "Virtual driver manager is only available on Windows."@,
        },
{
    send(platform, ServiceRequest { command: String::from_str(word) })
}

/// What the service's answer to a status request amounts to: the status it
/// holds, or the complaint that it holds none.
pub fn status_reply(response: ServiceResponse) -> (result: Result<DriverManagerStatus, String>)
    ensures
        match response.status {
            Some(report) => result == Ok::<DriverManagerStatus, String>(report),
            None => result matches Err(message) && message@ == "Service did not return status"@,
        },
{
    match response.status {
        Some(report) => Ok(report),
        None => Err(String::from_str("Service did not return status")),
    }
}

/// What the service's answer to an action amounts to: nothing to report
/// where it says ok, its message where it does not.
pub fn action_reply(response: ServiceResponse) -> (result: Result<(), String>)
    ensures
        match result {
            Ok(_) => response.ok,
            Err(message) => !response.ok && message == response.message,
        },
{
    if response.ok {
        Ok(())
    } else {
        Err(response.message)
    }
}

} // verus!
