//! The driver manager's service: which operation a request asks for, and
//! the answer that goes back for each outcome.

use crate::text::{chars_equal, chars_of, concat_text};
use crate::vdd_protocol::{DriverManagerStatus, ServiceRequest, ServiceResponse};
use vstd::prelude::*;
use vstd::string::*;

verus! {

/// An operation that the service carries out.
#[derive(Debug, Clone, Copy, PartialEq, Eq, Structural)]
pub enum ServiceCommand {
    Status,
    Enable,
    Disable,
    Toggle,
    Install,
    Uninstall,
}

/// The operation that a command word names.
pub open spec fn command_of(word: Seq<char>) -> Option<ServiceCommand> {
    if word == "status"@ {
        Some(ServiceCommand::Status)
    } else if word == "enable"@ {
        Some(ServiceCommand::Enable)
    } else if word == "disable"@ {
        Some(ServiceCommand::Disable)
    } else if word == "toggle"@ {
        Some(ServiceCommand::Toggle)
    } else if word == "install"@ {
        Some(ServiceCommand::Install)
    } else if word == "uninstall"@ {
        Some(ServiceCommand::Uninstall)
    } else {
        None
    }
}

/// The operation that a request asks for, if its command word names one.
pub fn handle_request(request: &ServiceRequest) -> (command: Option<ServiceCommand>)
    ensures
        command == command_of(request.command@),
{
    let word = chars_of(request.command.as_str());
    if chars_equal(&word, "status") {
        Some(ServiceCommand::Status)
    } else if chars_equal(&word, "enable") {
        Some(ServiceCommand::Enable)
    } else if chars_equal(&word, "disable") {
        Some(ServiceCommand::Disable)
    } else if chars_equal(&word, "toggle") {
        Some(ServiceCommand::Toggle)
    } else if chars_equal(&word, "install") {
        Some(ServiceCommand::Install)
    } else if chars_equal(&word, "uninstall") {
        Some(ServiceCommand::Uninstall)
    } else {
        None
    }
}

/// The answer to an action: `ok` where it succeeded, its message where not.
pub fn map_action(result: Result<(), String>) -> (response: ServiceResponse)
    ensures
        response.status is None,
        match result {
            Ok(_) => response.ok && response.message@ == "ok"@,
            Err(message) => !response.ok && response.message == message,
        },
{
    match result {
        Ok(_) => ServiceResponse { ok: true, message: String::from_str("ok"), status: None },
        Err(message) => ServiceResponse { ok: false, message, status: None },
    }
}

/// The answer to a status request: the status where there is one, the
/// message where there is not.
pub fn map_status(result: Result<DriverManagerStatus, String>) -> (response: ServiceResponse)
    ensures
        match result {
            Ok(report) => response.ok && response.message@ == "ok"@ && response.status == Some(
                report,
            ),
            Err(message) => !response.ok && response.message == message && response.status
                is None,
        },
{
    match result {
        Ok(report) => ServiceResponse {
            ok: true,
            message: String::from_str("ok"),
            status: Some(report),
        },
        Err(message) => ServiceResponse { ok: false, message, status: None },
    }
}

/// The answer to a request whose command word names no operation.
pub fn unknown_command() -> (response: ServiceResponse)
    ensures
        !response.ok,
        response.message@ == "Unknown command"@,
        response.status is None,
{
    ServiceResponse { ok: false, message: String::from_str("Unknown command"), status: None }
}

/// The answer to bytes that are no request, with what the decoder said.
pub fn invalid_request(reason: &str) -> (response: ServiceResponse)
    ensures
        !response.ok,
        response.message@ == "Invalid request: "@ + reason@,
        response.status is None,
{
    ServiceResponse { ok: false, message: concat_text("Invalid request: ", reason), status: None }
}

} // verus!
