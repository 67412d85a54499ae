//! Installing, starting, stopping and querying the driver manager's
//! service through the platform's service control tool: the arguments of
//! each call and what its outcome amounts to.

use crate::codec::HostPlatform;
use crate::text::{concat_text, text_views};
use vstd::prelude::*;
use vstd::string::*;

verus! {

/// What the service control tool is asked to do.
#[derive(Debug, Clone, Copy, PartialEq, Eq, Structural)]
pub enum ServiceVerb {
    Start,
    Stop,
    Query,
}

/// The name under which the service is registered.
pub open spec fn service_name() -> Seq<char> {
    "UberDisplayVddService"@
}

/// The tool's word for a verb.
pub open spec fn verb_word(verb: ServiceVerb) -> Seq<char> {
    match verb {
        ServiceVerb::Start => "start"@,
        ServiceVerb::Stop => "stop"@,
        ServiceVerb::Query => "query"@,
    }
}

/// The complaint of a verb on a platform without the tool.
pub open spec fn unavailable_text(verb: ServiceVerb) -> Seq<char> {
    match verb {
        ServiceVerb::Start => "Service start is only available on Windows."@,
        ServiceVerb::Stop => "Service stop is only available on Windows."@,
        ServiceVerb::Query => "Service query is only available on Windows."@,
    }
}

/// A result of arguments or a message, by its texts.
pub open spec fn args_view(result: Result<Vec<String>, String>) -> Result<Seq<Seq<char>>, Seq<char>> {
    match result {
        Ok(args) => Ok(text_views(args@)),
        Err(message) => Err(message@),
    }
}

/// The arguments for a verb on the service.
fn run_sc(platform: HostPlatform, verb: ServiceVerb) -> (result: Result<Vec<String>, String>)
    ensures
        args_view(result) == (if platform == HostPlatform::Windows {
            Ok::<Seq<Seq<char>>, Seq<char>>(seq![verb_word(verb), service_name()])
        } else {
            Err(unavailable_text(verb))
        }),
{
    match platform {
        HostPlatform::Windows => {
            let mut args: Vec<String> = Vec::new();
            args.push(
                match verb {
                    ServiceVerb::Start => String::from_str("start"),
                    ServiceVerb::Stop => String::from_str("stop"),
                    ServiceVerb::Query => String::from_str("query"),
                },
            );
            args.push(String::from_str("UberDisplayVddService"));
            assert(text_views(args@) =~= seq![verb_word(verb), service_name()]);
            Ok(args)
        },
        _ => Err(
            match verb {
                ServiceVerb::Start => String::from_str(
                    "Service start is only available on Windows.",
                ),
                ServiceVerb::Stop => String::from_str("Service stop is only available on Windows."),
                ServiceVerb::Query => String::from_str(
                    "Service query is only available on Windows.",
                ),
            },
        ),
    }
}

/// The arguments that register the service: its name, the path of its
/// binary, automatic start and its display name. The caller looks for the
/// binary beside the host's own and hands over what it found.
pub fn install_service(platform: HostPlatform, service_binary: Option<String>) -> (result: Result<
    Vec<String>,
    String,
>)
    ensures
        args_view(result) == (if platform != HostPlatform::Windows {
            Err::<Seq<Seq<char>>, Seq<char>>("Service install is only available on Windows."@)
        } else {
            match service_binary {
                Some(path) => Ok(
                    seq![
                        "create"@,
                        service_name(),
                        "binPath= "@ + path@,
                        "start= auto"@,
                        "DisplayName= UberDisplay VDD Service"@,
                    ],
                ),
                None => Err("vdd_service.exe not found next to host binary."@),
            }
        }),
{
    match platform {
        HostPlatform::Windows => match service_binary {
            Some(path) => {
                let mut args: Vec<String> = Vec::new();
                args.push(String::from_str("create"));
                args.push(String::from_str("UberDisplayVddService"));
                args.push(concat_text("binPath= ", path.as_str()));
                args.push(String::from_str("start= auto"));
                args.push(String::from_str("DisplayName= UberDisplay VDD Service"));
                assert(text_views(args@) =~= seq![
                    "create"@,
                    service_name(),
                    "binPath= "@ + path@,
                    "start= auto"@,
                    "DisplayName= UberDisplay VDD Service"@,
                ]);
                Ok(args)
            },
            None => Err(String::from_str("vdd_service.exe not found next to host binary.")),
        },
        _ => Err(String::from_str("Service install is only available on Windows.")),
    }
}

/// The arguments that start the service.
pub fn start_service(platform: HostPlatform) -> (result: Result<Vec<String>, String>)
    ensures
        args_view(result) == (if platform == HostPlatform::Windows {
            Ok::<Seq<Seq<char>>, Seq<char>>(seq!["start"@, service_name()])
        } else {
            Err("Service start is only available on Windows."@)
        }),
{
    run_sc(platform, ServiceVerb::Start)
}

/// The arguments that stop the service.
pub fn stop_service(platform: HostPlatform) -> (result: Result<Vec<String>, String>)
    ensures
        args_view(result) == (if platform == HostPlatform::Windows {
            Ok::<Seq<Seq<char>>, Seq<char>>(seq!["stop"@, service_name()])
        } else {
            Err("Service stop is only available on Windows."@)
        }),
{
    run_sc(platform, ServiceVerb::Stop)
}

/// The arguments that query the service.
pub fn query_service(platform: HostPlatform) -> (result: Result<Vec<String>, String>)
    ensures
        args_view(result) == (if platform == HostPlatform::Windows {
            Ok::<Seq<Seq<char>>, Seq<char>>(seq!["query"@, service_name()])
        } else {
            Err("Service query is only available on Windows."@)
        }),
{
    run_sc(platform, ServiceVerb::Query)
}

/// What a run of the tool amounts to, given whether it succeeded and how
/// the platform words its exit status; `create` has a message of its own.
pub fn tool_outcome(creating: bool, success: bool, exit_status: &str) -> (result: Result<
    (),
    String,
>)
    ensures
        match result {
            Ok(_) => success,
            Err(message) => !success && message@ == (if creating {
                "sc.exe create failed with "@
            } else {
                "sc.exe failed with "@
            }) + exit_status@,
        },
{
    if success {
        Ok(())
    } else if creating {
        Err(concat_text("sc.exe create failed with ", exit_status))
    } else {
        Err(concat_text("sc.exe failed with ", exit_status))
    }
}

/// What a query amounts to: the tool's output where it succeeded, its
/// error output behind a message where it did not.
pub fn query_outcome(success: bool, output: String, error_output: &str) -> (result: Result<
    String,
    String,
>)
    ensures
        match result {
            Ok(text) => success && text == output,
            Err(message) => !success && message@ == "sc.exe query failed: "@ + error_output@,
        },
{
    if success {
        Ok(output)
    } else {
        Err(concat_text("sc.exe query failed: ", error_output))
    }
}

} // verus!
