//! The commands, and the decisions behind the actions: which system is
//! meant, whether it takes the action, and what is sent to it.

use crate::config::{Config, Settings};
use crate::error::{outcome, Failure, RedfishError};
use crate::model::System;
use crate::redfish::RedfishSystem;
use crate::text::same_text;
use crate::transport::{call, do_http_request, Call, HTTPReqType, Request};
use vstd::prelude::*;
use vstd::string::*;

verus! {

/// The commands of the engine: ten actions on a system and three reports.
#[derive(Clone, Copy, Debug, PartialEq, Eq, Structural)]
pub enum Command {
    Nmi,
    Off,
    On,
    Reset,
    ForceOff,
    ForceOn,
    ForceReset,
    BiosSetup,
    IdentifyOff,
    IdentifyOn,
    Chassis,
    System,
    Version,
}

/// The command that a name stands for.
pub open spec fn command_named(name: Seq<char>) -> Option<Command> {
    if name == "nmi"@ {
        Some(Command::Nmi)
    } else if name == "off"@ {
        Some(Command::Off)
    } else if name == "on"@ {
        Some(Command::On)
    } else if name == "reset"@ {
        Some(Command::Reset)
    } else if name == "forceoff"@ {
        Some(Command::ForceOff)
    } else if name == "forceon"@ {
        Some(Command::ForceOn)
    } else if name == "forcereset"@ {
        Some(Command::ForceReset)
    } else if name == "biossetup"@ {
        Some(Command::BiosSetup)
    } else if name == "identifyoff"@ {
        Some(Command::IdentifyOff)
    } else if name == "identifyon"@ {
        Some(Command::IdentifyOn)
    } else if name == "chassis"@ {
        Some(Command::Chassis)
    } else if name == "system"@ {
        Some(Command::System)
    } else if name == "version"@ {
        Some(Command::Version)
    } else {
        None
    }
}

/// The kind of reset that a power command asks for; none for any other
/// command.
pub open spec fn reset_type(command: Command) -> Option<Seq<char>> {
    match command {
        Command::Nmi => Some("Nmi"@),
        Command::Off => Some("GracefulShutdown"@),
        Command::On => Some("On"@),
        Command::Reset => Some("GracefulRestart"@),
        Command::ForceOff => Some("ForceOff"@),
        Command::ForceOn => Some("ForceOn"@),
        Command::ForceReset => Some("ForceRestart"@),
        _ => None,
    }
}

/// The state of the identify light that an identify command asks for; none
/// for any other command.
pub open spec fn led_state(command: Command) -> Option<Seq<char>> {
    match command {
        Command::IdentifyOff => Some("Off"@),
        Command::IdentifyOn => Some("Blinking"@),
        _ => None,
    }
}

/// Whether a command acts on a system, rather than reports.
pub open spec fn acts(command: Command) -> bool {
    !(command is Chassis || command is System || command is Version)
}

/// The path of the collection of systems.
pub open spec fn systems_path() -> Seq<char> {
    "/redfish/v1/Systems"@
}

/// The system that an action is meant for: the one with the identifier
/// given, below the collection's path; without an identifier the first
/// member of the collection in the controller's order, and none where the
/// collection is empty.
pub open spec fn selected_system(
    arg: Option<Seq<char>>,
    members: Seq<Seq<char>>,
) -> Option<Seq<char>> {
    match arg {
        Some(id) => Some(systems_path() + "/"@ + id),
        None => if members.len() > 0 {
            Some(members[0])
        } else {
            None
        },
    }
}

/// The payload of a reset.
pub open spec fn reset_body(kind: Seq<char>) -> Seq<char> {
    "{\"ResetType\":\""@ + kind + "\"}"@
}

/// The payload of a boot override that holds for the next boot only.
pub open spec fn boot_body(target: Seq<char>) -> Seq<char> {
    "{ \"Boot\": { \"BootSourceOverrideEnabled\":\"Once\", \"BootSourceOverrideTarget\": \""@
        + target + "\" }}"@
}

/// The payload that sets the identify light.
pub open spec fn led_body(state: Seq<char>) -> Seq<char> {
    "{\"IndicatorLED\":\""@ + state + "\"}"@
}

/// A reset of a system: a POST to the target that the system's reset
/// capability names. A system without that capability takes no reset.
pub open spec fn power_call(
    config: Settings,
    system: System,
    kind: Seq<char>,
) -> Result<Call, Failure> {
    match system.actions.reset {
        Some(action) => Ok(call(config, HTTPReqType::Post, action.target, Some(reset_body(kind)))),
        None => Err(Failure::Unsupported),
    }
}

/// A boot override of a system: a PATCH of the system itself. A system that
/// reports no boot override takes none.
pub open spec fn boot_call(
    config: Settings,
    system: System,
    target: Seq<char>,
) -> Result<Call, Failure> {
    match system.boot {
        Some(_) => Ok(call(config, HTTPReqType::Patch, system.uri, Some(boot_body(target)))),
        None => Err(Failure::Unsupported),
    }
}

/// A change of the identify light of a system: a PATCH of the system
/// itself. A system that reports no identify light has none to set.
pub open spec fn identify_call(
    config: Settings,
    system: System,
    state: Seq<char>,
) -> Result<Call, Failure> {
    match system.locate_led {
        Some(_) => Ok(call(config, HTTPReqType::Patch, system.uri, Some(led_body(state)))),
        None => Err(Failure::Unsupported),
    }
}

/// What a command sends to the system it acts on.
pub open spec fn action_call(
    config: Settings,
    command: Command,
    system: System,
) -> Result<Call, Failure> {
    if reset_type(command) is Some {
        power_call(config, system, reset_type(command)->Some_0)
    } else if led_state(command) is Some {
        identify_call(config, system, led_state(command)->Some_0)
    } else if command is BiosSetup {
        boot_call(config, system, "BiosSetup"@)
    } else {
        Err(Failure::Unsupported)
    }
}

/// The command that a name stands for; none for a name that is no command.
pub fn command_of(name: &str) -> (r: Option<Command>)
    ensures
        r == command_named(name@),
{
    if same_text(name, "nmi") {
        Some(Command::Nmi)
    } else if same_text(name, "off") {
        Some(Command::Off)
    } else if same_text(name, "on") {
        Some(Command::On)
    } else if same_text(name, "reset") {
        Some(Command::Reset)
    } else if same_text(name, "forceoff") {
        Some(Command::ForceOff)
    } else if same_text(name, "forceon") {
        Some(Command::ForceOn)
    } else if same_text(name, "forcereset") {
        Some(Command::ForceReset)
    } else if same_text(name, "biossetup") {
        Some(Command::BiosSetup)
    } else if same_text(name, "identifyoff") {
        Some(Command::IdentifyOff)
    } else if same_text(name, "identifyon") {
        Some(Command::IdentifyOn)
    } else if same_text(name, "chassis") {
        Some(Command::Chassis)
    } else if same_text(name, "system") {
        Some(Command::System)
    } else if same_text(name, "version") {
        Some(Command::Version)
    } else {
        None
    }
}

/// The path of the system that an action is meant for, given the members
/// of the collection of systems.
pub fn select_system(arg: &Option<String>, members: &Vec<String>) -> (r: Option<String>)
    ensures
        r.deep_view() == selected_system(arg.deep_view(), members.deep_view()),
{
    match arg {
        Some(id) => {
            let mut path = String::from_str("/redfish/v1/Systems");
            path.append("/");
            path.append(id.as_str());
            Some(path)
        },
        None => {
            if members.len() > 0 {
                Some(members[0].clone())
            } else {
                None
            }
        },
    }
}

/// The request that resets a system in the way `pwrstate` names. Fails with
/// `Unsupported` exactly where the system advertises no reset.
pub fn do_power(config: &Config, system: &RedfishSystem, pwrstate: &str) -> (r: Result<
    Request,
    RedfishError,
>)
    ensures
        outcome(r) == power_call(config@, system@, pwrstate@),
{
    match &system.actions.reset {
        Some(action) => {
            let mut data = String::from_str("{\"ResetType\":\"");
            data.append(pwrstate);
            data.append("\"}");
            Ok(do_http_request(config, HTTPReqType::Post, action.target.as_str(), Some(data)))
        },
        None => Err(RedfishError::Unsupported),
    }
}

/// The request that makes a system boot into `boot_target` once. Fails with
/// `Unsupported` exactly where the system reports no boot override.
pub fn do_boot(config: &Config, system: &RedfishSystem, boot_target: &str) -> (r: Result<
    Request,
    RedfishError,
>)
    ensures
        outcome(r) == boot_call(config@, system@, boot_target@),
{
    match &system.boot {
        Some(_) => {
            let mut data = String::from_str(
                "{ \"Boot\": { \"BootSourceOverrideEnabled\":\"Once\", \"BootSourceOverrideTarget\": \"",
            );
            data.append(boot_target);
            data.append("\" }}");
            Ok(do_http_request(config, HTTPReqType::Patch, system.uri.as_str(), Some(data)))
        },
        None => Err(RedfishError::Unsupported),
    }
}

/// The request that sets the identify light of a system to `ledstate`.
/// Fails with `Unsupported` exactly where the system reports no such light.
pub fn do_identify(config: &Config, system: &RedfishSystem, ledstate: &str) -> (r: Result<
    Request,
    RedfishError,
>)
    ensures
        outcome(r) == identify_call(config@, system@, ledstate@),
{
    match &system.locate_led {
        Some(_) => {
            let mut data = String::from_str("{\"IndicatorLED\":\"");
            data.append(ledstate);
            data.append("\"}");
            Ok(do_http_request(config, HTTPReqType::Patch, system.uri.as_str(), Some(data)))
        },
        None => Err(RedfishError::Unsupported),
    }
}

/// The request by which a command acts on a system. Fails with
/// `Unsupported` where the system lacks what the command needs, and for a
/// command that is no action.
pub fn act(config: &Config, command: Command, system: &RedfishSystem) -> (r: Result<
    Request,
    RedfishError,
>)
    ensures
        outcome(r) == action_call(config@, command, system@),
{
    match command {
        Command::Nmi => do_power(config, system, "Nmi"),
        Command::Off => do_power(config, system, "GracefulShutdown"),
        Command::On => do_power(config, system, "On"),
        Command::Reset => do_power(config, system, "GracefulRestart"),
        Command::ForceOff => do_power(config, system, "ForceOff"),
        Command::ForceOn => do_power(config, system, "ForceOn"),
        Command::ForceReset => do_power(config, system, "ForceRestart"),
        Command::BiosSetup => do_boot(config, system, "BiosSetup"),
        Command::IdentifyOff => do_identify(config, system, "Off"),
        Command::IdentifyOn => do_identify(config, system, "Blinking"),
        _ => Err(RedfishError::Unsupported),
    }
}

} // verus!
