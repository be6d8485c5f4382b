//! What a command comes to against a controller: the requests it sends, in
//! order, and how it ends. Here a command is one walk from its first request
//! to its end, with the controller a function from requests to replies.
//!
//! A walk stops at its first failure: what was sent up to then was sent, and
//! nothing after.

use crate::action::{action_call, selected_system, systems_path, Command};
use crate::config::Settings;
use crate::error::Failure;
use crate::json::{json_text, Json};
use crate::model::{
    chassis_of, fetched, interface_of, manager_of, power_of, processor_of, root_of, system_of,
    thermal_of, Chassis, Interface, Manager, Power, Processor, Root, System, Thermal,
};
use crate::plan::{chassis_path, root_path};
use crate::report::{
    chassis_report, system_report, version_report, ChassisEntry, ManagerEntry, SystemEntry,
};
use crate::resolver::resolved;
use crate::transport::{call, received, Arrival, Call, HTTPReqType};
use vstd::prelude::*;

verus! {

/// A controller: what it replies to each request.
pub type Controller = spec_fn(Call) -> Arrival;

/// A walk, or a part of one: the requests that were sent, in order, and
/// what came of it.
pub struct Walked<T> {
    pub sent: Seq<Call>,
    pub end: Result<T, Failure>,
}

/// A part of a walk that sends nothing and yields `x`.
pub open spec fn still<T>(x: T) -> Walked<T> {
    Walked { sent: Seq::empty(), end: Ok(x) }
}

/// A walk that has failed, as a part of a longer walk.
pub open spec fn halted<A, B>(w: Walked<A>) -> Walked<B> {
    Walked { sent: w.sent, end: Err(w.end->Err_0) }
}

/// A part of a walk after the requests of the parts before it.
pub open spec fn followed<T>(before: Seq<Call>, w: Walked<T>) -> Walked<T> {
    Walked { sent: before + w.sent, end: w.end }
}

/// One GET and the document in the body of its answer.
pub open spec fn read_at(
    server: Controller,
    config: Settings,
    uri: Seq<char>,
) -> Walked<Result<Json, Seq<char>>> {
    let c = call(config, HTTPReqType::Get, uri, None);
    Walked {
        sent: seq![c],
        end: match received(server(c)) {
            Ok(body) => Ok(json_text(body)),
            Err(f) => Err(f),
        },
    }
}

/// One GET, read as a collection.
pub open spec fn get_collection(
    server: Controller,
    config: Settings,
    uri: Seq<char>,
) -> Walked<Seq<Seq<char>>> {
    let w = read_at(server, config, uri);
    match w.end {
        Ok(doc) => Walked { sent: w.sent, end: resolved(doc) },
        Err(f) => halted(w),
    }
}

/// One GET, read as the service root.
pub open spec fn get_root(server: Controller, config: Settings) -> Walked<Root> {
    let w = read_at(server, config, root_path());
    match w.end {
        Ok(doc) => Walked { sent: w.sent, end: fetched(doc, |j: Json| root_of(j)) },
        Err(f) => halted(w),
    }
}

/// One GET, read as a chassis.
pub open spec fn get_chassis(
    server: Controller,
    config: Settings,
    uri: Seq<char>,
) -> Walked<Chassis> {
    let w = read_at(server, config, uri);
    match w.end {
        Ok(doc) => Walked { sent: w.sent, end: fetched(doc, |j: Json| chassis_of(j, uri)) },
        Err(f) => halted(w),
    }
}

/// One GET, read as the power resource of a chassis.
pub open spec fn power_get(server: Controller, config: Settings, uri: Seq<char>) -> Walked<Power> {
    let w = read_at(server, config, uri);
    match w.end {
        Ok(doc) => Walked { sent: w.sent, end: fetched(doc, |j: Json| power_of(j, uri)) },
        Err(f) => halted(w),
    }
}

/// One GET, read as the thermal resource of a chassis.
pub open spec fn thermal_get(
    server: Controller,
    config: Settings,
    uri: Seq<char>,
) -> Walked<Thermal> {
    let w = read_at(server, config, uri);
    match w.end {
        Ok(doc) => Walked { sent: w.sent, end: fetched(doc, |j: Json| thermal_of(j, uri)) },
        Err(f) => halted(w),
    }
}

/// One GET, read as a manager.
pub open spec fn get_manager(
    server: Controller,
    config: Settings,
    uri: Seq<char>,
) -> Walked<Manager> {
    let w = read_at(server, config, uri);
    match w.end {
        Ok(doc) => Walked { sent: w.sent, end: fetched(doc, |j: Json| manager_of(j, uri)) },
        Err(f) => halted(w),
    }
}

/// One GET, read as a network interface.
pub open spec fn get_interface(
    server: Controller,
    config: Settings,
    uri: Seq<char>,
) -> Walked<Interface> {
    let w = read_at(server, config, uri);
    match w.end {
        Ok(doc) => Walked { sent: w.sent, end: fetched(doc, |j: Json| interface_of(j, uri)) },
        Err(f) => halted(w),
    }
}

/// One GET, read as a system.
pub open spec fn get_system(
    server: Controller,
    config: Settings,
    uri: Seq<char>,
) -> Walked<System> {
    let w = read_at(server, config, uri);
    match w.end {
        Ok(doc) => Walked { sent: w.sent, end: fetched(doc, |j: Json| system_of(j, uri)) },
        Err(f) => halted(w),
    }
}

/// One GET, read as a processor.
pub open spec fn get_processor(
    server: Controller,
    config: Settings,
    uri: Seq<char>,
) -> Walked<Processor> {
    let w = read_at(server, config, uri);
    match w.end {
        Ok(doc) => Walked { sent: w.sent, end: fetched(doc, |j: Json| processor_of(j, uri)) },
        Err(f) => halted(w),
    }
}

/// The interfaces behind some links, fetched one by one in the order of
/// the links.
pub open spec fn get_interfaces(
    server: Controller,
    config: Settings,
    links: Seq<Seq<char>>,
) -> Walked<Seq<Interface>>
    decreases links.len(),
{
    if links.len() == 0 {
        still(Seq::empty())
    } else {
        let first = get_interface(server, config, links[0]);
        match first.end {
            Err(f) => halted(first),
            Ok(e) => {
                let rest = get_interfaces(server, config, links.drop_first());
                match rest.end {
                    Err(f) => followed(first.sent, halted(rest)),
                    Ok(more) => followed(
                        first.sent,
                        Walked { sent: rest.sent, end: Ok(seq![e] + more) },
                    ),
                }
            },
        }
    }
}

/// The interfaces of the collection at `uri`: the collection, then each
/// member.
pub open spec fn ethernet_get(
    server: Controller,
    config: Settings,
    uri: Seq<char>,
) -> Walked<Seq<Interface>> {
    let c = get_collection(server, config, uri);
    match c.end {
        Err(f) => halted(c),
        Ok(links) => followed(c.sent, get_interfaces(server, config, links)),
    }
}

/// The processors behind some links, fetched one by one in the order of
/// the links.
pub open spec fn get_processors(
    server: Controller,
    config: Settings,
    links: Seq<Seq<char>>,
) -> Walked<Seq<Processor>>
    decreases links.len(),
{
    if links.len() == 0 {
        still(Seq::empty())
    } else {
        let first = get_processor(server, config, links[0]);
        match first.end {
            Err(f) => halted(first),
            Ok(chip) => {
                let rest = get_processors(server, config, links.drop_first());
                match rest.end {
                    Err(f) => followed(first.sent, halted(rest)),
                    Ok(more) => followed(
                        first.sent,
                        Walked { sent: rest.sent, end: Ok(seq![chip] + more) },
                    ),
                }
            },
        }
    }
}

/// The processors of the collection at `uri`: the collection, then each
/// member.
pub open spec fn processors_get(
    server: Controller,
    config: Settings,
    uri: Seq<char>,
) -> Walked<Seq<Processor>> {
    let c = get_collection(server, config, uri);
    match c.end {
        Err(f) => halted(c),
        Ok(links) => followed(c.sent, get_processors(server, config, links)),
    }
}

/// The managers behind some links, fetched one by one in the order of the
/// links.
pub open spec fn get_managers(
    server: Controller,
    config: Settings,
    links: Seq<Seq<char>>,
) -> Walked<Seq<Manager>>
    decreases links.len(),
{
    if links.len() == 0 {
        still(Seq::empty())
    } else {
        let first = get_manager(server, config, links[0]);
        match first.end {
            Err(f) => halted(first),
            Ok(m) => {
                let rest = get_managers(server, config, links.drop_first());
                match rest.end {
                    Err(f) => followed(first.sent, halted(rest)),
                    Ok(more) => followed(
                        first.sent,
                        Walked { sent: rest.sent, end: Ok(seq![m] + more) },
                    ),
                }
            },
        }
    }
}

/// The managers of the controller: the service root, the collection it
/// links to, then each member.
pub open spec fn managers_get(server: Controller, config: Settings) -> Walked<Seq<Manager>> {
    let r = get_root(server, config);
    match r.end {
        Err(f) => halted(r),
        Ok(root) => {
            let c = get_collection(server, config, root.mngrs.uri);
            match c.end {
                Err(f) => followed(r.sent, halted(c)),
                Ok(links) => followed(r.sent + c.sent, get_managers(server, config, links)),
            }
        },
    }
}

/// A manager with its interfaces, where it links to them.
pub open spec fn manager_entry(
    server: Controller,
    config: Settings,
    manager: Manager,
) -> Walked<ManagerEntry> {
    match manager.eth_intfs {
        None => still(ManagerEntry { manager, eth_intfs: None }),
        Some(link) => {
            let e = ethernet_get(server, config, link.uri);
            match e.end {
                Err(f) => halted(e),
                Ok(found) => Walked {
                    sent: e.sent,
                    end: Ok(ManagerEntry { manager, eth_intfs: Some(found) }),
                },
            }
        },
    }
}

/// Some managers with their interfaces, taken up in order.
pub open spec fn manager_entries(
    server: Controller,
    config: Settings,
    managers: Seq<Manager>,
) -> Walked<Seq<ManagerEntry>>
    decreases managers.len(),
{
    if managers.len() == 0 {
        still(Seq::empty())
    } else {
        let first = manager_entry(server, config, managers[0]);
        match first.end {
            Err(f) => halted(first),
            Ok(e) => {
                let rest = manager_entries(server, config, managers.drop_first());
                match rest.end {
                    Err(f) => followed(first.sent, halted(rest)),
                    Ok(more) => followed(
                        first.sent,
                        Walked { sent: rest.sent, end: Ok(seq![e] + more) },
                    ),
                }
            },
        }
    }
}

/// The interfaces of a system, where it links to them.
pub open spec fn system_interfaces(
    server: Controller,
    config: Settings,
    system: System,
) -> Walked<Option<Seq<Interface>>> {
    match system.eth_intfs {
        None => still(None),
        Some(link) => {
            let e = ethernet_get(server, config, link.uri);
            match e.end {
                Err(f) => halted(e),
                Ok(found) => Walked { sent: e.sent, end: Ok(Some(found)) },
            }
        },
    }
}

/// The system at `uri` with its processors and its interfaces: the system,
/// then its processors, then its interfaces.
pub open spec fn system_entry(
    server: Controller,
    config: Settings,
    uri: Seq<char>,
) -> Walked<SystemEntry> {
    let s = get_system(server, config, uri);
    match s.end {
        Err(f) => halted(s),
        Ok(system) => {
            let p = processors_get(server, config, system.chips.uri);
            match p.end {
                Err(f) => followed(s.sent, halted(p)),
                Ok(chips) => {
                    let e = system_interfaces(server, config, system);
                    match e.end {
                        Err(f) => followed(s.sent + p.sent, halted(e)),
                        Ok(eth_intfs) => Walked {
                            sent: s.sent + p.sent + e.sent,
                            end: Ok(SystemEntry { system, chips, eth_intfs }),
                        },
                    }
                },
            }
        },
    }
}

/// The systems behind some links with their parts, each system complete
/// before the next is begun.
pub open spec fn system_entries(
    server: Controller,
    config: Settings,
    links: Seq<Seq<char>>,
) -> Walked<Seq<SystemEntry>>
    decreases links.len(),
{
    if links.len() == 0 {
        still(Seq::empty())
    } else {
        let first = system_entry(server, config, links[0]);
        match first.end {
            Err(f) => halted(first),
            Ok(e) => {
                let rest = system_entries(server, config, links.drop_first());
                match rest.end {
                    Err(f) => followed(first.sent, halted(rest)),
                    Ok(more) => followed(
                        first.sent,
                        Walked { sent: rest.sent, end: Ok(seq![e] + more) },
                    ),
                }
            },
        }
    }
}

/// The systems of the controller with their parts: the collection of
/// systems, then each member.
pub open spec fn systems_get(server: Controller, config: Settings) -> Walked<Seq<SystemEntry>> {
    let c = get_collection(server, config, systems_path());
    match c.end {
        Err(f) => halted(c),
        Ok(links) => followed(c.sent, system_entries(server, config, links)),
    }
}

/// The walk of the system report: all managers; then the interfaces of
/// each manager that links to them; then each system with its processors
/// and interfaces.
pub open spec fn show_system(server: Controller, config: Settings) -> Walked<Seq<Seq<char>>> {
    let m = managers_get(server, config);
    match m.end {
        Err(f) => halted(m),
        Ok(fetched) => {
            let e = manager_entries(server, config, fetched);
            match e.end {
                Err(f) => followed(m.sent, halted(e)),
                Ok(managers) => {
                    let s = systems_get(server, config);
                    match s.end {
                        Err(f) => followed(m.sent + e.sent, halted(s)),
                        Ok(systems) => Walked {
                            sent: m.sent + e.sent + s.sent,
                            end: Ok(system_report(managers, systems)),
                        },
                    }
                },
            }
        },
    }
}

/// The power resource of a chassis, where it links to one.
pub open spec fn chassis_power(
    server: Controller,
    config: Settings,
    chassis: Chassis,
) -> Walked<Option<Power>> {
    match chassis.power {
        None => still(None),
        Some(link) => {
            let p = power_get(server, config, link.uri);
            match p.end {
                Err(f) => halted(p),
                Ok(power) => Walked { sent: p.sent, end: Ok(Some(power)) },
            }
        },
    }
}

/// The thermal resource of a chassis, where it links to one.
pub open spec fn chassis_thermal(
    server: Controller,
    config: Settings,
    chassis: Chassis,
) -> Walked<Option<Thermal>> {
    match chassis.thermal {
        None => still(None),
        Some(link) => {
            let t = thermal_get(server, config, link.uri);
            match t.end {
                Err(f) => halted(t),
                Ok(thermal) => Walked { sent: t.sent, end: Ok(Some(thermal)) },
            }
        },
    }
}

/// The chassis at `uri` with its power and thermal resources: the
/// chassis, then its power resource, then its thermal resource.
pub open spec fn chassis_entry(
    server: Controller,
    config: Settings,
    uri: Seq<char>,
) -> Walked<ChassisEntry> {
    let c = get_chassis(server, config, uri);
    match c.end {
        Err(f) => halted(c),
        Ok(chassis) => {
            let p = chassis_power(server, config, chassis);
            match p.end {
                Err(f) => followed(c.sent, halted(p)),
                Ok(power) => {
                    let t = chassis_thermal(server, config, chassis);
                    match t.end {
                        Err(f) => followed(c.sent + p.sent, halted(t)),
                        Ok(thermal) => Walked {
                            sent: c.sent + p.sent + t.sent,
                            end: Ok(ChassisEntry { chassis, power, thermal }),
                        },
                    }
                },
            }
        },
    }
}

/// The chassis behind some links with their parts, each chassis complete
/// before the next is begun.
pub open spec fn chassis_entries(
    server: Controller,
    config: Settings,
    links: Seq<Seq<char>>,
) -> Walked<Seq<ChassisEntry>>
    decreases links.len(),
{
    if links.len() == 0 {
        still(Seq::empty())
    } else {
        let first = chassis_entry(server, config, links[0]);
        match first.end {
            Err(f) => halted(first),
            Ok(e) => {
                let rest = chassis_entries(server, config, links.drop_first());
                match rest.end {
                    Err(f) => followed(first.sent, halted(rest)),
                    Ok(more) => followed(
                        first.sent,
                        Walked { sent: rest.sent, end: Ok(seq![e] + more) },
                    ),
                }
            },
        }
    }
}

/// The walk of the chassis report: the collection of chassis, then each
/// member with its parts.
pub open spec fn show_chassis(server: Controller, config: Settings) -> Walked<Seq<Seq<char>>> {
    let c = get_collection(server, config, chassis_path());
    match c.end {
        Err(f) => halted(c),
        Ok(links) => {
            let e = chassis_entries(server, config, links);
            match e.end {
                Err(f) => followed(c.sent, halted(e)),
                Ok(entries) => Walked { sent: c.sent + e.sent, end: Ok(chassis_report(entries)) },
            }
        },
    }
}

/// The walk of the version report: the service root.
pub open spec fn show_version(server: Controller, config: Settings) -> Walked<Seq<Seq<char>>> {
    let r = get_root(server, config);
    match r.end {
        Err(f) => halted(r),
        Ok(root) => Walked { sent: r.sent, end: Ok(version_report(root)) },
    }
}

/// The request of an action, sent: it is done with any answer of success,
/// and there is nothing to show.
pub open spec fn submit(server: Controller, c: Call) -> Walked<Seq<Seq<char>>> {
    Walked {
        sent: seq![c],
        end: match received(server(c)) {
            Ok(_) => Ok(Seq::empty()),
            Err(f) => Err(f),
        },
    }
}

/// The walk of an action: the collection of systems; the system that is
/// meant; then, if that system takes the action, the request that acts.
pub open spec fn do_action(
    server: Controller,
    config: Settings,
    command: Command,
) -> Walked<Seq<Seq<char>>> {
    let c = get_collection(server, config, systems_path());
    match c.end {
        Err(f) => halted(c),
        Ok(members) => match selected_system(config.cmd.arg, members) {
            None => Walked { sent: c.sent, end: Err(Failure::Mismatch) },
            Some(uri) => {
                let s = get_system(server, config, uri);
                match s.end {
                    Err(f) => followed(c.sent, halted(s)),
                    Ok(system) => match action_call(config, command, system) {
                        Err(f) => Walked { sent: c.sent + s.sent, end: Err(f) },
                        Ok(request) => followed(c.sent + s.sent, submit(server, request)),
                    },
                }
            },
        },
    }
}

/// The walk of a command.
pub open spec fn walk_of(
    server: Controller,
    config: Settings,
    command: Command,
) -> Walked<Seq<Seq<char>>> {
    match command {
        Command::Chassis => show_chassis(server, config),
        Command::System => show_system(server, config),
        Command::Version => show_version(server, config),
        _ => do_action(server, config, command),
    }
}

} // verus!
