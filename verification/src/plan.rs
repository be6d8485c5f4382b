//! The engine as mathematics: the state of a command between a request and
//! its reply, and the move that each reply brings about.
//!
//! A command is a walk over the controller's resources, one request at a
//! time. Every request but the last of an action is a GET. Any failure ends
//! the command at once: a reply that is none, a status outside 200..=299, a
//! body that does not read. A report is shown whole or not at all.

use crate::action::{action_call, command_named, selected_system, systems_path, Command};
use crate::config::Settings;
use crate::error::Failure;
use crate::json::{json_text, Json};
use crate::model::{
    chassis_of, fetched, interface_of, manager_of, power_of, processor_of, root_of, system_of,
    thermal_of, Chassis, Interface, Manager, Power, Processor, System, Thermal,
};
use crate::resolver::resolved;
use crate::report::{
    chassis_report, system_report, version_report, ChassisEntry, ManagerEntry, SystemEntry,
};
use crate::transport::{call, received, Arrival, Call, HTTPReqType};
use vstd::prelude::*;

verus! {

/// What a command has gathered and what it has yet to visit.
pub struct Trail {
    pub config: Settings,
    pub command: Command,
    /// The path of the request that is out.
    pub uri: Seq<char>,
    /// The members of the collection that is being walked.
    pub members: Seq<Seq<char>>,
    /// The position in `members` of the member to fetch next.
    pub next: int,
    /// The managers that were fetched and whose interfaces are yet to be.
    pub pending: Seq<Manager>,
    pub managers: Seq<ManagerEntry>,
    pub systems: Seq<SystemEntry>,
    pub chassis: Seq<ChassisEntry>,
}

/// What the request that is out was sent for, with what is held for the
/// resource under way.
pub enum Stage {
    /// An action: the collection of systems.
    SelectSystem,
    /// An action: the system it acts on.
    InspectSystem,
    /// An action: the request that acts.
    Submit,
    /// The version report: the service root.
    Version,
    /// The chassis report: the collection of chassis.
    ChassisCollection,
    /// A chassis.
    Chassis,
    /// The power resource of a chassis.
    Power { chassis: Chassis },
    /// The thermal resource of a chassis.
    Thermal { chassis: Chassis, power: Option<Power> },
    /// The system report: the service root.
    Root,
    /// The collection of managers.
    ManagerCollection,
    /// A manager.
    Manager,
    /// The collection of a manager's interfaces.
    ManagerInterfaces { manager: Manager },
    /// An interface of a manager.
    ManagerInterface { manager: Manager, links: Seq<Seq<char>>, next: int, found: Seq<Interface> },
    /// The collection of systems.
    SystemCollection,
    /// A system.
    System,
    /// The collection of a system's processors.
    Processors { system: System },
    /// A processor of a system.
    Processor { system: System, links: Seq<Seq<char>>, next: int, chips: Seq<Processor> },
    /// The collection of a system's interfaces.
    SystemInterfaces { system: System, chips: Seq<Processor> },
    /// An interface of a system.
    SystemInterface {
        system: System,
        chips: Seq<Processor>,
        links: Seq<Seq<char>>,
        next: int,
        found: Seq<Interface>,
    },
}

/// A command between a request and its reply.
pub struct State {
    pub trail: Trail,
    pub stage: Stage,
}

/// What the engine does next: it sends a request and waits, or it is done,
/// with the lines to show or with the failure.
pub enum Move {
    Send(Call, State),
    Done(Result<Seq<Seq<char>>, Failure>),
}

/// The path of the service root.
pub open spec fn root_path() -> Seq<char> {
    "/redfish/v1"@
}

/// The path of the collection of chassis.
pub open spec fn chassis_path() -> Seq<char> {
    "/redfish/v1/Chassis"@
}

/// The request that reads the resource at `uri`, and the state that waits
/// for it.
pub open spec fn fetch(t: Trail, uri: Seq<char>, stage: Stage) -> Move {
    Move::Send(
        call(t.config, HTTPReqType::Get, uri, None),
        State { trail: Trail { uri, ..t }, stage },
    )
}

/// The failure that ends a command.
pub open spec fn fail(f: Failure) -> Move {
    Move::Done(Err(f))
}

/// The first move of a command.
pub open spec fn begin(config: Settings, command: Command) -> Move {
    let t = Trail {
        config,
        command,
        uri: Seq::empty(),
        members: Seq::empty(),
        next: 0,
        pending: Seq::empty(),
        managers: Seq::empty(),
        systems: Seq::empty(),
        chassis: Seq::empty(),
    };
    match command {
        Command::Chassis => fetch(t, chassis_path(), Stage::ChassisCollection),
        Command::System => fetch(t, root_path(), Stage::Root),
        Command::Version => fetch(t, root_path(), Stage::Version),
        _ => fetch(t, systems_path(), Stage::SelectSystem),
    }
}

/// The first move under a configuration whose command is known.
pub open spec fn start(config: Settings) -> Move {
    begin(config, command_named(config.cmd.cmd)->Some_0)
}

// Actions

/// After the collection of systems: fetch the system that is meant. An
/// empty collection with no identifier given offers none.
pub open spec fn after_select(t: Trail, doc: Result<Json, Seq<char>>) -> Move {
    match resolved(doc) {
        Err(f) => fail(f),
        Ok(members) => match selected_system(t.config.cmd.arg, members) {
            Some(uri) => fetch(t, uri, Stage::InspectSystem),
            None => fail(Failure::Mismatch),
        },
    }
}

/// After the system: send what the command asks for, if the system as it
/// was just fetched takes it.
pub open spec fn after_inspect(t: Trail, doc: Result<Json, Seq<char>>) -> Move {
    match fetched(doc, |j: Json| system_of(j, t.uri)) {
        Err(f) => fail(f),
        Ok(system) => match action_call(t.config, t.command, system) {
            Ok(c) => Move::Send(c, State { trail: t, stage: Stage::Submit }),
            Err(f) => fail(f),
        },
    }
}

// The version report

/// After the service root: its version is the report.
pub open spec fn after_version(t: Trail, doc: Result<Json, Seq<char>>) -> Move {
    match fetched(doc, |j: Json| root_of(j)) {
        Err(f) => fail(f),
        Ok(root) => Move::Done(Ok(version_report(root))),
    }
}

// The chassis report

/// Fetch the next chassis or, past the last, show the report.
pub open spec fn visit_chassis(t: Trail) -> Move {
    if 0 <= t.next < t.members.len() {
        fetch(Trail { next: t.next + 1, ..t }, t.members[t.next], Stage::Chassis)
    } else {
        Move::Done(Ok(chassis_report(t.chassis)))
    }
}

/// A chassis is complete: on to the next.
pub open spec fn chassis_done(
    t: Trail,
    chassis: Chassis,
    power: Option<Power>,
    thermal: Option<Thermal>,
) -> Move {
    visit_chassis(Trail { chassis: t.chassis.push(ChassisEntry { chassis, power, thermal }), ..t })
}

/// Fetch the thermal resource of a chassis, where it links to one.
pub open spec fn chassis_thermal(t: Trail, chassis: Chassis, power: Option<Power>) -> Move {
    match chassis.thermal {
        Some(link) => fetch(t, link.uri, Stage::Thermal { chassis, power }),
        None => chassis_done(t, chassis, power, None),
    }
}

/// Fetch the power resource of a chassis, where it links to one.
pub open spec fn chassis_power(t: Trail, chassis: Chassis) -> Move {
    match chassis.power {
        Some(link) => fetch(t, link.uri, Stage::Power { chassis }),
        None => chassis_thermal(t, chassis, None),
    }
}

/// After the collection of chassis: walk its members.
pub open spec fn after_chassis_collection(t: Trail, doc: Result<Json, Seq<char>>) -> Move {
    match resolved(doc) {
        Err(f) => fail(f),
        Ok(members) => visit_chassis(Trail { members, next: 0, ..t }),
    }
}

/// After a chassis: on to its power resource.
pub open spec fn after_chassis(t: Trail, doc: Result<Json, Seq<char>>) -> Move {
    match fetched(doc, |j: Json| chassis_of(j, t.uri)) {
        Err(f) => fail(f),
        Ok(chassis) => chassis_power(t, chassis),
    }
}

/// After the power resource of a chassis: on to its thermal resource.
pub open spec fn after_power(t: Trail, chassis: Chassis, doc: Result<Json, Seq<char>>) -> Move {
    match fetched(doc, |j: Json| power_of(j, t.uri)) {
        Err(f) => fail(f),
        Ok(power) => chassis_thermal(t, chassis, Some(power)),
    }
}

/// After the thermal resource of a chassis: the chassis is complete.
pub open spec fn after_thermal(
    t: Trail,
    chassis: Chassis,
    power: Option<Power>,
    doc: Result<Json, Seq<char>>,
) -> Move {
    match fetched(doc, |j: Json| thermal_of(j, t.uri)) {
        Err(f) => fail(f),
        Ok(thermal) => chassis_done(t, chassis, power, Some(thermal)),
    }
}

// The system report: managers

/// Fetch the next system or, past the last, show the report.
pub open spec fn visit_system(t: Trail) -> Move {
    if 0 <= t.next < t.members.len() {
        fetch(Trail { next: t.next + 1, ..t }, t.members[t.next], Stage::System)
    } else {
        Move::Done(Ok(system_report(t.managers, t.systems)))
    }
}

/// Take up the managers that were fetched, in order: one without a link to
/// its interfaces is complete as it is; for the first with such a link,
/// fetch the collection behind it. With none left, go on to the systems.
pub open spec fn attend_managers(t: Trail) -> Move
    decreases t.pending.len(),
{
    if t.pending.len() == 0 {
        fetch(t, systems_path(), Stage::SystemCollection)
    } else {
        let manager = t.pending[0];
        let rest = t.pending.drop_first();
        match manager.eth_intfs {
            Some(link) => fetch(
                Trail { pending: rest, ..t },
                link.uri,
                Stage::ManagerInterfaces { manager },
            ),
            None => attend_managers(
                Trail {
                    pending: rest,
                    managers: t.managers.push(ManagerEntry { manager, eth_intfs: None }),
                    ..t
                },
            ),
        }
    }
}

/// Fetch the next manager or, past the last, take up their interfaces.
pub open spec fn visit_manager(t: Trail) -> Move {
    if 0 <= t.next < t.members.len() {
        fetch(Trail { next: t.next + 1, ..t }, t.members[t.next], Stage::Manager)
    } else {
        attend_managers(t)
    }
}

/// Fetch the next interface of a manager or, past the last, complete the
/// manager.
pub open spec fn visit_manager_interface(
    t: Trail,
    manager: Manager,
    links: Seq<Seq<char>>,
    next: int,
    found: Seq<Interface>,
) -> Move {
    if 0 <= next < links.len() {
        fetch(t, links[next], Stage::ManagerInterface { manager, links, next: next + 1, found })
    } else {
        attend_managers(
            Trail {
                managers: t.managers.push(ManagerEntry { manager, eth_intfs: Some(found) }),
                ..t
            },
        )
    }
}

/// After the service root: fetch the collection of managers that it links to.
pub open spec fn after_root(t: Trail, doc: Result<Json, Seq<char>>) -> Move {
    match fetched(doc, |j: Json| root_of(j)) {
        Err(f) => fail(f),
        Ok(root) => fetch(t, root.mngrs.uri, Stage::ManagerCollection),
    }
}

/// After the collection of managers: fetch each member.
pub open spec fn after_manager_collection(t: Trail, doc: Result<Json, Seq<char>>) -> Move {
    match resolved(doc) {
        Err(f) => fail(f),
        Ok(members) => visit_manager(Trail { members, next: 0, ..t }),
    }
}

/// After a manager: it waits for its interfaces; on to the next member.
pub open spec fn after_manager(t: Trail, doc: Result<Json, Seq<char>>) -> Move {
    match fetched(doc, |j: Json| manager_of(j, t.uri)) {
        Err(f) => fail(f),
        Ok(manager) => visit_manager(Trail { pending: t.pending.push(manager), ..t }),
    }
}

/// After the collection of a manager's interfaces: fetch each member.
pub open spec fn after_manager_interfaces(t: Trail, manager: Manager, doc: Result<Json, Seq<char>>) -> Move {
    match resolved(doc) {
        Err(f) => fail(f),
        Ok(members) => visit_manager_interface(t, manager, members, 0, Seq::empty()),
    }
}

/// After an interface of a manager: it is found; on to the next.
pub open spec fn after_manager_interface(
    t: Trail,
    manager: Manager,
    links: Seq<Seq<char>>,
    next: int,
    found: Seq<Interface>,
    doc: Result<Json, Seq<char>>,
) -> Move {
    match fetched(doc, |j: Json| interface_of(j, t.uri)) {
        Err(f) => fail(f),
        Ok(e) => visit_manager_interface(t, manager, links, next, found.push(e)),
    }
}

// The system report: systems

/// A system is complete: on to the next.
pub open spec fn system_done(
    t: Trail,
    system: System,
    chips: Seq<Processor>,
    eth_intfs: Option<Seq<Interface>>,
) -> Move {
    visit_system(Trail { systems: t.systems.push(SystemEntry { system, chips, eth_intfs }), ..t })
}

/// Fetch the next interface of a system or, past the last, complete the
/// system.
pub open spec fn visit_system_interface(
    t: Trail,
    system: System,
    chips: Seq<Processor>,
    links: Seq<Seq<char>>,
    next: int,
    found: Seq<Interface>,
) -> Move {
    if 0 <= next < links.len() {
        fetch(
            t,
            links[next],
            Stage::SystemInterface { system, chips, links, next: next + 1, found },
        )
    } else {
        system_done(t, system, chips, Some(found))
    }
}

/// Fetch the collection of a system's interfaces, where it links to one.
pub open spec fn system_interfaces(t: Trail, system: System, chips: Seq<Processor>) -> Move {
    match system.eth_intfs {
        Some(link) => fetch(t, link.uri, Stage::SystemInterfaces { system, chips }),
        None => system_done(t, system, chips, None),
    }
}

/// Fetch the next processor of a system or, past the last, go on to its
/// interfaces.
pub open spec fn visit_processor(
    t: Trail,
    system: System,
    links: Seq<Seq<char>>,
    next: int,
    chips: Seq<Processor>,
) -> Move {
    if 0 <= next < links.len() {
        fetch(t, links[next], Stage::Processor { system, links, next: next + 1, chips })
    } else {
        system_interfaces(t, system, chips)
    }
}

/// After the collection of systems: walk its members.
pub open spec fn after_system_collection(t: Trail, doc: Result<Json, Seq<char>>) -> Move {
    match resolved(doc) {
        Err(f) => fail(f),
        Ok(members) => visit_system(Trail { members, next: 0, ..t }),
    }
}

/// After a system: fetch the collection of its processors.
pub open spec fn after_system(t: Trail, doc: Result<Json, Seq<char>>) -> Move {
    match fetched(doc, |j: Json| system_of(j, t.uri)) {
        Err(f) => fail(f),
        Ok(system) => fetch(t, system.chips.uri, Stage::Processors { system }),
    }
}

/// After the collection of a system's processors: fetch each member.
pub open spec fn after_processors(t: Trail, system: System, doc: Result<Json, Seq<char>>) -> Move {
    match resolved(doc) {
        Err(f) => fail(f),
        Ok(members) => visit_processor(t, system, members, 0, Seq::empty()),
    }
}

/// After a processor: it is found; on to the next.
pub open spec fn after_processor(
    t: Trail,
    system: System,
    links: Seq<Seq<char>>,
    next: int,
    chips: Seq<Processor>,
    doc: Result<Json, Seq<char>>,
) -> Move {
    match fetched(doc, |j: Json| processor_of(j, t.uri)) {
        Err(f) => fail(f),
        Ok(chip) => visit_processor(t, system, links, next, chips.push(chip)),
    }
}

/// After the collection of a system's interfaces: fetch each member.
pub open spec fn after_system_interfaces(
    t: Trail,
    system: System,
    chips: Seq<Processor>,
    doc: Result<Json, Seq<char>>,
) -> Move {
    match resolved(doc) {
        Err(f) => fail(f),
        Ok(members) => visit_system_interface(t, system, chips, members, 0, Seq::empty()),
    }
}

/// After an interface of a system: it is found; on to the next.
pub open spec fn after_system_interface(
    t: Trail,
    system: System,
    chips: Seq<Processor>,
    links: Seq<Seq<char>>,
    next: int,
    found: Seq<Interface>,
    doc: Result<Json, Seq<char>>,
) -> Move {
    match fetched(doc, |j: Json| interface_of(j, t.uri)) {
        Err(f) => fail(f),
        Ok(e) => visit_system_interface(t, system, chips, links, next, found.push(e)),
    }
}

/// The move after a body arrived with a status of success.
pub open spec fn proceed(s: State, body: Seq<char>) -> Move {
    let t = s.trail;
    let doc = json_text(body);
    match s.stage {
        Stage::SelectSystem => after_select(t, doc),
        Stage::InspectSystem => after_inspect(t, doc),
        Stage::Submit => Move::Done(Ok(Seq::empty())),
        Stage::Version => after_version(t, doc),
        Stage::ChassisCollection => after_chassis_collection(t, doc),
        Stage::Chassis => after_chassis(t, doc),
        Stage::Power { chassis } => after_power(t, chassis, doc),
        Stage::Thermal { chassis, power } => after_thermal(t, chassis, power, doc),
        Stage::Root => after_root(t, doc),
        Stage::ManagerCollection => after_manager_collection(t, doc),
        Stage::Manager => after_manager(t, doc),
        Stage::ManagerInterfaces { manager } => after_manager_interfaces(t, manager, doc),
        Stage::ManagerInterface { manager, links, next, found } => after_manager_interface(
            t,
            manager,
            links,
            next,
            found,
            doc,
        ),
        Stage::SystemCollection => after_system_collection(t, doc),
        Stage::System => after_system(t, doc),
        Stage::Processors { system } => after_processors(t, system, doc),
        Stage::Processor { system, links, next, chips } => after_processor(
            t,
            system,
            links,
            next,
            chips,
            doc,
        ),
        Stage::SystemInterfaces { system, chips } => after_system_interfaces(
            t,
            system,
            chips,
            doc,
        ),
        Stage::SystemInterface { system, chips, links, next, found } => after_system_interface(
            t,
            system,
            chips,
            links,
            next,
            found,
            doc,
        ),
    }
}

/// The move that a reply brings about.
pub open spec fn step(s: State, reply: Arrival) -> Move {
    match received(reply) {
        Err(f) => fail(f),
        Ok(body) => proceed(s, body),
    }
}

} // verus!
