//! What holds of the engine whatever the controller answers.

use crate::action::{
    action_call, acts, led_body, led_state, reset_body, reset_type, selected_system,
    systems_path, Command,
};
use crate::config::Settings;
use crate::error::Failure;
use crate::json::{field, json_text, text_of, Json};
use crate::model::{
    actions_of, collection_of, link_of, system_of, Fan, Manager, ResetAction, Status, System,
};
use crate::plan::{
    attend_managers, begin, chassis_path, proceed, root_path, step, visit_chassis, visit_system,
    Move, Stage, State, Trail,
};
use crate::report::{fan_label, fan_lines, maybe_line, status_lines, ManagerEntry};
use crate::resolver::resolved;
use crate::text::field_line;
use crate::transport::{accepted, call, endpoint, Arrival, Call, HTTPReqType};
use crate::walk;
use crate::walk::{
    chassis_entries, ethernet_get, get_collection, get_interfaces, get_managers, get_processors,
    get_system, manager_entries, system_entries, system_entry, walk_of, Controller,
};
use vstd::prelude::*;

verus! {

/// Whether a move sends nothing that changes the controller: it is done, or
/// what it sends is a GET.
pub open spec fn reads(m: Move) -> bool {
    match m {
        Move::Send(c, _) => c.method is Get,
        Move::Done(_) => true,
    }
}

/// A collection resolves to as many addresses as its body lists members,
/// and in the body's order: the address at each position is the link of
/// the member at that position.
pub proof fn collection_keeps_order(j: Json, items: Seq<Json>)
    requires
        j is Object,
        field(j, "Members"@) == Some(Json::Array(items)),
        forall|i: int| 0 <= i < items.len() ==> link_of(#[trigger] items[i]) is Some,
    ensures
        resolved(Ok(j)) is Ok,
        resolved(Ok(j))->Ok_0.len() == items.len(),
        forall|i: int|
            0 <= i < items.len() ==> (#[trigger] resolved(Ok(j))->Ok_0[i]) == text_of(
                field(items[i], "@odata.id"@)->Some_0,
            )->Some_0,
{
    reveal(collection_of);
    reveal(link_of);
}

/// A status that reports its health and nothing else is shown as the one
/// line of its health.
pub proof fn status_with_health_only(health: Seq<char>, pad: nat)
    ensures
        status_lines(Status { state: None, health: Some(health), health_rollup: None }, pad)
            =~= seq![field_line(pad, "Health:"@, health)],
{
}

/// A status is shown in as many lines as it reports parts.
pub proof fn status_line_count(status: Status, pad: nat)
    ensures
        status_lines(status, pad).len() == (if status.state is Some {
            1int
        } else {
            0int
        }) + (if status.health is Some {
            1int
        } else {
            0int
        }) + (if status.health_rollup is Some {
            1int
        } else {
            0int
        }),
{
}

/// A fan that reports its name only under the older member is labelled
/// with that name; one that reports it under neither has no label line.
pub proof fn fan_falls_back_to_older_name(fan: Fan)
    requires
        fan.name is None,
    ensures
        fan_label(fan) == fan.fanname,
        fan_lines(fan) =~= maybe_line(4, "Label:"@, fan.fanname) + status_lines(fan.status, 4)
            + seq![Seq::<char>::empty()],
{
}

/// Without an identifier an action is meant for the first member of the
/// collection of systems; with one, for the system of that identifier below
/// the collection's path, whatever the collection lists.
pub proof fn system_selection(members: Seq<Seq<char>>, id: Seq<char>)
    ensures
        members.len() > 0 ==> selected_system(None, members) == Some(members[0]),
        selected_system(Some(id), members) == Some(systems_path() + "/"@ + id),
{
}

/// A reply that is none ends the command with the transport's words,
/// whatever was under way.
pub proof fn lost_request_ends(s: State, words: Seq<char>)
    ensures
        step(s, Arrival::Failed(words)) == Move::Done(Err(Failure::Transport(words))),
{
}

/// An answer with a status outside 200..=299 ends the command with that
/// status, whatever was under way and whatever the body holds: nothing is
/// shown and nothing more is sent.
pub proof fn refused_answer_ends(s: State, status: u16, body: Seq<char>)
    requires
        !accepted(status),
    ensures
        step(s, Arrival::Answer { status, body }) == Move::Done(
            Err(Failure::RequestFailed(status)),
        ),
{
}

/// A body that is no JSON ends the command with what the parser says of
/// it, unless it answers the request of an action, whose body is not read.
pub proof fn unreadable_body_ends(s: State, status: u16, body: Seq<char>)
    requires
        accepted(status),
        json_text(body) is Err,
        !(s.stage is Submit),
    ensures
        step(s, Arrival::Answer { status, body }) == Move::Done(
            Err(Failure::Malformed(json_text(body)->Err_0)),
        ),
{
}

/// A power command against a system whose body lists no reset among its
/// actions ends as unsupported: nothing is sent to the system.
pub proof fn power_needs_reset_capability(s: State, status: u16, body: Seq<char>)
    requires
        s.stage is InspectSystem,
        reset_type(s.trail.command) is Some,
        accepted(status),
        json_text(body) is Ok,
        system_of(json_text(body)->Ok_0, s.trail.uri) is Some,
        field(
            field(json_text(body)->Ok_0, "Actions"@)->Some_0,
            "#ComputerSystem.Reset"@,
        ) is None,
    ensures
        step(s, Arrival::Answer { status, body }) == Move::Done(Err(Failure::Unsupported)),
{
    reveal(system_of);
    reveal(actions_of);
}

/// An identify command against a system whose body reports no identify
/// light ends as unsupported; so does the boot override against a system
/// whose body reports no boot override.
pub proof fn action_needs_its_capability(s: State, status: u16, body: Seq<char>)
    requires
        s.stage is InspectSystem,
        accepted(status),
        json_text(body) is Ok,
        system_of(json_text(body)->Ok_0, s.trail.uri) is Some,
        (led_state(s.trail.command) is Some && field(json_text(body)->Ok_0, "IndicatorLED"@)
            is None) || (s.trail.command is BiosSetup && field(
            json_text(body)->Ok_0,
            "Boot"@,
        ) is None),
    ensures
        step(s, Arrival::Answer { status, body }) == Move::Done(Err(Failure::Unsupported)),
{
    reveal(system_of);
}

/// A power command posts the kind of reset it stands for to the target
/// that the system's reset capability names, under the configured host and
/// credentials; where the system is found plays no part.
pub proof fn power_posts_to_target(
    config: Settings,
    command: Command,
    system: System,
    action: ResetAction,
)
    requires
        reset_type(command) is Some,
        system.actions.reset == Some(action),
    ensures
        action_call(config, command, system) == Ok::<Call, Failure>(
            Call {
                method: HTTPReqType::Post,
                url: endpoint(config.host, action.target),
                user: config.user,
                passwd: config.passwd,
                insecure: config.insecure,
                timeout: config.timeout,
                body: Some(reset_body(reset_type(command)->Some_0)),
            },
        ),
{
}

/// An identify command patches the system itself with the state of the
/// light it stands for.
pub proof fn identify_patches_system(config: Settings, command: Command, system: System)
    requires
        led_state(command) is Some,
        system.locate_led is Some,
    ensures
        action_call(config, command, system) == Ok::<Call, Failure>(
            call(
                config,
                HTTPReqType::Patch,
                system.uri,
                Some(led_body(led_state(command)->Some_0)),
            ),
        ),
{
}

proof fn visit_chassis_reads(t: Trail)
    ensures
        reads(visit_chassis(t)),
{
}

proof fn visit_system_reads(t: Trail)
    ensures
        reads(visit_system(t)),
{
}

proof fn attend_managers_reads(t: Trail)
    ensures
        reads(attend_managers(t)),
    decreases t.pending.len(),
{
    if t.pending.len() > 0 {
        let manager = t.pending[0];
        if manager.eth_intfs is None {
            attend_managers_reads(
                Trail {
                    pending: t.pending.drop_first(),
                    managers: t.managers.push(ManagerEntry { manager, eth_intfs: None }),
                    ..t
                },
            );
        }
    }
}

/// Every command starts with a GET.
pub proof fn commands_start_reading(config: Settings, command: Command)
    ensures
        begin(config, command) is Send,
        reads(begin(config, command)),
{
}

/// The only request that changes the controller is the one that an action
/// sends once it has fetched its system: every other move is a GET or the
/// end. So a report sends nothing but GETs.
pub proof fn only_actions_mutate(s: State, reply: Arrival)
    requires
        !(s.stage is InspectSystem),
    ensures
        reads(step(s, reply)),
{
    match reply {
        Arrival::Failed(_) => {},
        Arrival::Answer { status, body } => {
            if accepted(status) {
                let t = s.trail;
                let doc = json_text(body);
                match s.stage {
                    Stage::ChassisCollection => {
                        if resolved(doc) is Ok {
                            visit_chassis_reads(
                                Trail { members: resolved(doc)->Ok_0, next: 0, ..t },
                            );
                        }
                    },
                    Stage::Chassis | Stage::Power { .. } | Stage::Thermal { .. } => {
                        chassis_moves_read(s, body);
                    },
                    Stage::ManagerCollection => {
                        if resolved(doc) is Ok {
                            attend_managers_reads(
                                Trail { members: resolved(doc)->Ok_0, next: 0, ..t },
                            );
                        }
                    },
                    Stage::Manager
                    | Stage::ManagerInterfaces { .. }
                    | Stage::ManagerInterface { .. } => {
                        manager_moves_read(s, body);
                    },
                    Stage::SystemCollection => {
                        if resolved(doc) is Ok {
                            visit_system_reads(
                                Trail { members: resolved(doc)->Ok_0, next: 0, ..t },
                            );
                        }
                    },
                    Stage::Processors { .. }
                    | Stage::Processor { .. }
                    | Stage::SystemInterfaces { .. }
                    | Stage::SystemInterface { .. } => {
                        system_moves_read(s, body);
                    },
                    _ => {},
                }
            }
        },
    }
}

proof fn chassis_moves_read(s: State, body: Seq<char>)
    requires
        s.stage is Chassis || s.stage is Power || s.stage is Thermal,
    ensures
        reads(proceed(s, body)),
{
    assert forall|t: Trail| reads(#[trigger] visit_chassis(t)) by {
        visit_chassis_reads(t);
    }
}

proof fn manager_moves_read(s: State, body: Seq<char>)
    requires
        s.stage is Manager || s.stage is ManagerInterfaces || s.stage is ManagerInterface,
    ensures
        reads(proceed(s, body)),
{
    assert forall|t: Trail| reads(#[trigger] attend_managers(t)) by {
        attend_managers_reads(t);
    }
}

proof fn system_moves_read(s: State, body: Seq<char>)
    requires
        s.stage is Processors || s.stage is Processor || s.stage is SystemInterfaces || s.stage
            is SystemInterface,
    ensures
        reads(proceed(s, body)),
{
    assert forall|t: Trail| reads(#[trigger] visit_system(t)) by {
        visit_system_reads(t);
    }
}

/// An action sends one request to its system and is done with the answer:
/// what follows the fetch of the system is that request, and any answer of
/// success to it ends the command with nothing to show.
pub proof fn action_is_one_request(s: State, reply: Arrival, status: u16, body: Seq<char>)
    requires
        s.stage is InspectSystem,
        step(s, reply) is Send,
        accepted(status),
    ensures
        step(s, reply)->Send_1.stage is Submit,
        step(step(s, reply)->Send_1, Arrival::Answer { status, body }) == Move::Done(
            Ok(Seq::empty()),
        ),
{
}

/// The request that a command starts with.
pub open spec fn first_call(config: Settings, command: Command) -> Call {
    call(
        config,
        HTTPReqType::Get,
        match command {
            Command::Chassis => chassis_path(),
            Command::System => root_path(),
            Command::Version => root_path(),
            _ => systems_path(),
        },
        None,
    )
}

/// A controller that refuses the first request of a command, with a status
/// outside 200..=299, has seen the whole of it: the command ends with that
/// status after the one request.
pub proof fn refused_at_once(
    server: Controller,
    config: Settings,
    command: Command,
    status: u16,
    body: Seq<char>,
)
    requires
        server(first_call(config, command)) == (Arrival::Answer { status, body }),
        !accepted(status),
    ensures
        walk_of(server, config, command).sent =~= seq![first_call(config, command)],
        walk_of(server, config, command).end == Err::<Seq<Seq<char>>, Failure>(
            Failure::RequestFailed(status),
        ),
{
}

/// A power command against a system that advertises no reset: the walk is
/// the two GETs that find the system, and it ends as unsupported.
pub proof fn power_without_reset(
    server: Controller,
    config: Settings,
    command: Command,
    members: Seq<Seq<char>>,
    uri: Seq<char>,
    system: System,
)
    requires
        reset_type(command) is Some,
        get_collection(server, config, systems_path()).end == Ok::<Seq<Seq<char>>, Failure>(
            members,
        ),
        selected_system(config.cmd.arg, members) == Some(uri),
        get_system(server, config, uri).end == Ok::<System, Failure>(system),
        system.actions.reset is None,
    ensures
        walk_of(server, config, command).end == Err::<Seq<Seq<char>>, Failure>(
            Failure::Unsupported,
        ),
        walk_of(server, config, command).sent =~= seq![
            call(config, HTTPReqType::Get, systems_path(), None),
            call(config, HTTPReqType::Get, uri, None),
        ],
{
}

/// Whether every request of a sequence is a GET.
pub open spec fn all_gets(sent: Seq<Call>) -> bool {
    forall|i: int| 0 <= i < sent.len() ==> (#[trigger] sent[i]).method is Get
}

/// An action that ends as unsupported has sent nothing but GETs.
pub proof fn unsupported_sends_only_gets(server: Controller, config: Settings, command: Command)
    requires
        acts(command),
        walk_of(server, config, command).end == Err::<Seq<Seq<char>>, Failure>(
            Failure::Unsupported,
        ),
    ensures
        all_gets(walk_of(server, config, command).sent),
{
}

proof fn interfaces_only_read(server: Controller, config: Settings, links: Seq<Seq<char>>)
    ensures
        all_gets(get_interfaces(server, config, links).sent),
    decreases links.len(),
{
    if links.len() > 0 {
        interfaces_only_read(server, config, links.drop_first());
    }
}

proof fn processors_only_read(server: Controller, config: Settings, links: Seq<Seq<char>>)
    ensures
        all_gets(get_processors(server, config, links).sent),
    decreases links.len(),
{
    if links.len() > 0 {
        processors_only_read(server, config, links.drop_first());
    }
}

proof fn managers_only_read(server: Controller, config: Settings, links: Seq<Seq<char>>)
    ensures
        all_gets(get_managers(server, config, links).sent),
    decreases links.len(),
{
    if links.len() > 0 {
        managers_only_read(server, config, links.drop_first());
    }
}

proof fn ethernet_only_reads(server: Controller, config: Settings, uri: Seq<char>)
    ensures
        all_gets(ethernet_get(server, config, uri).sent),
{
    let c = get_collection(server, config, uri);
    if let Ok(links) = c.end {
        interfaces_only_read(server, config, links);
    }
}

proof fn manager_entries_only_read(server: Controller, config: Settings, managers: Seq<Manager>)
    ensures
        all_gets(manager_entries(server, config, managers).sent),
    decreases managers.len(),
{
    if managers.len() > 0 {
        if let Some(link) = managers[0].eth_intfs {
            ethernet_only_reads(server, config, link.uri);
        }
        manager_entries_only_read(server, config, managers.drop_first());
    }
}

proof fn system_entry_only_reads(server: Controller, config: Settings, uri: Seq<char>)
    ensures
        all_gets(system_entry(server, config, uri).sent),
{
    let s = get_system(server, config, uri);
    if let Ok(system) = s.end {
        let c = get_collection(server, config, system.chips.uri);
        if let Ok(links) = c.end {
            processors_only_read(server, config, links);
        }
        if let Some(link) = system.eth_intfs {
            ethernet_only_reads(server, config, link.uri);
        }
    }
}

proof fn system_entries_only_read(server: Controller, config: Settings, links: Seq<Seq<char>>)
    ensures
        all_gets(system_entries(server, config, links).sent),
    decreases links.len(),
{
    if links.len() > 0 {
        system_entry_only_reads(server, config, links[0]);
        system_entries_only_read(server, config, links.drop_first());
    }
}

proof fn chassis_entries_only_read(server: Controller, config: Settings, links: Seq<Seq<char>>)
    ensures
        all_gets(chassis_entries(server, config, links).sent),
    decreases links.len(),
{
    if links.len() > 0 {
        chassis_entries_only_read(server, config, links.drop_first());
    }
}

/// The walk of a report sends nothing but GETs, whatever the controller
/// answers.
pub proof fn reports_send_only_gets(server: Controller, config: Settings, command: Command)
    requires
        !acts(command),
    ensures
        all_gets(walk_of(server, config, command).sent),
{
    match command {
        Command::Chassis => {
            let c = get_collection(server, config, chassis_path());
            if let Ok(links) = c.end {
                chassis_entries_only_read(server, config, links);
            }
        },
        Command::System => {
            let r = walk::get_root(server, config);
            if let Ok(root) = r.end {
                let c = get_collection(server, config, root.mngrs.uri);
                if let Ok(links) = c.end {
                    managers_only_read(server, config, links);
                    let m = get_managers(server, config, links);
                    if let Ok(fetched) = m.end {
                        manager_entries_only_read(server, config, fetched);
                    }
                }
            }
            let sc = get_collection(server, config, systems_path());
            if let Ok(members) = sc.end {
                system_entries_only_read(server, config, members);
            }
        },
        _ => {},
    }
}

/// Of the requests of an action only the last can be other than a GET:
/// the walk of an action is two GETs at most and then, where the system
/// takes the action, the one request that acts.
pub proof fn actions_mutate_last(server: Controller, config: Settings, command: Command)
    requires
        acts(command),
    ensures
        walk_of(server, config, command).sent.len() <= 3,
        forall|i: int|
            0 <= i < walk_of(server, config, command).sent.len() && i < 2 ==> (
            #[trigger] walk_of(server, config, command).sent[i]).method is Get,
{
}

} // verus!
