//! The engine follows the walk: driven against any controller, a command
//! sends the requests of its walk, in the walk's order, and ends as the
//! walk ends.

use crate::action::{action_call, command_named, selected_system, systems_path, Command};
use crate::config::Settings;
use crate::error::Failure;
use crate::model::{Chassis, Interface, Manager, Power, Processor, System};
use crate::plan;
use crate::plan::{
    attend_managers, begin, start, step, visit_chassis, visit_manager, visit_system, Move, Stage,
    State, Trail,
};
use crate::report::{chassis_report, system_report, ChassisEntry, ManagerEntry, SystemEntry};
use crate::transport::{call, Arrival, Call, HTTPReqType};
use crate::walk;
use crate::walk::{
    chassis_entries, followed, get_collection, get_interfaces, get_managers, get_processors,
    halted, manager_entries, system_entries, walk_of, Controller, Walked,
};
use vstd::prelude::*;

verus! {

/// The engine driven against a controller for at most `fuel` requests: what
/// it sent and how it ended; none where it has not ended by then.
pub open spec fn drive(m: Move, server: Controller, fuel: nat) -> Option<Walked<Seq<Seq<char>>>>
    decreases fuel,
{
    match m {
        Move::Done(r) => Some(Walked { sent: Seq::empty(), end: r }),
        Move::Send(c, s) => if fuel == 0 {
            None
        } else {
            match drive(step(s, server(c)), server, (fuel - 1) as nat) {
                Some(w) => Some(followed(seq![c], w)),
                None => None,
            }
        },
    }
}

/// Whether the engine, driven on from a move, ends, having sent and ended
/// as `w` says.
pub open spec fn ends_with(m: Move, server: Controller, w: Walked<Seq<Seq<char>>>) -> bool {
    exists|fuel: nat| #[trigger] drive(m, server, fuel) == Some(w)
}

/// Once the engine has ended, more fuel changes nothing: it ends in one
/// way or in none.
pub proof fn drive_settles(m: Move, server: Controller, fuel: nat, more: nat)
    requires
        drive(m, server, fuel) is Some,
    ensures
        drive(m, server, fuel + more) == drive(m, server, fuel),
    decreases fuel,
{
    match m {
        Move::Done(_) => {},
        Move::Send(c, s) => {
            drive_settles(step(s, server(c)), server, (fuel - 1) as nat, more);
            assert(((fuel + more) - 1) as nat == (fuel - 1) as nat + more);
        },
    }
}

/// The engine ends in one way at most.
pub proof fn ends_in_one_way(
    m: Move,
    server: Controller,
    a: Walked<Seq<Seq<char>>>,
    b: Walked<Seq<Seq<char>>>,
)
    requires
        ends_with(m, server, a),
        ends_with(m, server, b),
    ensures
        a == b,
{
    let i = choose|fuel: nat| #[trigger] drive(m, server, fuel) == Some(a);
    let k = choose|fuel: nat| #[trigger] drive(m, server, fuel) == Some(b);
    drive_settles(m, server, i, k);
    drive_settles(m, server, k, i);
    assert(i + k == k + i);
}

proof fn ended(r: Result<Seq<Seq<char>>, Failure>, server: Controller, w: Walked<Seq<Seq<char>>>)
    requires
        w.sent =~= Seq::empty(),
        w.end == r,
    ensures
        ends_with(Move::Done(r), server, w),
{
    assert(drive(Move::Done(r), server, 0) == Some(w));
}

proof fn sent(
    c: Call,
    s: State,
    server: Controller,
    rest: Walked<Seq<Seq<char>>>,
    w: Walked<Seq<Seq<char>>>,
)
    requires
        ends_with(step(s, server(c)), server, rest),
        w.sent =~= seq![c] + rest.sent,
        w.end == rest.end,
    ensures
        ends_with(Move::Send(c, s), server, w),
{
    let n = choose|fuel: nat| #[trigger] drive(step(s, server(c)), server, fuel) == Some(rest);
    assert(drive(Move::Send(c, s), server, (n + 1) as nat) == Some(w));
}

/// The rest of the chassis report from a point between two chassis.
spec fn rest_of_chassis(server: Controller, t: Trail) -> Walked<Seq<Seq<char>>> {
    let e = chassis_entries(server, t.config, t.members.skip(t.next));
    match e.end {
        Err(f) => halted(e),
        Ok(more) => Walked { sent: e.sent, end: Ok(chassis_report(t.chassis + more)) },
    }
}

/// The rest of the chassis report from the point where the thermal
/// resource of a chassis is due.
spec fn from_thermal(
    server: Controller,
    t: Trail,
    chassis: Chassis,
    power: Option<Power>,
) -> Walked<Seq<Seq<char>>> {
    let th = walk::chassis_thermal(server, t.config, chassis);
    match th.end {
        Err(f) => halted(th),
        Ok(thermal) => followed(
            th.sent,
            rest_of_chassis(
                server,
                Trail { chassis: t.chassis.push(ChassisEntry { chassis, power, thermal }), ..t },
            ),
        ),
    }
}

/// The rest of the chassis report from the point where the power resource
/// of a chassis is due.
spec fn from_power(server: Controller, t: Trail, chassis: Chassis) -> Walked<Seq<Seq<char>>> {
    let p = walk::chassis_power(server, t.config, chassis);
    match p.end {
        Err(f) => halted(p),
        Ok(power) => followed(p.sent, from_thermal(server, t, chassis, power)),
    }
}

#[verifier::rlimit(40)]
proof fn chassis_walk(server: Controller, t: Trail)
    requires
        0 <= t.next <= t.members.len(),
    ensures
        ends_with(visit_chassis(t), server, rest_of_chassis(server, t)),
    decreases t.members.len() - t.next, 0int,
{
    let goal = rest_of_chassis(server, t);
    let remaining = t.members.skip(t.next);
    if t.next == t.members.len() {
        assert(remaining.len() == 0);
        assert(t.chassis + Seq::<ChassisEntry>::empty() =~= t.chassis);
        ended(Ok(chassis_report(t.chassis)), server, goal);
    } else {
        let uri = t.members[t.next];
        let t1 = Trail { next: t.next + 1, ..t };
        let c = call(t.config, HTTPReqType::Get, uri, None);
        let s = State { trail: Trail { uri, ..t1 }, stage: Stage::Chassis };
        assert(visit_chassis(t) == Move::Send(c, s));
        assert(remaining[0] == uri);
        assert(remaining.drop_first() =~= t.members.skip(t.next + 1));
        let first = walk::chassis_entry(server, t.config, uri);
        let got = walk::get_chassis(server, t.config, uri);
        match got.end {
            Err(f) => {
                ended(Err(f), server, Walked { sent: Seq::empty(), end: Err(f) });
                sent(c, s, server, Walked { sent: Seq::empty(), end: Err(f) }, goal);
            },
            Ok(chassis) => {
                chassis_power_walk(server, s.trail, chassis);
                let rest = from_power(server, s.trail, chassis);
                assert(step(s, server(c)) == plan::chassis_power(s.trail, chassis));
                chassis_entry_unfolds(server, t, chassis);
                sent(c, s, server, rest, goal);
            },
        }
    }
}

/// The rest of the report from a chassis on, split at the chassis.
#[verifier::rlimit(40)]
proof fn chassis_entry_unfolds(server: Controller, t: Trail, chassis: Chassis)
    requires
        0 <= t.next < t.members.len(),
        walk::get_chassis(server, t.config, t.members[t.next]).end == Ok::<Chassis, Failure>(
            chassis,
        ),
    ensures
        ({
            let uri = t.members[t.next];
            let c = call(t.config, HTTPReqType::Get, uri, None);
            let rest = from_power(
                server,
                Trail { uri, next: t.next + 1, ..t },
                chassis,
            );
            let goal = rest_of_chassis(server, t);
            &&& goal.sent =~= seq![c] + rest.sent
            &&& goal.end == rest.end
        }),
{
    let uri = t.members[t.next];
    let c = call(t.config, HTTPReqType::Get, uri, None);
    let ts = Trail { uri, next: t.next + 1, ..t };
    let rest = from_power(server, ts, chassis);
    let goal = rest_of_chassis(server, t);
    let remaining = t.members.skip(t.next);
    assert(remaining[0] == uri);
    assert(remaining.drop_first() =~= t.members.skip(t.next + 1));
    let p = walk::chassis_power(server, t.config, chassis);
    if let Ok(power) = p.end {
        let th = walk::chassis_thermal(server, t.config, chassis);
        if let Ok(thermal) = th.end {
            let entry = ChassisEntry { chassis, power, thermal };
            let after = chassis_entries(server, t.config, t.members.skip(t.next + 1));
            if let Ok(more) = after.end {
                assert(t.chassis.push(entry) + more =~= t.chassis + (seq![entry] + more));
            }
        }
    }
}

proof fn chassis_thermal_walk(server: Controller, t: Trail, chassis: Chassis, power: Option<Power>)
    requires
        0 <= t.next <= t.members.len(),
    ensures
        ends_with(
            plan::chassis_thermal(t, chassis, power),
            server,
            from_thermal(server, t, chassis, power),
        ),
    decreases t.members.len() - t.next, 1int,
{
    let goal = from_thermal(server, t, chassis, power);
    match chassis.thermal {
        None => {
            let done = Trail {
                chassis: t.chassis.push(ChassisEntry { chassis, power, thermal: None }),
                ..t
            };
            chassis_walk(server, done);
            assert(goal.sent =~= rest_of_chassis(server, done).sent);
        },
        Some(link) => {
            let c = call(t.config, HTTPReqType::Get, link.uri, None);
            let s = State {
                trail: Trail { uri: link.uri, ..t },
                stage: Stage::Thermal { chassis, power },
            };
            let got = walk::thermal_get(server, t.config, link.uri);
            match got.end {
                Err(f) => {
                    ended(Err(f), server, Walked { sent: Seq::empty(), end: Err(f) });
                    sent(c, s, server, Walked { sent: Seq::empty(), end: Err(f) }, goal);
                },
                Ok(thermal) => {
                    let done = Trail {
                        chassis: s.trail.chassis.push(
                            ChassisEntry { chassis, power, thermal: Some(thermal) },
                        ),
                        ..s.trail
                    };
                    chassis_walk(server, done);
                    assert(rest_of_chassis(server, done) == rest_of_chassis(
                        server,
                        Trail {
                            chassis: t.chassis.push(
                                ChassisEntry { chassis, power, thermal: Some(thermal) },
                            ),
                            ..t
                        },
                    ));
                    sent(c, s, server, rest_of_chassis(server, done), goal);
                },
            }
        },
    }
}

proof fn chassis_power_walk(server: Controller, t: Trail, chassis: Chassis)
    requires
        0 <= t.next <= t.members.len(),
    ensures
        ends_with(plan::chassis_power(t, chassis), server, from_power(server, t, chassis)),
    decreases t.members.len() - t.next, 2int,
{
    let goal = from_power(server, t, chassis);
    match chassis.power {
        None => {
            chassis_thermal_walk(server, t, chassis, None);
            assert(goal.sent =~= from_thermal(server, t, chassis, None).sent);
        },
        Some(link) => {
            let c = call(t.config, HTTPReqType::Get, link.uri, None);
            let s = State { trail: Trail { uri: link.uri, ..t }, stage: Stage::Power { chassis } };
            let got = walk::power_get(server, t.config, link.uri);
            match got.end {
                Err(f) => {
                    ended(Err(f), server, Walked { sent: Seq::empty(), end: Err(f) });
                    sent(c, s, server, Walked { sent: Seq::empty(), end: Err(f) }, goal);
                },
                Ok(power) => {
                    chassis_thermal_walk(server, s.trail, chassis, Some(power));
                    let rest = from_thermal(server, s.trail, chassis, Some(power));
                    assert(rest == from_thermal(server, t, chassis, Some(power)));
                    sent(c, s, server, rest, goal);
                },
            }
        },
    }
}

/// The trail of a command that has sent nothing yet.
spec fn fresh(config: Settings, command: Command) -> Trail {
    Trail {
        config,
        command,
        uri: Seq::empty(),
        members: Seq::empty(),
        next: 0,
        pending: Seq::empty(),
        managers: Seq::empty(),
        systems: Seq::empty(),
        chassis: Seq::empty(),
    }
}

proof fn chassis_report_walk(server: Controller, config: Settings)
    ensures
        ends_with(begin(config, Command::Chassis), server, walk::show_chassis(server, config)),
{
    let goal = walk::show_chassis(server, config);
    let t0 = fresh(config, Command::Chassis);
    let uri = plan::chassis_path();
    let c = call(config, HTTPReqType::Get, uri, None);
    let s = State { trail: Trail { uri, ..t0 }, stage: Stage::ChassisCollection };
    assert(begin(config, Command::Chassis) == Move::Send(c, s));
    let got = walk::get_collection(server, config, uri);
    match got.end {
        Err(f) => {
            ended(Err(f), server, Walked { sent: Seq::empty(), end: Err(f) });
            sent(c, s, server, Walked { sent: Seq::empty(), end: Err(f) }, goal);
        },
        Ok(members) => {
            let t = Trail { members, next: 0, ..s.trail };
            chassis_walk(server, t);
            let rest = rest_of_chassis(server, t);
            assert(members.skip(0) =~= members);
            let e = chassis_entries(server, config, members);
            if let Ok(more) = e.end {
                assert(t.chassis + more =~= more);
            }
            sent(c, s, server, rest, goal);
        },
    }
}

proof fn version_report_walk(server: Controller, config: Settings)
    ensures
        ends_with(begin(config, Command::Version), server, walk::show_version(server, config)),
{
    let goal = walk::show_version(server, config);
    let t0 = fresh(config, Command::Version);
    let uri = plan::root_path();
    let c = call(config, HTTPReqType::Get, uri, None);
    let s = State { trail: Trail { uri, ..t0 }, stage: Stage::Version };
    assert(begin(config, Command::Version) == Move::Send(c, s));
    let got = walk::get_root(server, config);
    let rest = Walked {
        sent: Seq::empty(),
        end: match got.end {
            Ok(root) => Ok(crate::report::version_report(root)),
            Err(f) => Err(f),
        },
    };
    ended(rest.end, server, rest);
    sent(c, s, server, rest, goal);
}

#[verifier::rlimit(40)]
proof fn action_walk(server: Controller, config: Settings, command: Command)
    requires
        !(command is Chassis || command is System || command is Version),
    ensures
        ends_with(begin(config, command), server, walk::do_action(server, config, command)),
{
    let goal = walk::do_action(server, config, command);
    let t0 = fresh(config, command);
    let uri = systems_path();
    let c = call(config, HTTPReqType::Get, uri, None);
    let s = State { trail: Trail { uri, ..t0 }, stage: Stage::SelectSystem };
    assert(begin(config, command) == Move::Send(c, s));
    let got = walk::get_collection(server, config, uri);
    let failed = |f: Failure| Walked::<Seq<Seq<char>>> { sent: Seq::empty(), end: Err(f) };
    match got.end {
        Err(f) => {
            ended(Err(f), server, failed(f));
            sent(c, s, server, failed(f), goal);
        },
        Ok(members) => match selected_system(config.cmd.arg, members) {
            None => {
                ended(Err(Failure::Mismatch), server, failed(Failure::Mismatch));
                sent(c, s, server, failed(Failure::Mismatch), goal);
            },
            Some(target) => {
                let c2 = call(config, HTTPReqType::Get, target, None);
                let s2 = State {
                    trail: Trail { uri: target, ..s.trail },
                    stage: Stage::InspectSystem,
                };
                assert(step(s, server(c)) == Move::Send(c2, s2));
                let got2 = walk::get_system(server, config, target);
                match got2.end {
                    Err(f) => {
                        ended(Err(f), server, failed(f));
                        sent(c2, s2, server, failed(f), Walked { sent: seq![c2], end: Err(f) });
                        sent(c, s, server, Walked { sent: seq![c2], end: Err(f) }, goal);
                    },
                    Ok(system) => match action_call(config, command, system) {
                        Err(f) => {
                            ended(Err(f), server, failed(f));
                            sent(c2, s2, server, failed(f), Walked { sent: seq![c2], end: Err(f) });
                            sent(c, s, server, Walked { sent: seq![c2], end: Err(f) }, goal);
                        },
                        Ok(c3) => {
                            let s3 = State { trail: s2.trail, stage: Stage::Submit };
                            assert(step(s2, server(c2)) == Move::Send(c3, s3));
                            let last = walk::submit(server, c3);
                            let end = Walked::<Seq<Seq<char>>> {
                                sent: Seq::empty(),
                                end: last.end,
                            };
                            ended(last.end, server, end);
                            sent(c3, s3, server, end, last);
                            let tail = Walked { sent: seq![c2] + last.sent, end: last.end };
                            sent(c2, s2, server, last, tail);
                            sent(c, s, server, tail, goal);
                        },
                    },
                }
            },
        },
    }
}

/// The rest of the system report from a point between two systems.
spec fn rest_of_systems(server: Controller, t: Trail) -> Walked<Seq<Seq<char>>> {
    let e = system_entries(server, t.config, t.members.skip(t.next));
    match e.end {
        Err(f) => halted(e),
        Ok(more) => Walked { sent: e.sent, end: Ok(system_report(t.managers, t.systems + more)) },
    }
}

/// The rest of the system report from within the interfaces of a system.
spec fn from_system_interface(
    server: Controller,
    t: Trail,
    system: System,
    chips: Seq<Processor>,
    links: Seq<Seq<char>>,
    next: int,
    found: Seq<Interface>,
) -> Walked<Seq<Seq<char>>> {
    let w = get_interfaces(server, t.config, links.skip(next));
    match w.end {
        Err(f) => halted(w),
        Ok(more) => followed(
            w.sent,
            rest_of_systems(
                server,
                Trail {
                    systems: t.systems.push(
                        SystemEntry { system, chips, eth_intfs: Some(found + more) },
                    ),
                    ..t
                },
            ),
        ),
    }
}

/// The rest of the system report from the point where the interfaces of a
/// system are due.
spec fn from_system_interfaces(
    server: Controller,
    t: Trail,
    system: System,
    chips: Seq<Processor>,
) -> Walked<Seq<Seq<char>>> {
    match system.eth_intfs {
        None => rest_of_systems(
            server,
            Trail { systems: t.systems.push(SystemEntry { system, chips, eth_intfs: None }), ..t },
        ),
        Some(link) => {
            let c = get_collection(server, t.config, link.uri);
            match c.end {
                Err(f) => halted(c),
                Ok(links) => followed(
                    c.sent,
                    from_system_interface(server, t, system, chips, links, 0, Seq::empty()),
                ),
            }
        },
    }
}

/// The rest of the system report from within the processors of a system.
spec fn from_processor(
    server: Controller,
    t: Trail,
    system: System,
    links: Seq<Seq<char>>,
    next: int,
    chips: Seq<Processor>,
) -> Walked<Seq<Seq<char>>> {
    let w = get_processors(server, t.config, links.skip(next));
    match w.end {
        Err(f) => halted(w),
        Ok(more) => followed(w.sent, from_system_interfaces(server, t, system, chips + more)),
    }
}

#[verifier::rlimit(40)]
proof fn systems_walk(server: Controller, t: Trail)
    requires
        0 <= t.next <= t.members.len(),
    ensures
        ends_with(visit_system(t), server, rest_of_systems(server, t)),
    decreases t.members.len() - t.next, 0int, 0int,
{
    let goal = rest_of_systems(server, t);
    let remaining = t.members.skip(t.next);
    let failed = |f: Failure| Walked::<Seq<Seq<char>>> { sent: Seq::empty(), end: Err(f) };
    if t.next == t.members.len() {
        assert(remaining.len() == 0);
        assert(t.systems + Seq::<SystemEntry>::empty() =~= t.systems);
        ended(Ok(system_report(t.managers, t.systems)), server, goal);
    } else {
        let uri = t.members[t.next];
        let c = call(t.config, HTTPReqType::Get, uri, None);
        let s = State { trail: Trail { uri, next: t.next + 1, ..t }, stage: Stage::System };
        assert(visit_system(t) == Move::Send(c, s));
        assert(remaining[0] == uri);
        assert(remaining.drop_first() =~= t.members.skip(t.next + 1));
        let got = walk::get_system(server, t.config, uri);
        match got.end {
            Err(f) => {
                ended(Err(f), server, failed(f));
                sent(c, s, server, failed(f), goal);
            },
            Ok(system) => {
                let c2 = call(t.config, HTTPReqType::Get, system.chips.uri, None);
                let s2 = State {
                    trail: Trail { uri: system.chips.uri, ..s.trail },
                    stage: Stage::Processors { system },
                };
                assert(step(s, server(c)) == Move::Send(c2, s2));
                let got2 = get_collection(server, t.config, system.chips.uri);
                match got2.end {
                    Err(f) => {
                        ended(Err(f), server, failed(f));
                        let tail = Walked::<Seq<Seq<char>>> { sent: seq![c2], end: Err(f) };
                        sent(c2, s2, server, failed(f), tail);
                        sent(c, s, server, tail, goal);
                    },
                    Ok(links) => {
                        processor_walk(server, s2.trail, system, links, 0, Seq::empty());
                        let rest = from_processor(server, s2.trail, system, links, 0, Seq::empty());
                        let tail = followed(seq![c2], rest);
                        sent(c2, s2, server, rest, tail);
                        system_entry_unfolds(server, t, system, links);
                        sent(c, s, server, tail, goal);
                    },
                }
            },
        }
    }
}

/// The rest of the report from a system on, split after the collection of
/// its processors.
#[verifier::rlimit(40)]
proof fn system_entry_unfolds(server: Controller, t: Trail, system: System, links: Seq<Seq<char>>)
    requires
        0 <= t.next < t.members.len(),
        walk::get_system(server, t.config, t.members[t.next]).end == Ok::<System, Failure>(system),
        get_collection(server, t.config, system.chips.uri).end == Ok::<Seq<Seq<char>>, Failure>(
            links,
        ),
    ensures
        ({
            let uri = t.members[t.next];
            let c = call(t.config, HTTPReqType::Get, uri, None);
            let c2 = call(t.config, HTTPReqType::Get, system.chips.uri, None);
            let rest = from_processor(
                server,
                Trail { uri: system.chips.uri, next: t.next + 1, ..t },
                system,
                links,
                0,
                Seq::empty(),
            );
            let goal = rest_of_systems(server, t);
            &&& goal.sent =~= seq![c] + (seq![c2] + rest.sent)
            &&& goal.end == rest.end
        }),
{
    let uri = t.members[t.next];
    let ts = Trail { uri: system.chips.uri, next: t.next + 1, ..t };
    let remaining = t.members.skip(t.next);
    assert(remaining[0] == uri);
    assert(remaining.drop_first() =~= t.members.skip(t.next + 1));
    assert(links.skip(0) =~= links);
    let p = get_processors(server, t.config, links);
    if let Ok(chips) = p.end {
        assert(Seq::<Processor>::empty() + chips =~= chips);
        let after = system_entries(server, t.config, t.members.skip(t.next + 1));
        match system.eth_intfs {
            None => {
                let entry = SystemEntry { system, chips, eth_intfs: None };
                if let Ok(more) = after.end {
                    assert(t.systems.push(entry) + more =~= t.systems + (seq![entry] + more));
                }
            },
            Some(link) => {
                let c3 = get_collection(server, t.config, link.uri);
                if let Ok(links2) = c3.end {
                    assert(links2.skip(0) =~= links2);
                    let e = get_interfaces(server, t.config, links2);
                    if let Ok(found) = e.end {
                        assert(Seq::<Interface>::empty() + found =~= found);
                        let entry = SystemEntry { system, chips, eth_intfs: Some(found) };
                        if let Ok(more) = after.end {
                            assert(t.systems.push(entry) + more =~= t.systems + (seq![entry]
                                + more));
                        }
                    }
                }
            },
        }
    }
}

#[verifier::rlimit(40)]
proof fn system_interface_walk(
    server: Controller,
    t: Trail,
    system: System,
    chips: Seq<Processor>,
    links: Seq<Seq<char>>,
    next: int,
    found: Seq<Interface>,
)
    requires
        0 <= t.next <= t.members.len(),
        0 <= next <= links.len(),
    ensures
        ends_with(
            plan::visit_system_interface(t, system, chips, links, next, found),
            server,
            from_system_interface(server, t, system, chips, links, next, found),
        ),
    decreases t.members.len() - t.next, 1int, links.len() - next,
{
    let goal = from_system_interface(server, t, system, chips, links, next, found);
    let remaining = links.skip(next);
    if next == links.len() {
        assert(remaining.len() == 0);
        assert(found + Seq::<Interface>::empty() =~= found);
        let done = Trail {
            systems: t.systems.push(SystemEntry { system, chips, eth_intfs: Some(found) }),
            ..t
        };
        systems_walk(server, done);
        assert(goal.sent =~= rest_of_systems(server, done).sent);
    } else {
        let uri = links[next];
        let c = call(t.config, HTTPReqType::Get, uri, None);
        let s = State {
            trail: Trail { uri, ..t },
            stage: Stage::SystemInterface { system, chips, links, next: next + 1, found },
        };
        assert(remaining[0] == uri);
        assert(remaining.drop_first() =~= links.skip(next + 1));
        let got = walk::get_interface(server, t.config, uri);
        match got.end {
            Err(f) => {
                let failed = Walked::<Seq<Seq<char>>> { sent: Seq::empty(), end: Err(f) };
                ended(Err(f), server, failed);
                sent(c, s, server, failed, goal);
            },
            Ok(e) => {
                system_interface_walk(server, s.trail, system, chips, links, next + 1, found.push(e));
                let rest = from_system_interface(
                    server,
                    s.trail,
                    system,
                    chips,
                    links,
                    next + 1,
                    found.push(e),
                );
                let after = get_interfaces(server, t.config, links.skip(next + 1));
                if let Ok(more) = after.end {
                    assert(found.push(e) + more =~= found + (seq![e] + more));
                }
                sent(c, s, server, rest, goal);
            },
        }
    }
}

proof fn system_interfaces_walk(server: Controller, t: Trail, system: System, chips: Seq<Processor>)
    requires
        0 <= t.next <= t.members.len(),
    ensures
        ends_with(
            plan::system_interfaces(t, system, chips),
            server,
            from_system_interfaces(server, t, system, chips),
        ),
    decreases t.members.len() - t.next, 2int, 0int,
{
    let goal = from_system_interfaces(server, t, system, chips);
    match system.eth_intfs {
        None => {
            let done = Trail {
                systems: t.systems.push(SystemEntry { system, chips, eth_intfs: None }),
                ..t
            };
            systems_walk(server, done);
        },
        Some(link) => {
            let c = call(t.config, HTTPReqType::Get, link.uri, None);
            let s = State {
                trail: Trail { uri: link.uri, ..t },
                stage: Stage::SystemInterfaces { system, chips },
            };
            let got = get_collection(server, t.config, link.uri);
            match got.end {
                Err(f) => {
                    let failed = Walked::<Seq<Seq<char>>> { sent: Seq::empty(), end: Err(f) };
                    ended(Err(f), server, failed);
                    sent(c, s, server, failed, goal);
                },
                Ok(links) => {
                    system_interface_walk(server, s.trail, system, chips, links, 0, Seq::empty());
                    let rest = from_system_interface(
                        server,
                        s.trail,
                        system,
                        chips,
                        links,
                        0,
                        Seq::empty(),
                    );
                    assert(rest == from_system_interface(
                        server,
                        t,
                        system,
                        chips,
                        links,
                        0,
                        Seq::empty(),
                    ));
                    sent(c, s, server, rest, goal);
                },
            }
        },
    }
}

#[verifier::rlimit(40)]
proof fn processor_walk(
    server: Controller,
    t: Trail,
    system: System,
    links: Seq<Seq<char>>,
    next: int,
    chips: Seq<Processor>,
)
    requires
        0 <= t.next <= t.members.len(),
        0 <= next <= links.len(),
    ensures
        ends_with(
            plan::visit_processor(t, system, links, next, chips),
            server,
            from_processor(server, t, system, links, next, chips),
        ),
    decreases t.members.len() - t.next, 3int, links.len() - next,
{
    let goal = from_processor(server, t, system, links, next, chips);
    let remaining = links.skip(next);
    if next == links.len() {
        assert(remaining.len() == 0);
        assert(chips + Seq::<Processor>::empty() =~= chips);
        system_interfaces_walk(server, t, system, chips);
        assert(goal.sent =~= from_system_interfaces(server, t, system, chips).sent);
    } else {
        let uri = links[next];
        let c = call(t.config, HTTPReqType::Get, uri, None);
        let s = State {
            trail: Trail { uri, ..t },
            stage: Stage::Processor { system, links, next: next + 1, chips },
        };
        assert(remaining[0] == uri);
        assert(remaining.drop_first() =~= links.skip(next + 1));
        let got = walk::get_processor(server, t.config, uri);
        match got.end {
            Err(f) => {
                let failed = Walked::<Seq<Seq<char>>> { sent: Seq::empty(), end: Err(f) };
                ended(Err(f), server, failed);
                sent(c, s, server, failed, goal);
            },
            Ok(chip) => {
                processor_walk(server, s.trail, system, links, next + 1, chips.push(chip));
                let rest = from_processor(server, s.trail, system, links, next + 1, chips.push(chip));
                let after = get_processors(server, t.config, links.skip(next + 1));
                if let Ok(more) = after.end {
                    assert(chips.push(chip) + more =~= chips + (seq![chip] + more));
                }
                assert(rest == from_processor(server, t, system, links, next + 1, chips.push(chip)));
                sent(c, s, server, rest, goal);
            },
        }
    }
}

/// The rest of the system report from the point where the collection of
/// systems is due.
spec fn from_systems(server: Controller, t: Trail) -> Walked<Seq<Seq<char>>> {
    let c = get_collection(server, t.config, systems_path());
    match c.end {
        Err(f) => halted(c),
        Ok(links) => followed(
            c.sent,
            rest_of_systems(server, Trail { members: links, next: 0, ..t }),
        ),
    }
}

/// The rest of the system report from a point between two of the managers
/// whose interfaces are due.
spec fn from_managers(server: Controller, t: Trail) -> Walked<Seq<Seq<char>>> {
    let e = manager_entries(server, t.config, t.pending);
    match e.end {
        Err(f) => halted(e),
        Ok(more) => followed(
            e.sent,
            from_systems(server, Trail { managers: t.managers + more, ..t }),
        ),
    }
}

/// The rest of the system report from within the interfaces of a manager.
spec fn from_manager_interface(
    server: Controller,
    t: Trail,
    manager: Manager,
    links: Seq<Seq<char>>,
    next: int,
    found: Seq<Interface>,
) -> Walked<Seq<Seq<char>>> {
    let w = get_interfaces(server, t.config, links.skip(next));
    match w.end {
        Err(f) => halted(w),
        Ok(more) => followed(
            w.sent,
            from_managers(
                server,
                Trail {
                    managers: t.managers.push(
                        ManagerEntry { manager, eth_intfs: Some(found + more) },
                    ),
                    ..t
                },
            ),
        ),
    }
}

/// The rest of the system report from within the fetching of the managers.
spec fn from_manager(server: Controller, t: Trail) -> Walked<Seq<Seq<char>>> {
    let w = get_managers(server, t.config, t.members.skip(t.next));
    match w.end {
        Err(f) => halted(w),
        Ok(more) => followed(w.sent, from_managers(server, Trail { pending: t.pending + more, ..t })),
    }
}

proof fn systems_start(server: Controller, t: Trail)
    ensures
        ends_with(
            plan::fetch(t, systems_path(), Stage::SystemCollection),
            server,
            from_systems(server, t),
        ),
{
    let goal = from_systems(server, t);
    let uri = systems_path();
    let c = call(t.config, HTTPReqType::Get, uri, None);
    let s = State { trail: Trail { uri, ..t }, stage: Stage::SystemCollection };
    let got = get_collection(server, t.config, uri);
    match got.end {
        Err(f) => {
            let failed = Walked::<Seq<Seq<char>>> { sent: Seq::empty(), end: Err(f) };
            ended(Err(f), server, failed);
            sent(c, s, server, failed, goal);
        },
        Ok(links) => {
            let walk = Trail { members: links, next: 0, ..s.trail };
            systems_walk(server, walk);
            let rest = rest_of_systems(server, walk);
            assert(rest == rest_of_systems(server, Trail { members: links, next: 0, ..t }));
            sent(c, s, server, rest, goal);
        },
    }
}

#[verifier::rlimit(40)]
proof fn managers_walk(server: Controller, t: Trail)
    ensures
        ends_with(attend_managers(t), server, from_managers(server, t)),
    decreases t.pending.len(), 0int, 0int,
{
    let goal = from_managers(server, t);
    if t.pending.len() == 0 {
        assert(t.managers + Seq::<ManagerEntry>::empty() =~= t.managers);
        systems_start(server, t);
        assert(goal.sent =~= from_systems(server, t).sent);
        assert(from_systems(server, Trail { managers: t.managers, ..t }) == from_systems(
            server,
            t,
        ));
    } else {
        let manager = t.pending[0];
        let rest = t.pending.drop_first();
        let after = manager_entries(server, t.config, rest);
        match manager.eth_intfs {
            None => {
                let entry = ManagerEntry { manager, eth_intfs: None };
                let done = Trail { pending: rest, managers: t.managers.push(entry), ..t };
                managers_walk(server, done);
                if let Ok(more) = after.end {
                    assert(t.managers.push(entry) + more =~= t.managers + (seq![entry] + more));
                    assert(from_systems(
                        server,
                        Trail { managers: done.managers + more, ..done },
                    ) == from_systems(
                        server,
                        Trail { managers: t.managers + (seq![entry] + more), ..t },
                    ));
                }
                assert(goal.sent =~= from_managers(server, done).sent);
            },
            Some(link) => {
                let c = call(t.config, HTTPReqType::Get, link.uri, None);
                let s = State {
                    trail: Trail { uri: link.uri, pending: rest, ..t },
                    stage: Stage::ManagerInterfaces { manager },
                };
                assert(attend_managers(t) == Move::Send(c, s));
                let got = get_collection(server, t.config, link.uri);
                match got.end {
                    Err(f) => {
                        let failed = Walked::<Seq<Seq<char>>> { sent: Seq::empty(), end: Err(f) };
                        ended(Err(f), server, failed);
                        sent(c, s, server, failed, goal);
                    },
                    Ok(links) => {
                        manager_interface_walk(server, s.trail, manager, links, 0, Seq::empty());
                        let tail = from_manager_interface(
                            server,
                            s.trail,
                            manager,
                            links,
                            0,
                            Seq::empty(),
                        );
                        manager_entry_unfolds(server, t, links);
                        sent(c, s, server, tail, goal);
                    },
                }
            },
        }
    }
}

/// The rest of the report from a manager with interfaces on, split after
/// the collection of its interfaces.
#[verifier::rlimit(40)]
proof fn manager_entry_unfolds(server: Controller, t: Trail, links: Seq<Seq<char>>)
    requires
        t.pending.len() > 0,
        t.pending[0].eth_intfs is Some,
        get_collection(server, t.config, t.pending[0].eth_intfs->Some_0.uri).end == Ok::<
            Seq<Seq<char>>,
            Failure,
        >(links),
    ensures
        ({
            let manager = t.pending[0];
            let uri = manager.eth_intfs->Some_0.uri;
            let c = call(t.config, HTTPReqType::Get, uri, None);
            let tail = from_manager_interface(
                server,
                Trail { uri, pending: t.pending.drop_first(), ..t },
                manager,
                links,
                0,
                Seq::empty(),
            );
            let goal = from_managers(server, t);
            &&& goal.sent =~= seq![c] + tail.sent
            &&& goal.end == tail.end
        }),
{
    let manager = t.pending[0];
    let uri = manager.eth_intfs->Some_0.uri;
    let rest = t.pending.drop_first();
    let ts = Trail { uri, pending: rest, ..t };
    assert(links.skip(0) =~= links);
    let e = get_interfaces(server, t.config, links);
    if let Ok(found) = e.end {
        assert(Seq::<Interface>::empty() + found =~= found);
        let entry = ManagerEntry { manager, eth_intfs: Some(found) };
        let after = manager_entries(server, t.config, rest);
        if let Ok(more) = after.end {
            assert(t.managers.push(entry) + more =~= t.managers + (seq![entry] + more));
            let done = Trail { managers: ts.managers.push(entry), ..ts };
            assert(from_systems(server, Trail { managers: done.managers + more, ..done })
                == from_systems(
                server,
                Trail { managers: t.managers + (seq![entry] + more), ..t },
            ));
        }
    }
}

#[verifier::rlimit(40)]
proof fn manager_interface_walk(
    server: Controller,
    t: Trail,
    manager: Manager,
    links: Seq<Seq<char>>,
    next: int,
    found: Seq<Interface>,
)
    requires
        0 <= next <= links.len(),
    ensures
        ends_with(
            plan::visit_manager_interface(t, manager, links, next, found),
            server,
            from_manager_interface(server, t, manager, links, next, found),
        ),
    decreases t.pending.len(), 1int, links.len() - next,
{
    let goal = from_manager_interface(server, t, manager, links, next, found);
    let remaining = links.skip(next);
    if next == links.len() {
        assert(remaining.len() == 0);
        assert(found + Seq::<Interface>::empty() =~= found);
        let done = Trail {
            managers: t.managers.push(ManagerEntry { manager, eth_intfs: Some(found) }),
            ..t
        };
        managers_walk(server, done);
        assert(goal.sent =~= from_managers(server, done).sent);
    } else {
        let uri = links[next];
        let c = call(t.config, HTTPReqType::Get, uri, None);
        let s = State {
            trail: Trail { uri, ..t },
            stage: Stage::ManagerInterface { manager, links, next: next + 1, found },
        };
        assert(remaining[0] == uri);
        assert(remaining.drop_first() =~= links.skip(next + 1));
        let got = walk::get_interface(server, t.config, uri);
        match got.end {
            Err(f) => {
                let failed = Walked::<Seq<Seq<char>>> { sent: Seq::empty(), end: Err(f) };
                ended(Err(f), server, failed);
                sent(c, s, server, failed, goal);
            },
            Ok(e) => {
                manager_interface_walk(server, s.trail, manager, links, next + 1, found.push(e));
                let rest = from_manager_interface(
                    server,
                    s.trail,
                    manager,
                    links,
                    next + 1,
                    found.push(e),
                );
                let after = get_interfaces(server, t.config, links.skip(next + 1));
                if let Ok(more) = after.end {
                    assert(found.push(e) + more =~= found + (seq![e] + more));
                    let entry = ManagerEntry { manager, eth_intfs: Some(found + (seq![e] + more)) };
                    assert(from_managers(
                        server,
                        Trail { managers: s.trail.managers.push(entry), ..s.trail },
                    ) == from_managers(server, Trail { managers: t.managers.push(entry), ..t }));
                }
                sent(c, s, server, rest, goal);
            },
        }
    }
}

#[verifier::rlimit(40)]
proof fn manager_fetch_walk(server: Controller, t: Trail)
    requires
        0 <= t.next <= t.members.len(),
    ensures
        ends_with(visit_manager(t), server, from_manager(server, t)),
    decreases t.members.len() - t.next,
{
    let goal = from_manager(server, t);
    let remaining = t.members.skip(t.next);
    if t.next == t.members.len() {
        assert(remaining.len() == 0);
        assert(t.pending + Seq::<Manager>::empty() =~= t.pending);
        managers_walk(server, t);
        assert(from_managers(server, Trail { pending: t.pending, ..t }) == from_managers(
            server,
            t,
        ));
        assert(goal.sent =~= from_managers(server, t).sent);
    } else {
        let uri = t.members[t.next];
        let c = call(t.config, HTTPReqType::Get, uri, None);
        let s = State { trail: Trail { uri, next: t.next + 1, ..t }, stage: Stage::Manager };
        assert(visit_manager(t) == Move::Send(c, s));
        assert(remaining[0] == uri);
        assert(remaining.drop_first() =~= t.members.skip(t.next + 1));
        let got = walk::get_manager(server, t.config, uri);
        match got.end {
            Err(f) => {
                let failed = Walked::<Seq<Seq<char>>> { sent: Seq::empty(), end: Err(f) };
                ended(Err(f), server, failed);
                sent(c, s, server, failed, goal);
            },
            Ok(manager) => {
                let on = Trail { pending: s.trail.pending.push(manager), ..s.trail };
                manager_fetch_walk(server, on);
                let rest = from_manager(server, on);
                let after = get_managers(server, t.config, t.members.skip(t.next + 1));
                if let Ok(more) = after.end {
                    assert(t.pending.push(manager) + more =~= t.pending + (seq![manager] + more));
                    assert(from_managers(server, Trail { pending: on.pending + more, ..on })
                        == from_managers(
                        server,
                        Trail { pending: t.pending + (seq![manager] + more), ..t },
                    ));
                }
                sent(c, s, server, rest, goal);
            },
        }
    }
}

#[verifier::rlimit(40)]
proof fn system_report_walk(server: Controller, config: Settings)
    ensures
        ends_with(begin(config, Command::System), server, walk::show_system(server, config)),
{
    let goal = walk::show_system(server, config);
    let t0 = fresh(config, Command::System);
    let uri = plan::root_path();
    let c = call(config, HTTPReqType::Get, uri, None);
    let s = State { trail: Trail { uri, ..t0 }, stage: Stage::Root };
    assert(begin(config, Command::System) == Move::Send(c, s));
    let got = walk::get_root(server, config);
    match got.end {
        Err(f) => {
            let failed = Walked::<Seq<Seq<char>>> { sent: Seq::empty(), end: Err(f) };
            ended(Err(f), server, failed);
            sent(c, s, server, failed, goal);
        },
        Ok(root) => {
            let c2 = call(config, HTTPReqType::Get, root.mngrs.uri, None);
            let s2 = State {
                trail: Trail { uri: root.mngrs.uri, ..s.trail },
                stage: Stage::ManagerCollection,
            };
            assert(step(s, server(c)) == Move::Send(c2, s2));
            let got2 = get_collection(server, config, root.mngrs.uri);
            match got2.end {
                Err(f) => {
                    let failed = Walked::<Seq<Seq<char>>> { sent: Seq::empty(), end: Err(f) };
                    ended(Err(f), server, failed);
                    let tail = Walked::<Seq<Seq<char>>> { sent: seq![c2], end: Err(f) };
                    sent(c2, s2, server, failed, tail);
                    sent(c, s, server, tail, goal);
                },
                Ok(links) => {
                    let t = Trail { members: links, next: 0, ..s2.trail };
                    manager_fetch_walk(server, t);
                    let rest = from_manager(server, t);
                    let tail = followed(seq![c2], rest);
                    sent(c2, s2, server, rest, tail);
                    system_report_unfolds(server, config, links);
                    sent(c, s, server, tail, goal);
                },
            }
        },
    }
}

/// The walk of the system report, split after the collection of managers.
#[verifier::rlimit(40)]
proof fn system_report_unfolds(server: Controller, config: Settings, links: Seq<Seq<char>>)
    requires
        walk::get_root(server, config).end is Ok,
        get_collection(server, config, walk::get_root(server, config).end->Ok_0.mngrs.uri).end
            == Ok::<Seq<Seq<char>>, Failure>(links),
    ensures
        ({
            let root = walk::get_root(server, config).end->Ok_0;
            let c = call(config, HTTPReqType::Get, plan::root_path(), None);
            let c2 = call(config, HTTPReqType::Get, root.mngrs.uri, None);
            let rest = from_manager(
                server,
                Trail {
                    uri: root.mngrs.uri,
                    members: links,
                    next: 0,
                    ..fresh(config, Command::System)
                },
            );
            let goal = walk::show_system(server, config);
            &&& goal.sent =~= seq![c] + (seq![c2] + rest.sent)
            &&& goal.end == rest.end
        }),
{
    let root = walk::get_root(server, config).end->Ok_0;
    let t = Trail { uri: root.mngrs.uri, members: links, next: 0, ..fresh(config, Command::System) };
    assert(links.skip(0) =~= links);
    let m = get_managers(server, config, links);
    if let Ok(fetched) = m.end {
        assert(Seq::<Manager>::empty() + fetched =~= fetched);
        let e = manager_entries(server, config, fetched);
        if let Ok(managers) = e.end {
            assert(Seq::<ManagerEntry>::empty() + managers =~= managers);
            let sc = get_collection(server, config, systems_path());
            if let Ok(members) = sc.end {
                assert(members.skip(0) =~= members);
                let se = system_entries(server, config, members);
                if let Ok(systems) = se.end {
                    assert(Seq::<SystemEntry>::empty() + systems =~= systems);
                }
            }
        }
    }
}

/// Whatever the controller answers, a command driven against it ends, and
/// it ends as its walk does: the engine has then sent the requests of the
/// walk, each once and in the walk's order, and it hands back the lines or
/// the failure that the walk comes to.
pub proof fn engine_follows_the_walk(server: Controller, config: Settings, command: Command)
    ensures
        ends_with(begin(config, command), server, walk_of(server, config, command)),
{
    match command {
        Command::Chassis => chassis_report_walk(server, config),
        Command::System => system_report_walk(server, config),
        Command::Version => version_report_walk(server, config),
        _ => action_walk(server, config, command),
    }
}

/// The same of a configuration whose command is known: what `run` starts
/// ends as the walk of that command.
pub proof fn run_follows_the_walk(server: Controller, config: Settings)
    requires
        command_named(config.cmd.cmd) is Some,
    ensures
        ends_with(
            start(config),
            server,
            walk_of(server, config, command_named(config.cmd.cmd)->Some_0),
        ),
{
    engine_follows_the_walk(server, config, command_named(config.cmd.cmd)->Some_0);
}

} // verus!
