//! The engine: it turns a command into requests, one at a time, and each
//! reply into the next request or into the outcome. It sends nothing itself:
//! the caller sends each request and hands back what came of it.

use crate::action::{act, command_named, command_of, select_system, Command};
use crate::config::{Config, RedfishUtilCmd};
use crate::error::RedfishError;
use crate::json::json_text;
use crate::plan;
use crate::plan::{Move, Stage, State, Trail};
use crate::redfish::{
    RedfishChassis, RedfishEthernetIntf, RedfishManager, RedfishPower, RedfishProcessor,
    RedfishRootService, RedfishSystem, RedfishThermal,
};
use crate::report::{
    show_chassis, show_system, show_version, ChassisReport, ManagerReport, SystemReport,
};
use crate::resolver::resolve_collection;
use crate::transport::{do_get_request, receive, Reply, Request};
use vstd::prelude::*;
use vstd::string::*;

verus! {

/// What a command has gathered and what it has yet to visit.
#[derive(Debug)]
pub struct Progress {
    pub config: Config,
    pub command: Command,
    /// The path of the request that is out.
    pub uri: String,
    /// The members of the collection that is being walked.
    pub members: Vec<String>,
    /// The position in `members` of the member to fetch next.
    pub next: usize,
    /// The managers that were fetched and whose interfaces are yet to be.
    pub pending: Vec<RedfishManager>,
    pub managers: Vec<ManagerReport>,
    pub systems: Vec<SystemReport>,
    pub chassis: Vec<ChassisReport>,
}

/// What the request that is out was sent for, with what is held for the
/// resource under way.
#[derive(Debug)]
pub enum Phase {
    /// An action: the collection of systems.
    SelectSystem,
    /// An action: the system it acts on.
    InspectSystem,
    /// An action: the request that acts.
    Submit,
    /// The version report: the service root.
    Version,
    /// The chassis report: the collection of chassis.
    ChassisCollection,
    /// A chassis.
    Chassis,
    /// The power resource of a chassis.
    Power { chassis: RedfishChassis },
    /// The thermal resource of a chassis.
    Thermal { chassis: RedfishChassis, power: Option<RedfishPower> },
    /// The system report: the service root.
    Root,
    /// The collection of managers.
    ManagerCollection,
    /// A manager.
    Manager,
    /// The collection of a manager's interfaces.
    ManagerInterfaces { manager: RedfishManager },
    /// An interface of a manager.
    ManagerInterface {
        manager: RedfishManager,
        links: Vec<String>,
        next: usize,
        found: Vec<RedfishEthernetIntf>,
    },
    /// The collection of systems.
    SystemCollection,
    /// A system.
    System,
    /// The collection of a system's processors.
    Processors { system: RedfishSystem },
    /// A processor of a system.
    Processor { system: RedfishSystem, links: Vec<String>, next: usize, chips: Vec<RedfishProcessor> },
    /// The collection of a system's interfaces.
    SystemInterfaces { system: RedfishSystem, chips: Vec<RedfishProcessor> },
    /// An interface of a system.
    SystemInterface {
        system: RedfishSystem,
        chips: Vec<RedfishProcessor>,
        links: Vec<String>,
        next: usize,
        found: Vec<RedfishEthernetIntf>,
    },
}

/// A command between a request and its reply.
#[derive(Debug)]
pub struct Session {
    pub progress: Progress,
    pub phase: Phase,
}

/// What the caller does next: send the request and come back with the
/// reply, or stop, with the lines to show or with the failure.
#[derive(Debug)]
pub enum Step {
    Send(Request, Session),
    Done(Result<Vec<String>, RedfishError>),
}

impl View for Progress {
    type V = Trail;

    open spec fn view(&self) -> Trail {
        Trail {
            config: self.config@,
            command: self.command,
            uri: self.uri@,
            members: self.members.deep_view(),
            next: self.next as int,
            pending: self.pending.deep_view(),
            managers: self.managers.deep_view(),
            systems: self.systems.deep_view(),
            chassis: self.chassis.deep_view(),
        }
    }
}

impl View for Phase {
    type V = Stage;

    open spec fn view(&self) -> Stage {
        match self {
            Phase::SelectSystem => Stage::SelectSystem,
            Phase::InspectSystem => Stage::InspectSystem,
            Phase::Submit => Stage::Submit,
            Phase::Version => Stage::Version,
            Phase::ChassisCollection => Stage::ChassisCollection,
            Phase::Chassis => Stage::Chassis,
            Phase::Power { chassis } => Stage::Power { chassis: chassis@ },
            Phase::Thermal { chassis, power } => Stage::Thermal {
                chassis: chassis@,
                power: power.deep_view(),
            },
            Phase::Root => Stage::Root,
            Phase::ManagerCollection => Stage::ManagerCollection,
            Phase::Manager => Stage::Manager,
            Phase::ManagerInterfaces { manager } => Stage::ManagerInterfaces { manager: manager@ },
            Phase::ManagerInterface { manager, links, next, found } => Stage::ManagerInterface {
                manager: manager@,
                links: links.deep_view(),
                next: *next as int,
                found: found.deep_view(),
            },
            Phase::SystemCollection => Stage::SystemCollection,
            Phase::System => Stage::System,
            Phase::Processors { system } => Stage::Processors { system: system@ },
            Phase::Processor { system, links, next, chips } => Stage::Processor {
                system: system@,
                links: links.deep_view(),
                next: *next as int,
                chips: chips.deep_view(),
            },
            Phase::SystemInterfaces { system, chips } => Stage::SystemInterfaces {
                system: system@,
                chips: chips.deep_view(),
            },
            Phase::SystemInterface { system, chips, links, next, found } => Stage::SystemInterface {
                system: system@,
                chips: chips.deep_view(),
                links: links.deep_view(),
                next: *next as int,
                found: found.deep_view(),
            },
        }
    }
}

impl View for Session {
    type V = State;

    open spec fn view(&self) -> State {
        State { trail: self.progress@, stage: self.phase@ }
    }
}

impl View for Step {
    type V = Move;

    open spec fn view(&self) -> Move {
        match self {
            Step::Send(request, session) => Move::Send(request@, session@),
            Step::Done(Ok(lines)) => Move::Done(Ok(lines.deep_view())),
            Step::Done(Err(e)) => Move::Done(Err(e@)),
        }
    }
}

/// The request that reads the resource at `uri`, and the session that waits
/// for it.
fn fetch(progress: Progress, uri: String, phase: Phase) -> (r: Step)
    ensures
        r@ == plan::fetch(progress@, uri@, phase@),
{
    let request = do_get_request(&progress.config, uri.as_str());
    let mut progress = progress;
    progress.uri = uri;
    Step::Send(request, Session { progress, phase })
}

fn fail(e: RedfishError) -> (r: Step)
    ensures
        r@ == plan::fail(e@),
{
    Step::Done(Err(e))
}

fn copy_of(config: &Config) -> (r: Config)
    ensures
        r@ == config@,
{
    let arg = match &config.cmd.arg {
        Some(id) => Some(id.clone()),
        None => None,
    };
    Config {
        debug: config.debug,
        insecure: config.insecure,
        user: config.user.clone(),
        passwd: config.passwd.clone(),
        host: config.host.clone(),
        cmd: RedfishUtilCmd { cmd: config.cmd.cmd.clone(), arg },
        timeout: config.timeout,
    }
}

/// Starts a command: the first request, and the session that waits for its
/// reply.
pub fn begin(config: &Config, command: Command) -> (r: Step)
    ensures
        r@ == plan::begin(config@, command),
{
    let progress = Progress {
        config: copy_of(config),
        command,
        uri: String::new(),
        members: Vec::new(),
        next: 0,
        pending: Vec::new(),
        managers: Vec::new(),
        systems: Vec::new(),
        chassis: Vec::new(),
    };
    proof {
        assert(progress.members.deep_view() =~= Seq::<Seq<char>>::empty());
        assert(progress.pending.deep_view() =~= Seq::empty());
        assert(progress.managers.deep_view() =~= Seq::empty());
        assert(progress.systems.deep_view() =~= Seq::empty());
        assert(progress.chassis.deep_view() =~= Seq::empty());
    }
    match command {
        Command::Chassis => fetch(
            progress,
            String::from_str("/redfish/v1/Chassis"),
            Phase::ChassisCollection,
        ),
        Command::System => fetch(progress, String::from_str("/redfish/v1"), Phase::Root),
        Command::Version => fetch(progress, String::from_str("/redfish/v1"), Phase::Version),
        _ => fetch(progress, String::from_str("/redfish/v1/Systems"), Phase::SelectSystem),
    }
}

/// Starts the command of a configuration. The command must be one of the
/// thirteen that `command_of` knows.
pub fn run(config: &Config) -> (r: Step)
    requires
        command_named(config.cmd.cmd@) is Some,
    ensures
        r@ == plan::start(config@),
{
    match command_of(config.cmd.cmd.as_str()) {
        Some(command) => begin(config, command),
        None => fail(RedfishError::Unsupported),
    }
}

fn after_select(progress: Progress, body: &str) -> (r: Step)
    ensures
        r@ == plan::after_select(progress@, json_text(body@)),
{
    match resolve_collection(body) {
        Err(e) => fail(e),
        Ok(members) => match select_system(&progress.config.cmd.arg, &members) {
            Some(uri) => fetch(progress, uri, Phase::InspectSystem),
            None => fail(RedfishError::Mismatch),
        },
    }
}

fn after_inspect(progress: Progress, body: &str) -> (r: Step)
    ensures
        r@ == plan::after_inspect(progress@, json_text(body@)),
{
    match RedfishSystem::read(body, progress.uri.as_str()) {
        Err(e) => fail(e),
        Ok(system) => match act(&progress.config, progress.command, &system) {
            Ok(request) => Step::Send(request, Session { progress, phase: Phase::Submit }),
            Err(e) => fail(e),
        },
    }
}

fn after_version(progress: Progress, body: &str) -> (r: Step)
    ensures
        r@ == plan::after_version(progress@, json_text(body@)),
{
    match RedfishRootService::read(body) {
        Err(e) => fail(e),
        Ok(root) => Step::Done(Ok(show_version(&root))),
    }
}

fn visit_chassis(progress: Progress) -> (r: Step)
    ensures
        r@ == plan::visit_chassis(progress@),
{
    if progress.next < progress.members.len() {
        let uri = progress.members[progress.next].clone();
        let mut progress = progress;
        progress.next = progress.next + 1;
        fetch(progress, uri, Phase::Chassis)
    } else {
        Step::Done(Ok(show_chassis(&progress.chassis)))
    }
}

fn chassis_done(
    progress: Progress,
    chassis: RedfishChassis,
    power: Option<RedfishPower>,
    thermal: Option<RedfishThermal>,
) -> (r: Step)
    ensures
        r@ == plan::chassis_done(progress@, chassis@, power.deep_view(), thermal.deep_view()),
{
    let mut progress = progress;
    let ghost before = progress.chassis.deep_view();
    let entry = ChassisReport { chassis, power, thermal };
    progress.chassis.push(entry);
    assert(progress.chassis.deep_view() =~= before.push(entry@));
    visit_chassis(progress)
}

fn chassis_thermal(progress: Progress, chassis: RedfishChassis, power: Option<RedfishPower>) -> (r: Step)
    ensures
        r@ == plan::chassis_thermal(progress@, chassis@, power.deep_view()),
{
    let target = match &chassis.thermal {
        Some(link) => Some(link.uri.clone()),
        None => None,
    };
    match target {
        Some(uri) => fetch(progress, uri, Phase::Thermal { chassis, power }),
        None => chassis_done(progress, chassis, power, None),
    }
}

fn chassis_power(progress: Progress, chassis: RedfishChassis) -> (r: Step)
    ensures
        r@ == plan::chassis_power(progress@, chassis@),
{
    let target = match &chassis.power {
        Some(link) => Some(link.uri.clone()),
        None => None,
    };
    match target {
        Some(uri) => fetch(progress, uri, Phase::Power { chassis }),
        None => chassis_thermal(progress, chassis, None),
    }
}

fn after_chassis_collection(progress: Progress, body: &str) -> (r: Step)
    ensures
        r@ == plan::after_chassis_collection(progress@, json_text(body@)),
{
    match resolve_collection(body) {
        Err(e) => fail(e),
        Ok(members) => {
            let mut progress = progress;
            progress.members = members;
            progress.next = 0;
            visit_chassis(progress)
        },
    }
}

fn after_chassis(progress: Progress, body: &str) -> (r: Step)
    ensures
        r@ == plan::after_chassis(progress@, json_text(body@)),
{
    match RedfishChassis::read(body, progress.uri.as_str()) {
        Err(e) => fail(e),
        Ok(chassis) => chassis_power(progress, chassis),
    }
}

fn after_power(progress: Progress, chassis: RedfishChassis, body: &str) -> (r: Step)
    ensures
        r@ == plan::after_power(progress@, chassis@, json_text(body@)),
{
    match RedfishPower::read(body, progress.uri.as_str()) {
        Err(e) => fail(e),
        Ok(power) => chassis_thermal(progress, chassis, Some(power)),
    }
}

fn after_thermal(
    progress: Progress,
    chassis: RedfishChassis,
    power: Option<RedfishPower>,
    body: &str,
) -> (r:
    Step)
    ensures
        r@ == plan::after_thermal(progress@, chassis@, power.deep_view(), json_text(body@)),
{
    match RedfishThermal::read(body, progress.uri.as_str()) {
        Err(e) => fail(e),
        Ok(thermal) => chassis_done(progress, chassis, power, Some(thermal)),
    }
}

fn visit_system(progress: Progress) -> (r: Step)
    ensures
        r@ == plan::visit_system(progress@),
{
    if progress.next < progress.members.len() {
        let uri = progress.members[progress.next].clone();
        let mut progress = progress;
        progress.next = progress.next + 1;
        fetch(progress, uri, Phase::System)
    } else {
        Step::Done(Ok(show_system(&progress.managers, &progress.systems)))
    }
}

fn attend_managers(progress: Progress) -> (r: Step)
    ensures
        r@ == plan::attend_managers(progress@),
{
    let ghost start = progress@;
    let mut rest = progress;
    while rest.pending.len() > 0
        invariant
            start == progress@,
            plan::attend_managers(rest@) == plan::attend_managers(start),
        decreases rest.pending.len(),
    {
        let ghost before = rest@;
        let manager = rest.pending.remove(0);
        assert(rest.pending.deep_view() =~= before.pending.drop_first());
        let target = match &manager.eth_intfs {
            Some(link) => Some(link.uri.clone()),
            None => None,
        };
        match target {
            Some(uri) => {
                return fetch(rest, uri, Phase::ManagerInterfaces { manager });
            },
            None => {
                let ghost done = rest.managers.deep_view();
                let entry = ManagerReport { manager, eth_intfs: None };
                rest.managers.push(entry);
                assert(rest.managers.deep_view() =~= done.push(entry@));
            },
        }
    }
    fetch(rest, String::from_str("/redfish/v1/Systems"), Phase::SystemCollection)
}

fn visit_manager(progress: Progress) -> (r: Step)
    ensures
        r@ == plan::visit_manager(progress@),
{
    if progress.next < progress.members.len() {
        let uri = progress.members[progress.next].clone();
        let mut progress = progress;
        progress.next = progress.next + 1;
        fetch(progress, uri, Phase::Manager)
    } else {
        attend_managers(progress)
    }
}

fn visit_manager_interface(
    progress: Progress,
    manager: RedfishManager,
    links: Vec<String>,
    next: usize,
    found: Vec<RedfishEthernetIntf>,
) -> (r: Step)
    ensures
        r@ == plan::visit_manager_interface(
            progress@,
            manager@,
            links.deep_view(),
            next as int,
            found.deep_view(),
        ),
{
    if next < links.len() {
        let uri = links[next].clone();
        fetch(progress, uri, Phase::ManagerInterface { manager, links, next: next + 1, found })
    } else {
        let mut progress = progress;
        let ghost done = progress.managers.deep_view();
        let entry = ManagerReport { manager, eth_intfs: Some(found) };
        progress.managers.push(entry);
        assert(progress.managers.deep_view() =~= done.push(entry@));
        attend_managers(progress)
    }
}

fn after_root(progress: Progress, body: &str) -> (r: Step)
    ensures
        r@ == plan::after_root(progress@, json_text(body@)),
{
    match RedfishRootService::read(body) {
        Err(e) => fail(e),
        Ok(root) => fetch(progress, root.mngrs.uri, Phase::ManagerCollection),
    }
}

fn after_manager_collection(progress: Progress, body: &str) -> (r: Step)
    ensures
        r@ == plan::after_manager_collection(progress@, json_text(body@)),
{
    match resolve_collection(body) {
        Err(e) => fail(e),
        Ok(members) => {
            let mut progress = progress;
            progress.members = members;
            progress.next = 0;
            visit_manager(progress)
        },
    }
}

fn after_manager(progress: Progress, body: &str) -> (r: Step)
    ensures
        r@ == plan::after_manager(progress@, json_text(body@)),
{
    match RedfishManager::read(body, progress.uri.as_str()) {
        Err(e) => fail(e),
        Ok(manager) => {
            let mut progress = progress;
            let ghost before = progress.pending.deep_view();
            let ghost m = manager@;
            progress.pending.push(manager);
            assert(progress.pending.deep_view() =~= before.push(m));
            visit_manager(progress)
        },
    }
}

fn after_manager_interfaces(progress: Progress, manager: RedfishManager, body: &str) -> (r: Step)
    ensures
        r@ == plan::after_manager_interfaces(progress@, manager@, json_text(body@)),
{
    match resolve_collection(body) {
        Err(e) => fail(e),
        Ok(members) => {
            let found: Vec<RedfishEthernetIntf> = Vec::new();
            assert(found.deep_view() =~= Seq::empty());
            visit_manager_interface(progress, manager, members, 0, found)
        },
    }
}

fn after_manager_interface(
    progress: Progress,
    manager: RedfishManager,
    links: Vec<String>,
    next: usize,
    found: Vec<RedfishEthernetIntf>,
    body: &str,
) -> (r: Step)
    ensures
        r@ == plan::after_manager_interface(
            progress@,
            manager@,
            links.deep_view(),
            next as int,
            found.deep_view(),
            json_text(body@),
        ),
{
    match RedfishEthernetIntf::read(body, progress.uri.as_str()) {
        Err(e) => fail(e),
        Ok(e) => {
            let mut found = found;
            let ghost before = found.deep_view();
            let ghost item = e@;
            found.push(e);
            assert(found.deep_view() =~= before.push(item));
            visit_manager_interface(progress, manager, links, next, found)
        },
    }
}

fn system_done(
    progress: Progress,
    system: RedfishSystem,
    chips: Vec<RedfishProcessor>,
    eth_intfs: Option<Vec<RedfishEthernetIntf>>,
) -> (r: Step)
    ensures
        r@ == plan::system_done(progress@, system@, chips.deep_view(), eth_intfs.deep_view()),
{
    let mut progress = progress;
    let ghost before = progress.systems.deep_view();
    let entry = SystemReport { system, chips, eth_intfs };
    progress.systems.push(entry);
    assert(progress.systems.deep_view() =~= before.push(entry@));
    visit_system(progress)
}

fn visit_system_interface(
    progress: Progress,
    system: RedfishSystem,
    chips: Vec<RedfishProcessor>,
    links: Vec<String>,
    next: usize,
    found: Vec<RedfishEthernetIntf>,
) -> (r: Step)
    ensures
        r@ == plan::visit_system_interface(
            progress@,
            system@,
            chips.deep_view(),
            links.deep_view(),
            next as int,
            found.deep_view(),
        ),
{
    if next < links.len() {
        let uri = links[next].clone();
        fetch(progress, uri, Phase::SystemInterface { system, chips, links, next: next + 1, found })
    } else {
        system_done(progress, system, chips, Some(found))
    }
}

fn system_interfaces(
    progress: Progress,
    system: RedfishSystem,
    chips: Vec<RedfishProcessor>,
) -> (r: Step)
    ensures
        r@ == plan::system_interfaces(progress@, system@, chips.deep_view()),
{
    let target = match &system.eth_intfs {
        Some(link) => Some(link.uri.clone()),
        None => None,
    };
    match target {
        Some(uri) => fetch(progress, uri, Phase::SystemInterfaces { system, chips }),
        None => system_done(progress, system, chips, None),
    }
}

fn visit_processor(
    progress: Progress,
    system: RedfishSystem,
    links: Vec<String>,
    next: usize,
    chips: Vec<RedfishProcessor>,
) -> (r: Step)
    ensures
        r@ == plan::visit_processor(
            progress@,
            system@,
            links.deep_view(),
            next as int,
            chips.deep_view(),
        ),
{
    if next < links.len() {
        let uri = links[next].clone();
        fetch(progress, uri, Phase::Processor { system, links, next: next + 1, chips })
    } else {
        system_interfaces(progress, system, chips)
    }
}

fn after_system_collection(progress: Progress, body: &str) -> (r: Step)
    ensures
        r@ == plan::after_system_collection(progress@, json_text(body@)),
{
    match resolve_collection(body) {
        Err(e) => fail(e),
        Ok(members) => {
            let mut progress = progress;
            progress.members = members;
            progress.next = 0;
            visit_system(progress)
        },
    }
}

fn after_system(progress: Progress, body: &str) -> (r: Step)
    ensures
        r@ == plan::after_system(progress@, json_text(body@)),
{
    match RedfishSystem::read(body, progress.uri.as_str()) {
        Err(e) => fail(e),
        Ok(system) => {
            let uri = system.chips.uri.clone();
            fetch(progress, uri, Phase::Processors { system })
        },
    }
}

fn after_processors(progress: Progress, system: RedfishSystem, body: &str) -> (r: Step)
    ensures
        r@ == plan::after_processors(progress@, system@, json_text(body@)),
{
    match resolve_collection(body) {
        Err(e) => fail(e),
        Ok(members) => {
            let chips: Vec<RedfishProcessor> = Vec::new();
            assert(chips.deep_view() =~= Seq::empty());
            visit_processor(progress, system, members, 0, chips)
        },
    }
}

fn after_processor(
    progress: Progress,
    system: RedfishSystem,
    links: Vec<String>,
    next: usize,
    chips: Vec<RedfishProcessor>,
    body: &str,
) -> (r: Step)
    ensures
        r@ == plan::after_processor(
            progress@,
            system@,
            links.deep_view(),
            next as int,
            chips.deep_view(),
            json_text(body@),
        ),
{
    match RedfishProcessor::read(body, progress.uri.as_str()) {
        Err(e) => fail(e),
        Ok(chip) => {
            let mut chips = chips;
            let ghost before = chips.deep_view();
            let ghost item = chip@;
            chips.push(chip);
            assert(chips.deep_view() =~= before.push(item));
            visit_processor(progress, system, links, next, chips)
        },
    }
}

fn after_system_interfaces(
    progress: Progress,
    system: RedfishSystem,
    chips: Vec<RedfishProcessor>,
    body: &str,
) -> (r: Step)
    ensures
        r@ == plan::after_system_interfaces(
            progress@,
            system@,
            chips.deep_view(),
            json_text(body@),
        ),
{
    match resolve_collection(body) {
        Err(e) => fail(e),
        Ok(members) => {
            let found: Vec<RedfishEthernetIntf> = Vec::new();
            assert(found.deep_view() =~= Seq::empty());
            visit_system_interface(progress, system, chips, members, 0, found)
        },
    }
}

fn after_system_interface(
    progress: Progress,
    system: RedfishSystem,
    chips: Vec<RedfishProcessor>,
    links: Vec<String>,
    next: usize,
    found: Vec<RedfishEthernetIntf>,
    body: &str,
) -> (r: Step)
    ensures
        r@ == plan::after_system_interface(
            progress@,
            system@,
            chips.deep_view(),
            links.deep_view(),
            next as int,
            found.deep_view(),
            json_text(body@),
        ),
{
    match RedfishEthernetIntf::read(body, progress.uri.as_str()) {
        Err(e) => fail(e),
        Ok(e) => {
            let mut found = found;
            let ghost before = found.deep_view();
            let ghost item = e@;
            found.push(e);
            assert(found.deep_view() =~= before.push(item));
            visit_system_interface(progress, system, chips, links, next, found)
        },
    }
}

impl Session {
    /// The move after a body arrived with a status of success.
    pub fn proceed(self, body: &str) -> (r: Step)
        ensures
            r@ == plan::proceed(self@, body@),
    {
        let Session { progress, phase } = self;
        match phase {
            Phase::SelectSystem => after_select(progress, body),
            Phase::InspectSystem => after_inspect(progress, body),
            Phase::Submit => {
                let lines: Vec<String> = Vec::new();
                assert(lines.deep_view() =~= Seq::<Seq<char>>::empty());
                Step::Done(Ok(lines))
            },
            Phase::Version => after_version(progress, body),
            Phase::ChassisCollection => after_chassis_collection(progress, body),
            Phase::Chassis => after_chassis(progress, body),
            Phase::Power { chassis } => after_power(progress, chassis, body),
            Phase::Thermal { chassis, power } => after_thermal(progress, chassis, power, body),
            Phase::Root => after_root(progress, body),
            Phase::ManagerCollection => after_manager_collection(progress, body),
            Phase::Manager => after_manager(progress, body),
            Phase::ManagerInterfaces { manager } => after_manager_interfaces(progress, manager, body),
            Phase::ManagerInterface { manager, links, next, found } => after_manager_interface(
                progress,
                manager,
                links,
                next,
                found,
                body,
            ),
            Phase::SystemCollection => after_system_collection(progress, body),
            Phase::System => after_system(progress, body),
            Phase::Processors { system } => after_processors(progress, system, body),
            Phase::Processor { system, links, next, chips } => after_processor(
                progress,
                system,
                links,
                next,
                chips,
                body,
            ),
            Phase::SystemInterfaces { system, chips } => after_system_interfaces(
                progress,
                system,
                chips,
                body,
            ),
            Phase::SystemInterface { system, chips, links, next, found } => after_system_interface(
                progress,
                system,
                chips,
                links,
                next,
                found,
                body,
            ),
        }
    }

    /// Takes the reply to the request that is out and says what is next.
    /// A reply that is no success ends the command with its failure.
    pub fn advance(self, reply: Reply) -> (r: Step)
        ensures
            r@ == plan::step(self@, reply@),
    {
        match receive(reply) {
            Err(e) => fail(e),
            Ok(body) => self.proceed(body.as_str()),
        }
    }
}

} // verus!
