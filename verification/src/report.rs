//! The reports: what was gathered for each command, and the lines that show
//! it. A part that the controller did not report gets no line.

use crate::model::{
    Address, Chassis, Fan, Interface, Manager, Power, Processor, Root, Status, Supply, System,
    Thermal,
};
use crate::redfish::{
    RedfishChassis, RedfishEthernetIntf, RedfishFan, RedfishIpv4Address, RedfishManager,
    RedfishPower, RedfishPowerSupply, RedfishProcessor, RedfishRootService, RedfishStatus,
    RedfishSystem, RedfishThermal,
};
use crate::text::{aligned_line, count_text, decimal, field_line, number_text};
use vstd::prelude::*;
use vstd::string::*;

verus! {

/// A chassis with the resources that it links to, where it links to them.
#[derive(Debug)]
pub struct ChassisReport {
    pub chassis: RedfishChassis,
    pub power: Option<RedfishPower>,
    pub thermal: Option<RedfishThermal>,
}

/// A manager with its network interfaces, where it links to them.
#[derive(Debug)]
pub struct ManagerReport {
    pub manager: RedfishManager,
    pub eth_intfs: Option<Vec<RedfishEthernetIntf>>,
}

/// A system with its processors and, where it links to them, its network
/// interfaces.
#[derive(Debug)]
pub struct SystemReport {
    pub system: RedfishSystem,
    pub chips: Vec<RedfishProcessor>,
    pub eth_intfs: Option<Vec<RedfishEthernetIntf>>,
}

/// A chassis report as a mathematical value.
pub struct ChassisEntry {
    pub chassis: Chassis,
    pub power: Option<Power>,
    pub thermal: Option<Thermal>,
}

/// A manager report as a mathematical value.
pub struct ManagerEntry {
    pub manager: Manager,
    pub eth_intfs: Option<Seq<Interface>>,
}

/// A system report as a mathematical value.
pub struct SystemEntry {
    pub system: System,
    pub chips: Seq<Processor>,
    pub eth_intfs: Option<Seq<Interface>>,
}

impl DeepView for ChassisReport {
    type V = ChassisEntry;

    open spec fn deep_view(&self) -> ChassisEntry {
        ChassisEntry {
            chassis: self.chassis.deep_view(),
            power: self.power.deep_view(),
            thermal: self.thermal.deep_view(),
        }
    }
}

impl View for ChassisReport {
    type V = ChassisEntry;

    open spec fn view(&self) -> ChassisEntry {
        self.deep_view()
    }
}

impl DeepView for ManagerReport {
    type V = ManagerEntry;

    open spec fn deep_view(&self) -> ManagerEntry {
        ManagerEntry { manager: self.manager.deep_view(), eth_intfs: self.eth_intfs.deep_view() }
    }
}

impl View for ManagerReport {
    type V = ManagerEntry;

    open spec fn view(&self) -> ManagerEntry {
        self.deep_view()
    }
}

impl DeepView for SystemReport {
    type V = SystemEntry;

    open spec fn deep_view(&self) -> SystemEntry {
        SystemEntry {
            system: self.system.deep_view(),
            chips: self.chips.deep_view(),
            eth_intfs: self.eth_intfs.deep_view(),
        }
    }
}

impl View for SystemReport {
    type V = SystemEntry;

    open spec fn view(&self) -> SystemEntry {
        self.deep_view()
    }
}

/// The line of a part that may be missing: one line where it is reported,
/// none where it is not.
pub open spec fn maybe_line(
    indent: nat,
    label: Seq<char>,
    value: Option<Seq<char>>,
) -> Seq<Seq<char>> {
    match value {
        Some(v) => seq![field_line(indent, label, v)],
        None => Seq::empty(),
    }
}

/// The lines of a status: one for each part that is reported, in the order
/// state, health, health rollup.
pub open spec fn status_lines(status: Status, pad: nat) -> Seq<Seq<char>> {
    maybe_line(pad, "State:"@, status.state) + maybe_line(pad, "Health:"@, status.health)
        + maybe_line(pad, "Health Rollup:"@, status.health_rollup)
}

/// The lines of one IPv4 address.
pub open spec fn address_lines(a: Address) -> Seq<Seq<char>> {
    seq![
        field_line(4, "IPv4 Address:"@, a.address),
        field_line(4, "IPv4 Subnet:"@, a.subnet),
        field_line(4, "IPv4 Gateway:"@, a.gateway),
        field_line(4, "IPv4 Source:"@, a.origin),
    ]
}

/// The lines of some addresses, in order.
pub open spec fn addresses_lines(items: Seq<Address>) -> Seq<Seq<char>>
    decreases items.len(),
{
    if items.len() == 0 {
        Seq::empty()
    } else {
        addresses_lines(items.drop_last()) + address_lines(items.last())
    }
}

/// The lines of one network interface, closed by an empty line.
pub open spec fn interface_lines(e: Interface) -> Seq<Seq<char>> {
    seq![field_line(4, "Label:"@, e.name)] + maybe_line(4, "MAC Address:"@, e.mac_addr)
        + maybe_line(4, "Link State:"@, e.link_state) + (match e.ipv4 {
        Some(items) => addresses_lines(items),
        None => Seq::empty(),
    }) + seq!["    Status"@] + status_lines(e.status, 6) + seq![Seq::<char>::empty()]
}

/// The lines of some network interfaces, in order.
pub open spec fn each_interface(items: Seq<Interface>) -> Seq<Seq<char>>
    decreases items.len(),
{
    if items.len() == 0 {
        Seq::empty()
    } else {
        each_interface(items.drop_last()) + interface_lines(items.last())
    }
}

/// The section on network interfaces: an empty line, the heading, the
/// interfaces.
pub open spec fn interfaces_lines(items: Seq<Interface>) -> Seq<Seq<char>> {
    seq![Seq::<char>::empty(), "  Ethernet Interfaces"@] + each_interface(items)
}

/// The lines of one power supply, closed by an empty line.
pub open spec fn supply_lines(p: Supply) -> Seq<Seq<char>> {
    seq![field_line(4, "Label:"@, p.name)] + maybe_line(4, "Model:"@, p.model) + maybe_line(
        4,
        "Serial:"@,
        p.serial,
    ) + status_lines(p.status, 4) + seq![Seq::<char>::empty()]
}

/// The lines of some power supplies, in order.
pub open spec fn supplies_lines(items: Seq<Supply>) -> Seq<Seq<char>>
    decreases items.len(),
{
    if items.len() == 0 {
        Seq::empty()
    } else {
        supplies_lines(items.drop_last()) + supply_lines(items.last())
    }
}

/// The label of a fan: its name where that is reported, else its name under
/// the older member, else none.
pub open spec fn fan_label(fan: Fan) -> Option<Seq<char>> {
    if fan.name is Some {
        fan.name
    } else {
        fan.fanname
    }
}

/// The lines of one fan, closed by an empty line.
pub open spec fn fan_lines(fan: Fan) -> Seq<Seq<char>> {
    maybe_line(4, "Label:"@, fan_label(fan)) + status_lines(fan.status, 4) + seq![
        Seq::<char>::empty(),
    ]
}

/// The lines of some fans, in order.
pub open spec fn fans_lines(items: Seq<Fan>) -> Seq<Seq<char>>
    decreases items.len(),
{
    if items.len() == 0 {
        Seq::empty()
    } else {
        fans_lines(items.drop_last()) + fan_lines(items.last())
    }
}

/// The lines on a chassis itself: what it is, and its status where it
/// reports one.
pub open spec fn chassis_head(c: Chassis) -> Seq<Seq<char>> {
    seq![
        "Chassis Details"@,
        field_line(2, "Name:"@, c.name),
        field_line(2, "Type:"@, c.chassis_type),
    ] + maybe_line(2, "Manufacturer:"@, c.manufacturer) + seq![
        field_line(2, "Serial Number:"@, c.serial_num),
        field_line(2, "Part Number:"@, c.part_num),
    ] + (match c.status {
        Some(s) => status_lines(s, 2),
        None => Seq::empty(),
    })
}

/// The section on power supplies, where the chassis has a power resource:
/// an empty line, the heading, the supplies.
pub open spec fn power_section(power: Option<Power>) -> Seq<Seq<char>> {
    match power {
        Some(p) => seq![Seq::<char>::empty(), "  Power Supplies"@] + supplies_lines(
            p.power_supplies,
        ),
        None => Seq::empty(),
    }
}

/// The section on fans, where the chassis has a thermal resource: the
/// heading, the fans.
pub open spec fn thermal_section(thermal: Option<Thermal>) -> Seq<Seq<char>> {
    match thermal {
        Some(t) => seq!["  Fans"@] + fans_lines(t.fans),
        None => Seq::empty(),
    }
}

/// The lines of one chassis with its power supplies and fans.
pub open spec fn chassis_lines(entry: ChassisEntry) -> Seq<Seq<char>> {
    chassis_head(entry.chassis) + power_section(entry.power) + thermal_section(entry.thermal)
}

/// The lines of some chassis, in order.
pub open spec fn each_chassis(items: Seq<ChassisEntry>) -> Seq<Seq<char>>
    decreases items.len(),
{
    if items.len() == 0 {
        Seq::empty()
    } else {
        each_chassis(items.drop_last()) + chassis_lines(items.last())
    }
}

/// The chassis report: how many there are, then each of them.
#[verifier::opaque]
pub open spec fn chassis_report(items: Seq<ChassisEntry>) -> Seq<Seq<char>> {
    seq!["Number of Chassis: "@ + decimal(items.len() as int)] + each_chassis(items)
}

/// The consoles of a manager that are switched on, by name.
pub open spec fn consoles(m: Manager) -> Seq<char> {
    (if m.cons_graph is Some && m.cons_graph->Some_0.enabled {
        "KVM "@
    } else {
        Seq::empty()
    }) + (if m.cons_serial is Some && m.cons_serial->Some_0.enabled {
        "Serial "@
    } else {
        Seq::empty()
    }) + (if m.cons_shell is Some && m.cons_shell->Some_0.enabled {
        "CLI"@
    } else {
        Seq::empty()
    })
}

/// The lines of one manager with its network interfaces, closed by an empty
/// line.
pub open spec fn manager_lines(entry: ManagerEntry) -> Seq<Seq<char>> {
    let m = entry.manager;
    seq![field_line(2, "Type:"@, m.mngr_type)] + maybe_line(2, "Model:"@, m.model) + maybe_line(
        2,
        "Firmware Version:"@,
        m.fw_version,
    ) + seq![field_line(2, "Console Types:"@, consoles(m)), "  Status"@] + status_lines(
        m.status,
        4,
    ) + (match entry.eth_intfs {
        Some(items) => interfaces_lines(items),
        None => Seq::empty(),
    }) + seq![Seq::<char>::empty()]
}

/// The lines of some managers, in order.
pub open spec fn each_manager(items: Seq<ManagerEntry>) -> Seq<Seq<char>>
    decreases items.len(),
{
    if items.len() == 0 {
        Seq::empty()
    } else {
        each_manager(items.drop_last()) + manager_lines(items.last())
    }
}

/// The lines on what a processor is, opened by an empty line.
pub open spec fn processor_make(p: Processor) -> Seq<Seq<char>> {
    seq![
        Seq::<char>::empty(),
        field_line(4, "Label:"@, p.socket),
        field_line(4, "Manufacturer:"@, p.manufacturer),
        field_line(4, "Brand:"@, p.brand),
    ] + maybe_line(4, "Family:"@, p.id.family) + maybe_line(4, "Model:"@, p.id.model) + maybe_line(
        4,
        "Stepping:"@,
        p.id.stepping,
    ) + maybe_line(4, "Ucode Version:"@, p.id.ucode_version)
}

/// The lines on the speed, the size and the status of a processor.
pub open spec fn processor_figures(p: Processor) -> Seq<Seq<char>> {
    seq![
        field_line(4, "Speed:"@, decimal(p.speed_mhz as int) + " MHz"@),
        field_line(4, "Total Cores:"@, decimal(p.ncores as int)),
        field_line(4, "Total Threads:"@, decimal(p.nthreads as int)),
        "    Status"@,
    ] + status_lines(p.status, 6)
}

/// The lines of one processor.
pub open spec fn processor_lines(p: Processor) -> Seq<Seq<char>> {
    processor_make(p) + processor_figures(p)
}

/// The lines of some processors, in order.
pub open spec fn each_processor(items: Seq<Processor>) -> Seq<Seq<char>>
    decreases items.len(),
{
    if items.len() == 0 {
        Seq::empty()
    } else {
        each_processor(items.drop_last()) + processor_lines(items.last())
    }
}

/// The lines on what a system is.
pub open spec fn system_identity(s: System) -> Seq<Seq<char>> {
    seq![
        "System Details"@,
        field_line(2, "Type:"@, s.sys_type),
        field_line(2, "Manufacturer:"@, s.manufacturer),
        field_line(2, "Model:"@, s.model),
        field_line(2, "Serial Number:"@, s.serial_num),
        field_line(2, "Part Number:"@, s.part_num),
    ] + maybe_line(2, "SKU:"@, s.sku) + maybe_line(2, "UUID:"@, s.uuid)
}

/// The lines on the state of a system: its firmware, its power, its
/// identify light, and the status of its memory.
pub open spec fn system_state(s: System) -> Seq<Seq<char>> {
    seq![field_line(2, "BIOS Version:"@, s.bios_vers)] + maybe_line(
        2,
        "Power Status:"@,
        s.pwr_state,
    ) + maybe_line(2, "Locate LED:"@, s.locate_led) + seq!["  Status"@] + status_lines(
        s.memory.status,
        4,
    )
}

/// The sections on the parts of a system: its processors, its memory and,
/// where it links to them, its network interfaces.
pub open spec fn system_parts(entry: SystemEntry) -> Seq<Seq<char>> {
    seq![Seq::<char>::empty(), "  Processors"@] + each_processor(entry.chips) + seq![
        Seq::<char>::empty(),
        "  Memory"@,
        field_line(4, "Total RAM:"@, decimal(entry.system.memory.total_memory as int) + " GiB"@),
    ] + (match entry.eth_intfs {
        Some(items) => interfaces_lines(items),
        None => Seq::empty(),
    })
}

/// The lines of one system with its processors, its memory and its network
/// interfaces.
pub open spec fn system_lines(entry: SystemEntry) -> Seq<Seq<char>> {
    system_identity(entry.system) + system_state(entry.system) + system_parts(entry)
}

/// The lines of some systems, in order.
pub open spec fn each_system(items: Seq<SystemEntry>) -> Seq<Seq<char>>
    decreases items.len(),
{
    if items.len() == 0 {
        Seq::empty()
    } else {
        each_system(items.drop_last()) + system_lines(items.last())
    }
}

/// The system report: the managers under their heading, then the systems.
#[verifier::opaque]
pub open spec fn system_report(
    managers: Seq<ManagerEntry>,
    systems: Seq<SystemEntry>,
) -> Seq<Seq<char>> {
    seq!["Managers"@] + each_manager(managers) + each_system(systems)
}

/// The version report.
#[verifier::opaque]
pub open spec fn version_report(root: Root) -> Seq<Seq<char>> {
    seq!["Redfish version: "@ + root.version]
}

/// Appends one line.
fn put(out: &mut Vec<String>, text: String)
    ensures
        final(out).deep_view() == old(out).deep_view().push(text@),
{
    out.push(text);
}

/// Appends a fixed line.
fn put_text(out: &mut Vec<String>, text: &str)
    ensures
        final(out).deep_view() == old(out).deep_view().push(text@),
{
    put(out, text.to_owned());
}

/// Appends an empty line.
fn put_blank(out: &mut Vec<String>)
    ensures
        final(out).deep_view() == old(out).deep_view().push(Seq::<char>::empty()),
{
    put(out, String::new());
}

/// Appends the line of a label and a value.
fn put_field(out: &mut Vec<String>, indent: usize, label: &str, value: &str)
    ensures
        final(out).deep_view() == old(out).deep_view().push(
            field_line(indent as nat, label@, value@),
        ),
{
    put(out, aligned_line(indent, label, value));
}

/// Appends the line of a part that may be missing.
fn put_maybe(out: &mut Vec<String>, indent: usize, label: &str, value: &Option<String>)
    ensures
        final(out).deep_view() == old(out).deep_view() + maybe_line(
            indent as nat,
            label@,
            value.deep_view(),
        ),
{
    match value {
        Some(v) => {
            put_field(out, indent, label, v.as_str());
        },
        None => {},
    }
}

/// Appends the lines of a status, each indented by `pad`: a line for the
/// state, the health and the health rollup, each only where it is reported.
pub fn print_status(out: &mut Vec<String>, status: &RedfishStatus, pad: usize)
    ensures
        final(out).deep_view() == old(out).deep_view() + status_lines(status@, pad as nat),
{
    put_maybe(out, pad, "State:", &status.state);
    put_maybe(out, pad, "Health:", &status.health);
    put_maybe(out, pad, "Health Rollup:", &status.health_rollup);
}

fn put_addresses(out: &mut Vec<String>, items: &Vec<RedfishIpv4Address>)
    ensures
        final(out).deep_view() == old(out).deep_view() + addresses_lines(items.deep_view()),
{
    let mut i: usize = 0;
    while i < items.len()
        invariant
            i <= items.len(),
            out.deep_view() == old(out).deep_view() + addresses_lines(items.deep_view().take(i as int)),
        decreases items.len() - i,
    {
        let a = &items[i];
        put_field(out, 4, "IPv4 Address:", a.address.as_str());
        put_field(out, 4, "IPv4 Subnet:", a.subnet.as_str());
        put_field(out, 4, "IPv4 Gateway:", a.gateway.as_str());
        put_field(out, 4, "IPv4 Source:", a.origin.as_str());
        assert(items.deep_view().take(i + 1).drop_last() =~= items.deep_view().take(i as int));
        i = i + 1;
    }
    assert(items.deep_view().take(items.len() as int) =~= items.deep_view());
}

fn put_interface(out: &mut Vec<String>, e: &RedfishEthernetIntf)
    ensures
        final(out).deep_view() == old(out).deep_view() + interface_lines(e@),
{
    put_field(out, 4, "Label:", e.name.as_str());
    put_maybe(out, 4, "MAC Address:", &e.mac_addr);
    put_maybe(out, 4, "Link State:", &e.link_state);
    match &e.ipv4 {
        Some(items) => {
            put_addresses(out, items);
        },
        None => {},
    }
    put_text(out, "    Status");
    print_status(out, &e.status, 6);
    put_blank(out);
}

/// Appends the section on network interfaces: an empty line, the heading,
/// then each interface with its addresses and its status.
pub fn print_ethernet_intfs(out: &mut Vec<String>, eths: &Vec<RedfishEthernetIntf>)
    ensures
        final(out).deep_view() == old(out).deep_view() + interfaces_lines(eths.deep_view()),
{
    put_blank(out);
    put_text(out, "  Ethernet Interfaces");
    let ghost start = out.deep_view();
    let mut i: usize = 0;
    while i < eths.len()
        invariant
            i <= eths.len(),
            out.deep_view() == start + each_interface(eths.deep_view().take(i as int)),
        decreases eths.len() - i,
    {
        put_interface(out, &eths[i]);
        assert(eths.deep_view().take(i + 1).drop_last() =~= eths.deep_view().take(i as int));
        i = i + 1;
    }
    assert(eths.deep_view().take(eths.len() as int) =~= eths.deep_view());
}

fn put_supplies(out: &mut Vec<String>, items: &Vec<RedfishPowerSupply>)
    ensures
        final(out).deep_view() == old(out).deep_view() + supplies_lines(items.deep_view()),
{
    let mut i: usize = 0;
    while i < items.len()
        invariant
            i <= items.len(),
            out.deep_view() == old(out).deep_view() + supplies_lines(items.deep_view().take(i as int)),
        decreases items.len() - i,
    {
        let ghost before = out.deep_view();
        let psu = &items[i];
        put_field(out, 4, "Label:", psu.name.as_str());
        put_maybe(out, 4, "Model:", &psu.model);
        put_maybe(out, 4, "Serial:", &psu.serial);
        print_status(out, &psu.status, 4);
        put_blank(out);
        proof {
            let all = items.deep_view();
            assert(all.take(i + 1).drop_last() =~= all.take(i as int));
            assert(out.deep_view() =~= before + supply_lines(psu.deep_view()));
        }
        i = i + 1;
    }
    assert(items.deep_view().take(items.len() as int) =~= items.deep_view());
}

/// The label of a fan: its name where that is reported, else its name under
/// the older member, else none.
pub fn fan_name(fan: &RedfishFan) -> (r: &Option<String>)
    ensures
        r.deep_view() == fan_label(fan@),
{
    if fan.name.is_some() {
        &fan.name
    } else {
        &fan.fanname
    }
}

fn put_fans(out: &mut Vec<String>, items: &Vec<RedfishFan>)
    ensures
        final(out).deep_view() == old(out).deep_view() + fans_lines(items.deep_view()),
{
    let mut i: usize = 0;
    while i < items.len()
        invariant
            i <= items.len(),
            out.deep_view() == old(out).deep_view() + fans_lines(items.deep_view().take(i as int)),
        decreases items.len() - i,
    {
        let fan = &items[i];
        put_maybe(out, 4, "Label:", fan_name(fan));
        print_status(out, &fan.status, 4);
        put_blank(out);
        assert(items.deep_view().take(i + 1).drop_last() =~= items.deep_view().take(i as int));
        i = i + 1;
    }
    assert(items.deep_view().take(items.len() as int) =~= items.deep_view());
}

fn put_chassis_head(out: &mut Vec<String>, chassis: &RedfishChassis)
    ensures
        final(out).deep_view() == old(out).deep_view() + chassis_head(chassis@),
{
    put_text(out, "Chassis Details");
    put_field(out, 2, "Name:", chassis.name.as_str());
    put_field(out, 2, "Type:", chassis.chassis_type.as_str());
    put_maybe(out, 2, "Manufacturer:", &chassis.manufacturer);
    put_field(out, 2, "Serial Number:", chassis.serial_num.as_str());
    put_field(out, 2, "Part Number:", chassis.part_num.as_str());
    match &chassis.status {
        Some(status) => {
            print_status(out, status, 2);
        },
        None => {},
    }
}

fn put_power(out: &mut Vec<String>, power: &Option<RedfishPower>)
    ensures
        final(out).deep_view() == old(out).deep_view() + power_section(power.deep_view()),
{
    match power {
        Some(p) => {
            put_blank(out);
            put_text(out, "  Power Supplies");
            put_supplies(out, &p.power_supplies);
        },
        None => {},
    }
}

fn put_thermal(out: &mut Vec<String>, thermal: &Option<RedfishThermal>)
    ensures
        final(out).deep_view() == old(out).deep_view() + thermal_section(thermal.deep_view()),
{
    match thermal {
        Some(t) => {
            put_text(out, "  Fans");
            put_fans(out, &t.fans);
        },
        None => {},
    }
}

fn put_chassis(out: &mut Vec<String>, entry: &ChassisReport)
    ensures
        final(out).deep_view() == old(out).deep_view() + chassis_lines(entry@),
{
    put_chassis_head(out, &entry.chassis);
    put_power(out, &entry.power);
    put_thermal(out, &entry.thermal);
}

/// The lines of the chassis report: the number of chassis, then each
/// chassis with its power supplies and its fans.
pub fn show_chassis(report: &Vec<ChassisReport>) -> (out: Vec<String>)
    ensures
        out.deep_view() == chassis_report(report.deep_view()),
{
    proof {
        reveal(chassis_report);
    }
    let mut out: Vec<String> = Vec::new();
    let mut first = String::from_str("Number of Chassis: ");
    first.append(count_text(report.len()).as_str());
    put(&mut out, first);
    let ghost start = out.deep_view();
    let mut i: usize = 0;
    while i < report.len()
        invariant
            i <= report.len(),
            out.deep_view() == start + each_chassis(report.deep_view().take(i as int)),
        decreases report.len() - i,
    {
        put_chassis(&mut out, &report[i]);
        assert(report.deep_view().take(i + 1).drop_last() =~= report.deep_view().take(i as int));
        i = i + 1;
    }
    assert(report.deep_view().take(report.len() as int) =~= report.deep_view());
    out
}

/// The consoles of a manager that are switched on, by name.
pub fn console_types(manager: &RedfishManager) -> (r: String)
    ensures
        r@ == consoles(manager@),
{
    let mut out = String::new();
    match &manager.cons_graph {
        Some(console) => {
            if console.enabled {
                out.append("KVM ");
            }
        },
        None => {},
    }
    match &manager.cons_serial {
        Some(console) => {
            if console.enabled {
                out.append("Serial ");
            }
        },
        None => {},
    }
    match &manager.cons_shell {
        Some(console) => {
            if console.enabled {
                out.append("CLI");
            }
        },
        None => {},
    }
    out
}

fn put_manager(out: &mut Vec<String>, entry: &ManagerReport)
    ensures
        final(out).deep_view() == old(out).deep_view() + manager_lines(entry@),
{
    let manager = &entry.manager;
    put_field(out, 2, "Type:", manager.mngr_type.as_str());
    put_maybe(out, 2, "Model:", &manager.model);
    put_maybe(out, 2, "Firmware Version:", &manager.fw_version);
    put_field(out, 2, "Console Types:", console_types(manager).as_str());
    put_text(out, "  Status");
    print_status(out, &manager.status, 4);
    match &entry.eth_intfs {
        Some(eths) => {
            print_ethernet_intfs(out, eths);
        },
        None => {},
    }
    put_blank(out);
}

fn put_processor_make(out: &mut Vec<String>, chip: &RedfishProcessor)
    ensures
        final(out).deep_view() == old(out).deep_view() + processor_make(chip@),
{
    put_blank(out);
    put_field(out, 4, "Label:", chip.socket.as_str());
    put_field(out, 4, "Manufacturer:", chip.manufacturer.as_str());
    put_field(out, 4, "Brand:", chip.brand.as_str());
    put_maybe(out, 4, "Family:", &chip.id.family);
    put_maybe(out, 4, "Model:", &chip.id.model);
    put_maybe(out, 4, "Stepping:", &chip.id.stepping);
    put_maybe(out, 4, "Ucode Version:", &chip.id.ucode_version);
}

fn put_processor_figures(out: &mut Vec<String>, chip: &RedfishProcessor)
    ensures
        final(out).deep_view() == old(out).deep_view() + processor_figures(chip@),
{
    let mut speed = number_text(chip.speed_mhz);
    speed.append(" MHz");
    put_field(out, 4, "Speed:", speed.as_str());
    put_field(out, 4, "Total Cores:", number_text(chip.ncores).as_str());
    put_field(out, 4, "Total Threads:", number_text(chip.nthreads).as_str());
    put_text(out, "    Status");
    print_status(out, &chip.status, 6);
}

fn put_processor(out: &mut Vec<String>, chip: &RedfishProcessor)
    ensures
        final(out).deep_view() == old(out).deep_view() + processor_lines(chip@),
{
    put_processor_make(out, chip);
    put_processor_figures(out, chip);
}

fn put_processors(out: &mut Vec<String>, items: &Vec<RedfishProcessor>)
    ensures
        final(out).deep_view() == old(out).deep_view() + each_processor(items.deep_view()),
{
    let mut i: usize = 0;
    while i < items.len()
        invariant
            i <= items.len(),
            out.deep_view() == old(out).deep_view() + each_processor(items.deep_view().take(i as int)),
        decreases items.len() - i,
    {
        put_processor(out, &items[i]);
        assert(items.deep_view().take(i + 1).drop_last() =~= items.deep_view().take(i as int));
        i = i + 1;
    }
    assert(items.deep_view().take(items.len() as int) =~= items.deep_view());
}

fn put_system_identity(out: &mut Vec<String>, system: &RedfishSystem)
    ensures
        final(out).deep_view() == old(out).deep_view() + system_identity(system@),
{
    put_text(out, "System Details");
    put_field(out, 2, "Type:", system.sys_type.as_str());
    put_field(out, 2, "Manufacturer:", system.manufacturer.as_str());
    put_field(out, 2, "Model:", system.model.as_str());
    put_field(out, 2, "Serial Number:", system.serial_num.as_str());
    put_field(out, 2, "Part Number:", system.part_num.as_str());
    put_maybe(out, 2, "SKU:", &system.sku);
    put_maybe(out, 2, "UUID:", &system.uuid);
}

fn put_system_state(out: &mut Vec<String>, system: &RedfishSystem)
    ensures
        final(out).deep_view() == old(out).deep_view() + system_state(system@),
{
    put_field(out, 2, "BIOS Version:", system.bios_vers.as_str());
    put_maybe(out, 2, "Power Status:", &system.pwr_state);
    put_maybe(out, 2, "Locate LED:", &system.locate_led);
    put_text(out, "  Status");
    print_status(out, &system.memory.status, 4);
}

fn put_system_parts(out: &mut Vec<String>, entry: &SystemReport)
    ensures
        final(out).deep_view() == old(out).deep_view() + system_parts(entry@),
{
    put_blank(out);
    put_text(out, "  Processors");
    put_processors(out, &entry.chips);
    put_blank(out);
    put_text(out, "  Memory");
    let mut total = number_text(entry.system.memory.total_memory);
    total.append(" GiB");
    put_field(out, 4, "Total RAM:", total.as_str());
    match &entry.eth_intfs {
        Some(eths) => {
            print_ethernet_intfs(out, eths);
        },
        None => {},
    }
}

fn put_system(out: &mut Vec<String>, entry: &SystemReport)
    ensures
        final(out).deep_view() == old(out).deep_view() + system_lines(entry@),
{
    put_system_identity(out, &entry.system);
    put_system_state(out, &entry.system);
    put_system_parts(out, entry);
}

/// The lines of the system report: the heading, each manager with its
/// consoles and network interfaces, then each system with its processors,
/// its memory and its network interfaces.
pub fn show_system(managers: &Vec<ManagerReport>, systems: &Vec<SystemReport>) -> (out: Vec<String>)
    ensures
        out.deep_view() == system_report(managers.deep_view(), systems.deep_view()),
{
    proof {
        reveal(system_report);
    }
    let mut out: Vec<String> = Vec::new();
    put_text(&mut out, "Managers");
    let ghost start = out.deep_view();
    let mut i: usize = 0;
    while i < managers.len()
        invariant
            i <= managers.len(),
            out.deep_view() == start + each_manager(managers.deep_view().take(i as int)),
        decreases managers.len() - i,
    {
        put_manager(&mut out, &managers[i]);
        assert(managers.deep_view().take(i + 1).drop_last()
            =~= managers.deep_view().take(i as int));
        i = i + 1;
    }
    assert(managers.deep_view().take(managers.len() as int) =~= managers.deep_view());
    let ghost middle = out.deep_view();
    let mut k: usize = 0;
    while k < systems.len()
        invariant
            k <= systems.len(),
            out.deep_view() == middle + each_system(systems.deep_view().take(k as int)),
        decreases systems.len() - k,
    {
        put_system(&mut out, &systems[k]);
        assert(systems.deep_view().take(k + 1).drop_last() =~= systems.deep_view().take(k as int));
        k = k + 1;
    }
    assert(systems.deep_view().take(systems.len() as int) =~= systems.deep_view());
    out
}

/// The line of the version report.
pub fn show_version(root: &RedfishRootService) -> (out: Vec<String>)
    ensures
        out.deep_view() == version_report(root@),
{
    proof {
        reveal(version_report);
    }
    let mut out: Vec<String> = Vec::new();
    let mut first = String::from_str("Redfish version: ");
    first.append(root.version.as_str());
    put(&mut out, first);
    out
}

} // verus!
