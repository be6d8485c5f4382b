//! The Redfish resources as the engine holds them, each read from one JSON
//! value. The address of a resource is the path it was fetched from, never
//! something found in its body.

use crate::error::{outcome, RedfishError};
use crate::json::{
    as_array, flag_field, flag_option, get_field, is_object, json_of, json_text, number_field,
    number_option, parse, text_field, text_option, texts_field, texts_option, Json,
};
use crate::model::{
    actions_of, address_of, addresses_of, boot_of, chassis_of, collection_of, console_of,
    empty_actions, empty_address, empty_boot, empty_chassis, empty_collection, empty_console,
    empty_fan, empty_interface, empty_link, empty_manager, empty_memory, empty_power,
    empty_processor, empty_processor_id, empty_processor_summary, empty_reset_action,
    empty_root, empty_status, empty_supply, empty_system, empty_thermal, fan_of, fans_of,
    fetched, interface_of, link_of, links, links_of, manager_of, memory_of, power_of,
    processor_id_of, processor_of, processor_summary_of, reset_action_of, root_of, status_of,
    supplies_of, supply_of, system_of, thermal_of,
};
use crate::model::{
    Actions, Address, Boot, Chassis, Collection, Console, Fan, Interface, Link, Manager, Memory,
    Power, Processor, ProcessorId, ProcessorSummary, ResetAction, Root, Status, Supply, System,
    Thermal,
};
use vstd::prelude::*;
use vstd::string::*;

verus! {

/// The condition of a resource. Each part is reported or not, on its own.
#[derive(Debug)]
pub struct RedfishStatus {
    pub state: Option<String>,
    pub health: Option<String>,
    pub health_rollup: Option<String>,
}

impl DeepView for RedfishStatus {
    type V = Status;

    open spec fn deep_view(&self) -> Status {
        Status {
            state: self.state.deep_view(),
            health: self.health.deep_view(),
            health_rollup: self.health_rollup.deep_view(),
        }
    }
}

impl View for RedfishStatus {
    type V = Status;

    open spec fn view(&self) -> Status {
        self.deep_view()
    }
}

impl Default for RedfishStatus {
    /// A status with nothing in it.
    fn default() -> (r: RedfishStatus)
        ensures
            r@ == empty_status(),
    {
        RedfishStatus { state: None, health: None, health_rollup: None }
    }
}

impl RedfishStatus {
    /// Reads a status from a JSON value; none where the value is no status.
    pub fn decode(v: &serde_json::Value) -> (r: Option<RedfishStatus>)
        ensures
            r.deep_view() == status_of(json_of(*v)),
    {
        proof {
            reveal(status_of);
        }
        if !is_object(v) {
            return None;
        }
        let state = text_option(v, "State")?;
        let health = text_option(v, "Health")?;
        let health_rollup = text_option(v, "HealthRollup")?;
        Some(RedfishStatus { state, health, health_rollup })
    }
}

/// A link to another resource.
#[derive(Debug)]
pub struct RedfishMember {
    pub uri: String,
}

impl DeepView for RedfishMember {
    type V = Link;

    open spec fn deep_view(&self) -> Link {
        Link {
            uri: self.uri@,
        }
    }
}

impl View for RedfishMember {
    type V = Link;

    open spec fn view(&self) -> Link {
        self.deep_view()
    }
}

impl Default for RedfishMember {
    /// A link with nothing in it.
    fn default() -> (r: RedfishMember)
        ensures
            r@ == empty_link(),
    {
        RedfishMember { uri: String::new() }
    }
}

impl RedfishMember {
    /// Reads a link from a JSON value; none where the value is no link.
    pub fn decode(v: &serde_json::Value) -> (r: Option<RedfishMember>)
        ensures
            r.deep_view() == link_of(json_of(*v)),
    {
        proof {
            reveal(link_of);
        }
        if !is_object(v) {
            return None;
        }
        let uri = text_field(v, "@odata.id")?;
        Some(RedfishMember { uri })
    }

    /// Reads a list of links from a JSON array, keeping its order; none where
    /// the value is no array or an item does not read.
    pub fn decode_all(v: &serde_json::Value) -> (r: Option<Vec<RedfishMember>>)
        ensures
            r.deep_view() == links_of(json_of(*v)),
    {
        let items = as_array(v)?;
        let ghost all = json_of(*v)->Array_0;
        let mut out: Vec<RedfishMember> = Vec::new();
        let mut i: usize = 0;
        while i < items.len()
            invariant
                i <= items.len(),
                json_of(*v) == Json::Array(all),
                items@.len() == all.len(),
                forall|k: int| 0 <= k < items@.len() ==> json_of(#[trigger] items@[k]) == all[k],
                out@.len() == i,
                forall|k: int| 0 <= k < i ==> link_of(#[trigger] all[k]) == Some(out@[k]@),
            decreases items.len() - i,
        {
            match RedfishMember::decode(&items[i]) {
                Some(item) => {
                    out.push(item);
                },
                None => {
                    assert(links_of(json_of(*v)) is None) by {
                        let read = |x: Json| link_of(x);
                        assert(read(all[i as int]) is None);
                    }
                    return None;
                },
            }
            i = i + 1;
        }
        assert(out.deep_view() =~= links_of(json_of(*v))->Some_0);
        Some(out)
    }
}

/// A collection: links to its members, in the order in which the controller
/// lists them.
#[derive(Debug)]
pub struct RedfishCollection {
    pub members: Vec<RedfishMember>,
}

impl DeepView for RedfishCollection {
    type V = Collection;

    open spec fn deep_view(&self) -> Collection {
        Collection {
            members: self.members.deep_view(),
        }
    }
}

impl View for RedfishCollection {
    type V = Collection;

    open spec fn view(&self) -> Collection {
        self.deep_view()
    }
}

impl Default for RedfishCollection {
    /// A collection with nothing in it.
    fn default() -> (r: RedfishCollection)
        ensures
            r@ == empty_collection(),
    {
        let members: Vec<RedfishMember> = Vec::new();
        assert(members.deep_view() =~= Seq::empty());
        RedfishCollection { members }
    }
}

impl RedfishCollection {
    /// Reads a collection from a JSON value; none where the value is no collection.
    pub fn decode(v: &serde_json::Value) -> (r: Option<RedfishCollection>)
        ensures
            r.deep_view() == collection_of(json_of(*v)),
    {
        proof {
            reveal(collection_of);
        }
        if !is_object(v) {
            return None;
        }
        let members = RedfishMember::decode_all(get_field(v, "Members")?)?;
        Some(RedfishCollection { members })
    }

    /// Reads the body of a response to a request for a collection. Fails with
    /// `Malformed` where the body is no JSON, with `Mismatch` where it is
    /// JSON and no collection.
    pub fn read(body: &str) -> (r: Result<RedfishCollection, RedfishError>)
        ensures
            outcome(r) == fetched(json_text(body@), |j: Json| collection_of(j)),
    {
        let v = match parse(body) {
            Ok(v) => v,
            Err(e) => {
                return Err(e);
            },
        };
        match RedfishCollection::decode(&v) {
            Some(x) => Ok(x),
            None => Err(RedfishError::Mismatch),
        }
    }

    /// The addresses of the members, in the collection's order.
    pub fn uris(&self) -> (r: Vec<String>)
        ensures
            r.deep_view() == links(self@),
    {
        let mut out: Vec<String> = Vec::new();
        let mut i: usize = 0;
        while i < self.members.len()
            invariant
                i <= self.members.len(),
                out@.len() == i,
                forall|k: int| 0 <= k < i ==> (#[trigger] out@[k])@ == self.members[k].uri@,
            decreases self.members.len() - i,
        {
            out.push(self.members[i].uri.clone());
            i = i + 1;
        }
        assert(out.deep_view() =~= links(self@));
        out
    }
}

/// The service root, where every traversal starts.
#[derive(Debug)]
pub struct RedfishRootService {
    pub version: String,
    pub mngrs: RedfishMember,
}

impl DeepView for RedfishRootService {
    type V = Root;

    open spec fn deep_view(&self) -> Root {
        Root {
            version: self.version@,
            mngrs: self.mngrs.deep_view(),
        }
    }
}

impl View for RedfishRootService {
    type V = Root;

    open spec fn view(&self) -> Root {
        self.deep_view()
    }
}

impl Default for RedfishRootService {
    /// A root with nothing in it.
    fn default() -> (r: RedfishRootService)
        ensures
            r@ == empty_root(),
    {
        RedfishRootService { version: String::new(), mngrs: RedfishMember::default() }
    }
}

impl RedfishRootService {
    /// Reads a root from a JSON value; none where the value is no root.
    pub fn decode(v: &serde_json::Value) -> (r: Option<RedfishRootService>)
        ensures
            r.deep_view() == root_of(json_of(*v)),
    {
        proof {
            reveal(root_of);
        }
        if !is_object(v) {
            return None;
        }
        let version = text_field(v, "RedfishVersion")?;
        let mngrs = RedfishMember::decode(get_field(v, "Managers")?)?;
        Some(RedfishRootService { version, mngrs })
    }

    /// Reads the body of a response to a request for a root. Fails with
    /// `Malformed` where the body is no JSON, with `Mismatch` where it is
    /// JSON and no root.
    pub fn read(body: &str) -> (r: Result<RedfishRootService, RedfishError>)
        ensures
            outcome(r) == fetched(json_text(body@), |j: Json| root_of(j)),
    {
        let v = match parse(body) {
            Ok(v) => v,
            Err(e) => {
                return Err(e);
            },
        };
        match RedfishRootService::decode(&v) {
            Some(x) => Ok(x),
            None => Err(RedfishError::Mismatch),
        }
    }
}

/// The reset capability of a system: where to post a reset and which kinds it
/// takes.
#[derive(Debug)]
pub struct RedfishActionReset {
    pub target: String,
    pub reset_type: Vec<String>,
}

impl DeepView for RedfishActionReset {
    type V = ResetAction;

    open spec fn deep_view(&self) -> ResetAction {
        ResetAction {
            target: self.target@,
            reset_type: self.reset_type.deep_view(),
        }
    }
}

impl View for RedfishActionReset {
    type V = ResetAction;

    open spec fn view(&self) -> ResetAction {
        self.deep_view()
    }
}

impl Default for RedfishActionReset {
    /// A reset action with nothing in it.
    fn default() -> (r: RedfishActionReset)
        ensures
            r@ == empty_reset_action(),
    {
        let reset_type: Vec<String> = Vec::new();
        assert(reset_type.deep_view() =~= Seq::empty());
        RedfishActionReset { target: String::new(), reset_type }
    }
}

impl RedfishActionReset {
    /// Reads a reset action from a JSON value; none where the value is no reset action.
    pub fn decode(v: &serde_json::Value) -> (r: Option<RedfishActionReset>)
        ensures
            r.deep_view() == reset_action_of(json_of(*v)),
    {
        proof {
            reveal(reset_action_of);
        }
        if !is_object(v) {
            return None;
        }
        let target = text_field(v, "target")?;
        let reset_type = texts_field(v, "ResetType@Redfish.AllowableValues")?;
        Some(RedfishActionReset { target, reset_type })
    }
}

/// One way to reach a manager's console.
#[derive(Debug)]
pub struct RedfishConsole {
    pub enabled: bool,
    pub max_sessions: i32,
}

impl DeepView for RedfishConsole {
    type V = Console;

    open spec fn deep_view(&self) -> Console {
        Console {
            enabled: self.enabled,
            max_sessions: self.max_sessions,
        }
    }
}

impl View for RedfishConsole {
    type V = Console;

    open spec fn view(&self) -> Console {
        self.deep_view()
    }
}

impl Default for RedfishConsole {
    /// A console with nothing in it.
    fn default() -> (r: RedfishConsole)
        ensures
            r@ == empty_console(),
    {
        RedfishConsole { enabled: false, max_sessions: 0 }
    }
}

impl RedfishConsole {
    /// Reads a console from a JSON value; none where the value is no console.
    pub fn decode(v: &serde_json::Value) -> (r: Option<RedfishConsole>)
        ensures
            r.deep_view() == console_of(json_of(*v)),
    {
        proof {
            reveal(console_of);
        }
        if !is_object(v) {
            return None;
        }
        let enabled = flag_field(v, "ServiceEnabled")?;
        let max_sessions = number_field(v, "MaxConcurrentSessions")?;
        Some(RedfishConsole { enabled, max_sessions })
    }
}

/// One IPv4 address of an interface.
#[derive(Debug)]
pub struct RedfishIpv4Address {
    pub address: String,
    pub subnet: String,
    pub origin: String,
    pub gateway: String,
}

impl DeepView for RedfishIpv4Address {
    type V = Address;

    open spec fn deep_view(&self) -> Address {
        Address {
            address: self.address@,
            subnet: self.subnet@,
            origin: self.origin@,
            gateway: self.gateway@,
        }
    }
}

impl View for RedfishIpv4Address {
    type V = Address;

    open spec fn view(&self) -> Address {
        self.deep_view()
    }
}

impl Default for RedfishIpv4Address {
    /// An address with nothing in it.
    fn default() -> (r: RedfishIpv4Address)
        ensures
            r@ == empty_address(),
    {
        RedfishIpv4Address {
            address: String::new(),
            subnet: String::new(),
            origin: String::new(),
            gateway: String::new(),
        }
    }
}

impl RedfishIpv4Address {
    /// Reads an address from a JSON value; none where the value is no address.
    pub fn decode(v: &serde_json::Value) -> (r: Option<RedfishIpv4Address>)
        ensures
            r.deep_view() == address_of(json_of(*v)),
    {
        proof {
            reveal(address_of);
        }
        if !is_object(v) {
            return None;
        }
        let address = text_field(v, "Address")?;
        let subnet = text_field(v, "SubnetMask")?;
        let origin = text_field(v, "AddressOrigin")?;
        let gateway = text_field(v, "Gateway")?;
        Some(RedfishIpv4Address { address, subnet, origin, gateway })
    }

    /// Reads a list of addresses from a JSON array, keeping its order; none where
    /// the value is no array or an item does not read.
    pub fn decode_all(v: &serde_json::Value) -> (r: Option<Vec<RedfishIpv4Address>>)
        ensures
            r.deep_view() == addresses_of(json_of(*v)),
    {
        let items = as_array(v)?;
        let ghost all = json_of(*v)->Array_0;
        let mut out: Vec<RedfishIpv4Address> = Vec::new();
        let mut i: usize = 0;
        while i < items.len()
            invariant
                i <= items.len(),
                json_of(*v) == Json::Array(all),
                items@.len() == all.len(),
                forall|k: int| 0 <= k < items@.len() ==> json_of(#[trigger] items@[k]) == all[k],
                out@.len() == i,
                forall|k: int| 0 <= k < i ==> address_of(#[trigger] all[k]) == Some(out@[k]@),
            decreases items.len() - i,
        {
            match RedfishIpv4Address::decode(&items[i]) {
                Some(item) => {
                    out.push(item);
                },
                None => {
                    assert(addresses_of(json_of(*v)) is None) by {
                        let read = |x: Json| address_of(x);
                        assert(read(all[i as int]) is None);
                    }
                    return None;
                },
            }
            i = i + 1;
        }
        assert(out.deep_view() =~= addresses_of(json_of(*v))->Some_0);
        Some(out)
    }
}

/// A physical enclosure.
#[derive(Debug)]
pub struct RedfishChassis {
    /// The path that the resource was fetched from.
    pub uri: String,
    pub name: String,
    pub chassis_type: String,
    pub manufacturer: Option<String>,
    pub serial_num: String,
    pub part_num: String,
    pub power: Option<RedfishMember>,
    pub thermal: Option<RedfishMember>,
    pub status: Option<RedfishStatus>,
}

impl DeepView for RedfishChassis {
    type V = Chassis;

    open spec fn deep_view(&self) -> Chassis {
        Chassis {
            uri: self.uri@,
            name: self.name@,
            chassis_type: self.chassis_type@,
            manufacturer: self.manufacturer.deep_view(),
            serial_num: self.serial_num@,
            part_num: self.part_num@,
            power: self.power.deep_view(),
            thermal: self.thermal.deep_view(),
            status: self.status.deep_view(),
        }
    }
}

impl View for RedfishChassis {
    type V = Chassis;

    open spec fn view(&self) -> Chassis {
        self.deep_view()
    }
}

impl Default for RedfishChassis {
    /// A chassis with nothing in it.
    fn default() -> (r: RedfishChassis)
        ensures
            r@ == empty_chassis(),
    {
        RedfishChassis {
            uri: String::new(),
            name: String::new(),
            chassis_type: String::new(),
            manufacturer: None,
            serial_num: String::new(),
            part_num: String::new(),
            power: None,
            thermal: None,
            status: None,
        }
    }
}

impl RedfishChassis {
    /// Reads a chassis from the body that was fetched from `uri`; none where
    /// the body is no chassis.
    pub fn decode(v: &serde_json::Value, uri: &str) -> (r: Option<RedfishChassis>)
        ensures
            r.deep_view() == chassis_of(json_of(*v), uri@),
    {
        proof {
            reveal(chassis_of);
        }
        if !is_object(v) {
            return None;
        }
        let name = text_field(v, "Name")?;
        let chassis_type = text_field(v, "ChassisType")?;
        let manufacturer = text_option(v, "Manufacturer")?;
        let serial_num = text_field(v, "SerialNumber")?;
        let part_num = text_field(v, "PartNumber")?;
        let power = match get_field(v, "Power") {
            Some(x) => Some(RedfishMember::decode(x)?),
            None => None,
        };
        let thermal = match get_field(v, "Thermal") {
            Some(x) => Some(RedfishMember::decode(x)?),
            None => None,
        };
        let status = match get_field(v, "Status") {
            Some(x) => Some(RedfishStatus::decode(x)?),
            None => None,
        };
        Some(
            RedfishChassis {
                uri: uri.to_owned(),
                name,
                chassis_type,
                manufacturer,
                serial_num,
                part_num,
                power,
                thermal,
                status,
            },
        )
    }

    /// Reads the body of a response to a request for the chassis at `uri`. Fails
    /// with `Malformed` where the body is no JSON, with `Mismatch` where it is
    /// JSON and no chassis.
    pub fn read(body: &str, uri: &str) -> (r: Result<RedfishChassis, RedfishError>)
        ensures
            outcome(r) == fetched(json_text(body@), |j: Json| chassis_of(j, uri@)),
    {
        let v = match parse(body) {
            Ok(v) => v,
            Err(e) => {
                return Err(e);
            },
        };
        match RedfishChassis::decode(&v, uri) {
            Some(x) => Ok(x),
            None => Err(RedfishError::Mismatch),
        }
    }
}

/// A network interface of a manager or a system.
#[derive(Debug)]
pub struct RedfishEthernetIntf {
    /// The path that the resource was fetched from.
    pub uri: String,
    pub name: String,
    pub uefi_devpath: Option<String>,
    pub mac_addr: Option<String>,
    pub link_state: Option<String>,
    pub ipv4: Option<Vec<RedfishIpv4Address>>,
    pub link_speed: Option<i32>,
    pub link_mtu: Option<i32>,
    pub enabled: Option<bool>,
    pub auto_neg: Option<bool>,
    pub full_duplex: Option<bool>,
    pub fqdn: Option<String>,
    pub hostname: Option<String>,
    pub status: RedfishStatus,
}

impl DeepView for RedfishEthernetIntf {
    type V = Interface;

    open spec fn deep_view(&self) -> Interface {
        Interface {
            uri: self.uri@,
            name: self.name@,
            uefi_devpath: self.uefi_devpath.deep_view(),
            mac_addr: self.mac_addr.deep_view(),
            link_state: self.link_state.deep_view(),
            ipv4: self.ipv4.deep_view(),
            link_speed: self.link_speed,
            link_mtu: self.link_mtu,
            enabled: self.enabled,
            auto_neg: self.auto_neg,
            full_duplex: self.full_duplex,
            fqdn: self.fqdn.deep_view(),
            hostname: self.hostname.deep_view(),
            status: self.status.deep_view(),
        }
    }
}

impl View for RedfishEthernetIntf {
    type V = Interface;

    open spec fn view(&self) -> Interface {
        self.deep_view()
    }
}

impl Default for RedfishEthernetIntf {
    /// An interface with nothing in it.
    fn default() -> (r: RedfishEthernetIntf)
        ensures
            r@ == empty_interface(),
    {
        RedfishEthernetIntf {
            uri: String::new(),
            name: String::new(),
            uefi_devpath: None,
            mac_addr: None,
            link_state: None,
            ipv4: None,
            link_speed: None,
            link_mtu: None,
            enabled: None,
            auto_neg: None,
            full_duplex: None,
            fqdn: None,
            hostname: None,
            status: RedfishStatus::default(),
        }
    }
}

impl RedfishEthernetIntf {
    /// Reads an interface from the body that was fetched from `uri`; none where
    /// the body is no interface.
    pub fn decode(v: &serde_json::Value, uri: &str) -> (r: Option<RedfishEthernetIntf>)
        ensures
            r.deep_view() == interface_of(json_of(*v), uri@),
    {
        proof {
            reveal(interface_of);
        }
        if !is_object(v) {
            return None;
        }
        let name = text_field(v, "Name")?;
        let uefi_devpath = text_option(v, "UefiDevicePath")?;
        let mac_addr = text_option(v, "MACAddress")?;
        let link_state = text_option(v, "LinkStatus")?;
        let ipv4 = match get_field(v, "IPv4Addresses") {
            Some(x) => Some(RedfishIpv4Address::decode_all(x)?),
            None => None,
        };
        let link_speed = number_option(v, "SpeedMbps")?;
        let link_mtu = number_option(v, "MTUSize")?;
        let enabled = flag_option(v, "InterfaceEnabled")?;
        let auto_neg = flag_option(v, "AutoNeg")?;
        let full_duplex = flag_option(v, "FullDuplex")?;
        let fqdn = text_option(v, "FQDN")?;
        let hostname = text_option(v, "HostName")?;
        let status = RedfishStatus::decode(get_field(v, "Status")?)?;
        Some(
            RedfishEthernetIntf {
                uri: uri.to_owned(),
                name,
                uefi_devpath,
                mac_addr,
                link_state,
                ipv4,
                link_speed,
                link_mtu,
                enabled,
                auto_neg,
                full_duplex,
                fqdn,
                hostname,
                status,
            },
        )
    }

    /// Reads the body of a response to a request for the interface at `uri`. Fails
    /// with `Malformed` where the body is no JSON, with `Mismatch` where it is
    /// JSON and no interface.
    pub fn read(body: &str, uri: &str) -> (r: Result<RedfishEthernetIntf, RedfishError>)
        ensures
            outcome(r) == fetched(json_text(body@), |j: Json| interface_of(j, uri@)),
    {
        let v = match parse(body) {
            Ok(v) => v,
            Err(e) => {
                return Err(e);
            },
        };
        match RedfishEthernetIntf::decode(&v, uri) {
            Some(x) => Ok(x),
            None => Err(RedfishError::Mismatch),
        }
    }
}

/// A fan of a chassis. Its name is reported under `Name`, under the older
/// `FanName`, under both or under neither.
#[derive(Debug)]
pub struct RedfishFan {
    /// Always empty: a fan is part of its thermal resource and is not fetched
    /// by itself.
    pub uri: String,
    pub name: Option<String>,
    pub fanname: Option<String>,
    pub status: RedfishStatus,
}

impl DeepView for RedfishFan {
    type V = Fan;

    open spec fn deep_view(&self) -> Fan {
        Fan {
            uri: self.uri@,
            name: self.name.deep_view(),
            fanname: self.fanname.deep_view(),
            status: self.status.deep_view(),
        }
    }
}

impl View for RedfishFan {
    type V = Fan;

    open spec fn view(&self) -> Fan {
        self.deep_view()
    }
}

impl Default for RedfishFan {
    /// A fan with nothing in it.
    fn default() -> (r: RedfishFan)
        ensures
            r@ == empty_fan(),
    {
        RedfishFan {
            uri: String::new(),
            name: None,
            fanname: None,
            status: RedfishStatus::default(),
        }
    }
}

impl RedfishFan {
    /// Reads a fan from a JSON value; none where the value is no fan.
    pub fn decode(v: &serde_json::Value) -> (r: Option<RedfishFan>)
        ensures
            r.deep_view() == fan_of(json_of(*v)),
    {
        proof {
            reveal(fan_of);
        }
        if !is_object(v) {
            return None;
        }
        let name = text_option(v, "Name")?;
        let fanname = text_option(v, "FanName")?;
        let status = RedfishStatus::decode(get_field(v, "Status")?)?;
        Some(RedfishFan { uri: String::new(), name, fanname, status })
    }

    /// Reads a list of fans from a JSON array, keeping its order; none where
    /// the value is no array or an item does not read.
    pub fn decode_all(v: &serde_json::Value) -> (r: Option<Vec<RedfishFan>>)
        ensures
            r.deep_view() == fans_of(json_of(*v)),
    {
        let items = as_array(v)?;
        let ghost all = json_of(*v)->Array_0;
        let mut out: Vec<RedfishFan> = Vec::new();
        let mut i: usize = 0;
        while i < items.len()
            invariant
                i <= items.len(),
                json_of(*v) == Json::Array(all),
                items@.len() == all.len(),
                forall|k: int| 0 <= k < items@.len() ==> json_of(#[trigger] items@[k]) == all[k],
                out@.len() == i,
                forall|k: int| 0 <= k < i ==> fan_of(#[trigger] all[k]) == Some(out@[k]@),
            decreases items.len() - i,
        {
            match RedfishFan::decode(&items[i]) {
                Some(item) => {
                    out.push(item);
                },
                None => {
                    assert(fans_of(json_of(*v)) is None) by {
                        let read = |x: Json| fan_of(x);
                        assert(read(all[i as int]) is None);
                    }
                    return None;
                },
            }
            i = i + 1;
        }
        assert(out.deep_view() =~= fans_of(json_of(*v))->Some_0);
        Some(out)
    }
}

/// A management controller.
#[derive(Debug)]
pub struct RedfishManager {
    /// The path that the resource was fetched from.
    pub uri: String,
    pub mngr_type: String,
    pub model: Option<String>,
    pub fw_version: Option<String>,
    pub status: RedfishStatus,
    pub eth_intfs: Option<RedfishMember>,
    pub cons_graph: Option<RedfishConsole>,
    pub cons_serial: Option<RedfishConsole>,
    pub cons_shell: Option<RedfishConsole>,
}

impl DeepView for RedfishManager {
    type V = Manager;

    open spec fn deep_view(&self) -> Manager {
        Manager {
            uri: self.uri@,
            mngr_type: self.mngr_type@,
            model: self.model.deep_view(),
            fw_version: self.fw_version.deep_view(),
            status: self.status.deep_view(),
            eth_intfs: self.eth_intfs.deep_view(),
            cons_graph: self.cons_graph.deep_view(),
            cons_serial: self.cons_serial.deep_view(),
            cons_shell: self.cons_shell.deep_view(),
        }
    }
}

impl View for RedfishManager {
    type V = Manager;

    open spec fn view(&self) -> Manager {
        self.deep_view()
    }
}

impl Default for RedfishManager {
    /// A manager with nothing in it.
    fn default() -> (r: RedfishManager)
        ensures
            r@ == empty_manager(),
    {
        RedfishManager {
            uri: String::new(),
            mngr_type: String::new(),
            model: None,
            fw_version: None,
            status: RedfishStatus::default(),
            eth_intfs: None,
            cons_graph: None,
            cons_serial: None,
            cons_shell: None,
        }
    }
}

impl RedfishManager {
    /// Reads a manager from the body that was fetched from `uri`; none where
    /// the body is no manager.
    pub fn decode(v: &serde_json::Value, uri: &str) -> (r: Option<RedfishManager>)
        ensures
            r.deep_view() == manager_of(json_of(*v), uri@),
    {
        proof {
            reveal(manager_of);
        }
        if !is_object(v) {
            return None;
        }
        let mngr_type = text_field(v, "ManagerType")?;
        let model = text_option(v, "Model")?;
        let fw_version = text_option(v, "FirmwareVersion")?;
        let status = RedfishStatus::decode(get_field(v, "Status")?)?;
        let eth_intfs = match get_field(v, "EthernetInterfaces") {
            Some(x) => Some(RedfishMember::decode(x)?),
            None => None,
        };
        let cons_graph = match get_field(v, "GraphicalConsole") {
            Some(x) => Some(RedfishConsole::decode(x)?),
            None => None,
        };
        let cons_serial = match get_field(v, "SerialConsole") {
            Some(x) => Some(RedfishConsole::decode(x)?),
            None => None,
        };
        let cons_shell = match get_field(v, "CommandShell") {
            Some(x) => Some(RedfishConsole::decode(x)?),
            None => None,
        };
        Some(
            RedfishManager {
                uri: uri.to_owned(),
                mngr_type,
                model,
                fw_version,
                status,
                eth_intfs,
                cons_graph,
                cons_serial,
                cons_shell,
            },
        )
    }

    /// Reads the body of a response to a request for the manager at `uri`. Fails
    /// with `Malformed` where the body is no JSON, with `Mismatch` where it is
    /// JSON and no manager.
    pub fn read(body: &str, uri: &str) -> (r: Result<RedfishManager, RedfishError>)
        ensures
            outcome(r) == fetched(json_text(body@), |j: Json| manager_of(j, uri@)),
    {
        let v = match parse(body) {
            Ok(v) => v,
            Err(e) => {
                return Err(e);
            },
        };
        match RedfishManager::decode(&v, uri) {
            Some(x) => Ok(x),
            None => Err(RedfishError::Mismatch),
        }
    }
}

/// The memory of a system in short.
#[derive(Debug)]
pub struct RedfishMemorySummary {
    pub total_memory: i32,
    pub status: RedfishStatus,
}

impl DeepView for RedfishMemorySummary {
    type V = Memory;

    open spec fn deep_view(&self) -> Memory {
        Memory {
            total_memory: self.total_memory,
            status: self.status.deep_view(),
        }
    }
}

impl View for RedfishMemorySummary {
    type V = Memory;

    open spec fn view(&self) -> Memory {
        self.deep_view()
    }
}

impl Default for RedfishMemorySummary {
    /// A memory with nothing in it.
    fn default() -> (r: RedfishMemorySummary)
        ensures
            r@ == empty_memory(),
    {
        RedfishMemorySummary { total_memory: 0, status: RedfishStatus::default() }
    }
}

impl RedfishMemorySummary {
    /// Reads a memory from a JSON value; none where the value is no memory.
    pub fn decode(v: &serde_json::Value) -> (r: Option<RedfishMemorySummary>)
        ensures
            r.deep_view() == memory_of(json_of(*v)),
    {
        proof {
            reveal(memory_of);
        }
        if !is_object(v) {
            return None;
        }
        let total_memory = number_field(v, "TotalSystemMemoryGiB")?;
        let status = RedfishStatus::decode(get_field(v, "Status")?)?;
        Some(RedfishMemorySummary { total_memory, status })
    }
}

/// A power supply of a chassis.
#[derive(Debug)]
pub struct RedfishPowerSupply {
    pub name: String,
    pub model: Option<String>,
    pub serial: Option<String>,
    pub status: RedfishStatus,
}

impl DeepView for RedfishPowerSupply {
    type V = Supply;

    open spec fn deep_view(&self) -> Supply {
        Supply {
            name: self.name@,
            model: self.model.deep_view(),
            serial: self.serial.deep_view(),
            status: self.status.deep_view(),
        }
    }
}

impl View for RedfishPowerSupply {
    type V = Supply;

    open spec fn view(&self) -> Supply {
        self.deep_view()
    }
}

impl Default for RedfishPowerSupply {
    /// A supply with nothing in it.
    fn default() -> (r: RedfishPowerSupply)
        ensures
            r@ == empty_supply(),
    {
        RedfishPowerSupply {
            name: String::new(),
            model: None,
            serial: None,
            status: RedfishStatus::default(),
        }
    }
}

impl RedfishPowerSupply {
    /// Reads a supply from a JSON value; none where the value is no supply.
    pub fn decode(v: &serde_json::Value) -> (r: Option<RedfishPowerSupply>)
        ensures
            r.deep_view() == supply_of(json_of(*v)),
    {
        proof {
            reveal(supply_of);
        }
        if !is_object(v) {
            return None;
        }
        let name = text_field(v, "Name")?;
        let model = text_option(v, "Model")?;
        let serial = text_option(v, "SerialNumber")?;
        let status = RedfishStatus::decode(get_field(v, "Status")?)?;
        Some(RedfishPowerSupply { name, model, serial, status })
    }

    /// Reads a list of supplies from a JSON array, keeping its order; none where
    /// the value is no array or an item does not read.
    pub fn decode_all(v: &serde_json::Value) -> (r: Option<Vec<RedfishPowerSupply>>)
        ensures
            r.deep_view() == supplies_of(json_of(*v)),
    {
        let items = as_array(v)?;
        let ghost all = json_of(*v)->Array_0;
        let mut out: Vec<RedfishPowerSupply> = Vec::new();
        let mut i: usize = 0;
        while i < items.len()
            invariant
                i <= items.len(),
                json_of(*v) == Json::Array(all),
                items@.len() == all.len(),
                forall|k: int| 0 <= k < items@.len() ==> json_of(#[trigger] items@[k]) == all[k],
                out@.len() == i,
                forall|k: int| 0 <= k < i ==> supply_of(#[trigger] all[k]) == Some(out@[k]@),
            decreases items.len() - i,
        {
            match RedfishPowerSupply::decode(&items[i]) {
                Some(item) => {
                    out.push(item);
                },
                None => {
                    assert(supplies_of(json_of(*v)) is None) by {
                        let read = |x: Json| supply_of(x);
                        assert(read(all[i as int]) is None);
                    }
                    return None;
                },
            }
            i = i + 1;
        }
        assert(out.deep_view() =~= supplies_of(json_of(*v))->Some_0);
        Some(out)
    }
}

/// The power resource of a chassis: its supplies, in the controller's order.
#[derive(Debug)]
pub struct RedfishPower {
    /// The path that the resource was fetched from.
    pub uri: String,
    pub power_supplies: Vec<RedfishPowerSupply>,
}

impl DeepView for RedfishPower {
    type V = Power;

    open spec fn deep_view(&self) -> Power {
        Power {
            uri: self.uri@,
            power_supplies: self.power_supplies.deep_view(),
        }
    }
}

impl View for RedfishPower {
    type V = Power;

    open spec fn view(&self) -> Power {
        self.deep_view()
    }
}

impl Default for RedfishPower {
    /// A power with nothing in it.
    fn default() -> (r: RedfishPower)
        ensures
            r@ == empty_power(),
    {
        let power_supplies: Vec<RedfishPowerSupply> = Vec::new();
        assert(power_supplies.deep_view() =~= Seq::empty());
        RedfishPower { uri: String::new(), power_supplies }
    }
}

impl RedfishPower {
    /// Reads a power from the body that was fetched from `uri`; none where
    /// the body is no power.
    pub fn decode(v: &serde_json::Value, uri: &str) -> (r: Option<RedfishPower>)
        ensures
            r.deep_view() == power_of(json_of(*v), uri@),
    {
        proof {
            reveal(power_of);
        }
        if !is_object(v) {
            return None;
        }
        let power_supplies = RedfishPowerSupply::decode_all(get_field(v, "PowerSupplies")?)?;
        Some(RedfishPower { uri: uri.to_owned(), power_supplies })
    }

    /// Reads the body of a response to a request for the power at `uri`. Fails
    /// with `Malformed` where the body is no JSON, with `Mismatch` where it is
    /// JSON and no power.
    pub fn read(body: &str, uri: &str) -> (r: Result<RedfishPower, RedfishError>)
        ensures
            outcome(r) == fetched(json_text(body@), |j: Json| power_of(j, uri@)),
    {
        let v = match parse(body) {
            Ok(v) => v,
            Err(e) => {
                return Err(e);
            },
        };
        match RedfishPower::decode(&v, uri) {
            Some(x) => Ok(x),
            None => Err(RedfishError::Mismatch),
        }
    }
}

/// What a processor says of its own make. Vendors report different parts.
#[derive(Debug)]
pub struct RedfishProcessorId {
    pub family: Option<String>,
    pub model: Option<String>,
    pub stepping: Option<String>,
    pub ucode_version: Option<String>,
}

impl DeepView for RedfishProcessorId {
    type V = ProcessorId;

    open spec fn deep_view(&self) -> ProcessorId {
        ProcessorId {
            family: self.family.deep_view(),
            model: self.model.deep_view(),
            stepping: self.stepping.deep_view(),
            ucode_version: self.ucode_version.deep_view(),
        }
    }
}

impl View for RedfishProcessorId {
    type V = ProcessorId;

    open spec fn view(&self) -> ProcessorId {
        self.deep_view()
    }
}

impl Default for RedfishProcessorId {
    /// A processor id with nothing in it.
    fn default() -> (r: RedfishProcessorId)
        ensures
            r@ == empty_processor_id(),
    {
        RedfishProcessorId { family: None, model: None, stepping: None, ucode_version: None }
    }
}

impl RedfishProcessorId {
    /// Reads a processor id from a JSON value; none where the value is no processor id.
    pub fn decode(v: &serde_json::Value) -> (r: Option<RedfishProcessorId>)
        ensures
            r.deep_view() == processor_id_of(json_of(*v)),
    {
        proof {
            reveal(processor_id_of);
        }
        if !is_object(v) {
            return None;
        }
        let family = text_option(v, "EffectiveFamily")?;
        let model = text_option(v, "EffectiveModel")?;
        let stepping = text_option(v, "Step")?;
        let ucode_version = text_option(v, "MicrocodeInfo")?;
        Some(RedfishProcessorId { family, model, stepping, ucode_version })
    }
}

/// A processor of a system.
#[derive(Debug)]
pub struct RedfishProcessor {
    /// The path that the resource was fetched from.
    pub uri: String,
    pub socket: String,
    pub brand: String,
    pub manufacturer: String,
    pub speed_mhz: i32,
    pub ncores: i32,
    pub nthreads: i32,
    pub arch: String,
    pub isa: String,
    pub id: RedfishProcessorId,
    pub status: RedfishStatus,
}

impl DeepView for RedfishProcessor {
    type V = Processor;

    open spec fn deep_view(&self) -> Processor {
        Processor {
            uri: self.uri@,
            socket: self.socket@,
            brand: self.brand@,
            manufacturer: self.manufacturer@,
            speed_mhz: self.speed_mhz,
            ncores: self.ncores,
            nthreads: self.nthreads,
            arch: self.arch@,
            isa: self.isa@,
            id: self.id.deep_view(),
            status: self.status.deep_view(),
        }
    }
}

impl View for RedfishProcessor {
    type V = Processor;

    open spec fn view(&self) -> Processor {
        self.deep_view()
    }
}

impl Default for RedfishProcessor {
    /// A processor with nothing in it.
    fn default() -> (r: RedfishProcessor)
        ensures
            r@ == empty_processor(),
    {
        RedfishProcessor {
            uri: String::new(),
            socket: String::new(),
            brand: String::new(),
            manufacturer: String::new(),
            speed_mhz: 0,
            ncores: 0,
            nthreads: 0,
            arch: String::new(),
            isa: String::new(),
            id: RedfishProcessorId::default(),
            status: RedfishStatus::default(),
        }
    }
}

impl RedfishProcessor {
    /// Reads a processor from the body that was fetched from `uri`; none where
    /// the body is no processor.
    pub fn decode(v: &serde_json::Value, uri: &str) -> (r: Option<RedfishProcessor>)
        ensures
            r.deep_view() == processor_of(json_of(*v), uri@),
    {
        proof {
            reveal(processor_of);
        }
        if !is_object(v) {
            return None;
        }
        let socket = text_field(v, "Socket")?;
        let brand = text_field(v, "Model")?;
        let manufacturer = text_field(v, "Manufacturer")?;
        let speed_mhz = number_field(v, "MaxSpeedMHz")?;
        let ncores = number_field(v, "TotalCores")?;
        let nthreads = number_field(v, "TotalThreads")?;
        let arch = text_field(v, "ProcessorArchitecture")?;
        let isa = text_field(v, "InstructionSet")?;
        let id = RedfishProcessorId::decode(get_field(v, "ProcessorId")?)?;
        let status = RedfishStatus::decode(get_field(v, "Status")?)?;
        Some(
            RedfishProcessor {
                uri: uri.to_owned(),
                socket,
                brand,
                manufacturer,
                speed_mhz,
                ncores,
                nthreads,
                arch,
                isa,
                id,
                status,
            },
        )
    }

    /// Reads the body of a response to a request for the processor at `uri`. Fails
    /// with `Malformed` where the body is no JSON, with `Mismatch` where it is
    /// JSON and no processor.
    pub fn read(body: &str, uri: &str) -> (r: Result<RedfishProcessor, RedfishError>)
        ensures
            outcome(r) == fetched(json_text(body@), |j: Json| processor_of(j, uri@)),
    {
        let v = match parse(body) {
            Ok(v) => v,
            Err(e) => {
                return Err(e);
            },
        };
        match RedfishProcessor::decode(&v, uri) {
            Some(x) => Ok(x),
            None => Err(RedfishError::Mismatch),
        }
    }
}

/// The processors of a system in short.
#[derive(Debug)]
pub struct RedfishProcessorSummary {
    pub ncpus: i32,
    pub model: String,
    pub status: RedfishStatus,
}

impl DeepView for RedfishProcessorSummary {
    type V = ProcessorSummary;

    open spec fn deep_view(&self) -> ProcessorSummary {
        ProcessorSummary {
            ncpus: self.ncpus,
            model: self.model@,
            status: self.status.deep_view(),
        }
    }
}

impl View for RedfishProcessorSummary {
    type V = ProcessorSummary;

    open spec fn view(&self) -> ProcessorSummary {
        self.deep_view()
    }
}

impl Default for RedfishProcessorSummary {
    /// A processor summary with nothing in it.
    fn default() -> (r: RedfishProcessorSummary)
        ensures
            r@ == empty_processor_summary(),
    {
        RedfishProcessorSummary { ncpus: 0, model: String::new(), status: RedfishStatus::default() }
    }
}

impl RedfishProcessorSummary {
    /// Reads a processor summary from a JSON value; none where the value is no processor summary.
    pub fn decode(v: &serde_json::Value) -> (r: Option<RedfishProcessorSummary>)
        ensures
            r.deep_view() == processor_summary_of(json_of(*v)),
    {
        proof {
            reveal(processor_summary_of);
        }
        if !is_object(v) {
            return None;
        }
        let ncpus = number_field(v, "Count")?;
        let model = text_field(v, "Model")?;
        let status = RedfishStatus::decode(get_field(v, "Status")?)?;
        Some(RedfishProcessorSummary { ncpus, model, status })
    }
}

/// The actions that a system advertises. An action can be invoked only if it is
/// listed here.
#[derive(Debug)]
pub struct RedfishSystemActions {
    pub reset: Option<RedfishActionReset>,
}

impl DeepView for RedfishSystemActions {
    type V = Actions;

    open spec fn deep_view(&self) -> Actions {
        Actions {
            reset: self.reset.deep_view(),
        }
    }
}

impl View for RedfishSystemActions {
    type V = Actions;

    open spec fn view(&self) -> Actions {
        self.deep_view()
    }
}

impl Default for RedfishSystemActions {
    /// An actions with nothing in it.
    fn default() -> (r: RedfishSystemActions)
        ensures
            r@ == empty_actions(),
    {
        RedfishSystemActions { reset: None }
    }
}

impl RedfishSystemActions {
    /// Reads an actions from a JSON value; none where the value is no actions.
    pub fn decode(v: &serde_json::Value) -> (r: Option<RedfishSystemActions>)
        ensures
            r.deep_view() == actions_of(json_of(*v)),
    {
        proof {
            reveal(actions_of);
        }
        if !is_object(v) {
            return None;
        }
        let reset = match get_field(v, "#ComputerSystem.Reset") {
            Some(x) => Some(RedfishActionReset::decode(x)?),
            None => None,
        };
        Some(RedfishSystemActions { reset })
    }
}

/// The boot override of a system. That it is reported at all says that the
/// override can be set.
#[derive(Debug)]
pub struct RedfishSystemBoot {
    pub override_state: Option<String>,
    pub override_target: Option<String>,
    pub override_alltargets: Option<Vec<String>>,
}

impl DeepView for RedfishSystemBoot {
    type V = Boot;

    open spec fn deep_view(&self) -> Boot {
        Boot {
            override_state: self.override_state.deep_view(),
            override_target: self.override_target.deep_view(),
            override_alltargets: self.override_alltargets.deep_view(),
        }
    }
}

impl View for RedfishSystemBoot {
    type V = Boot;

    open spec fn view(&self) -> Boot {
        self.deep_view()
    }
}

impl Default for RedfishSystemBoot {
    /// A boot with nothing in it.
    fn default() -> (r: RedfishSystemBoot)
        ensures
            r@ == empty_boot(),
    {
        RedfishSystemBoot { override_state: None, override_target: None, override_alltargets: None }
    }
}

impl RedfishSystemBoot {
    /// Reads a boot from a JSON value; none where the value is no boot.
    pub fn decode(v: &serde_json::Value) -> (r: Option<RedfishSystemBoot>)
        ensures
            r.deep_view() == boot_of(json_of(*v)),
    {
        proof {
            reveal(boot_of);
        }
        if !is_object(v) {
            return None;
        }
        let override_state = text_option(v, "BootSourceOverrideEnabled")?;
        let override_target = text_option(v, "BootSourceOverrideTarget")?;
        let override_alltargets = texts_option(v, "BootSourceOverrideTarget@Redfish.AllowableValues")?;
        Some(RedfishSystemBoot { override_state, override_target, override_alltargets })
    }
}

/// A computer system.
#[derive(Debug)]
pub struct RedfishSystem {
    /// The path that the resource was fetched from.
    pub uri: String,
    pub name: String,
    pub description: String,
    pub serial_num: String,
    pub part_num: String,
    pub sys_type: String,
    pub bios_vers: String,
    pub manufacturer: String,
    pub model: String,
    pub sku: Option<String>,
    pub uuid: Option<String>,
    pub pwr_state: Option<String>,
    /// Reported only where the identify light can be set.
    pub locate_led: Option<String>,
    pub chip_summary: RedfishProcessorSummary,
    pub chips: RedfishMember,
    pub memory: RedfishMemorySummary,
    pub eth_intfs: Option<RedfishMember>,
    pub actions: RedfishSystemActions,
    pub boot: Option<RedfishSystemBoot>,
}

impl DeepView for RedfishSystem {
    type V = System;

    open spec fn deep_view(&self) -> System {
        System {
            uri: self.uri@,
            name: self.name@,
            description: self.description@,
            serial_num: self.serial_num@,
            part_num: self.part_num@,
            sys_type: self.sys_type@,
            bios_vers: self.bios_vers@,
            manufacturer: self.manufacturer@,
            model: self.model@,
            sku: self.sku.deep_view(),
            uuid: self.uuid.deep_view(),
            pwr_state: self.pwr_state.deep_view(),
            locate_led: self.locate_led.deep_view(),
            chip_summary: self.chip_summary.deep_view(),
            chips: self.chips.deep_view(),
            memory: self.memory.deep_view(),
            eth_intfs: self.eth_intfs.deep_view(),
            actions: self.actions.deep_view(),
            boot: self.boot.deep_view(),
        }
    }
}

impl View for RedfishSystem {
    type V = System;

    open spec fn view(&self) -> System {
        self.deep_view()
    }
}

impl Default for RedfishSystem {
    /// A system with nothing in it.
    fn default() -> (r: RedfishSystem)
        ensures
            r@ == empty_system(),
    {
        RedfishSystem {
            uri: String::new(),
            name: String::new(),
            description: String::new(),
            serial_num: String::new(),
            part_num: String::new(),
            sys_type: String::new(),
            bios_vers: String::new(),
            manufacturer: String::new(),
            model: String::new(),
            sku: None,
            uuid: None,
            pwr_state: None,
            locate_led: None,
            chip_summary: RedfishProcessorSummary::default(),
            chips: RedfishMember::default(),
            memory: RedfishMemorySummary::default(),
            eth_intfs: None,
            actions: RedfishSystemActions::default(),
            boot: None,
        }
    }
}

impl RedfishSystem {
    /// Reads a system from the body that was fetched from `uri`; none where
    /// the body is no system.
    pub fn decode(v: &serde_json::Value, uri: &str) -> (r: Option<RedfishSystem>)
        ensures
            r.deep_view() == system_of(json_of(*v), uri@),
    {
        proof {
            reveal(system_of);
        }
        if !is_object(v) {
            return None;
        }
        let name = text_field(v, "Name")?;
        let description = text_field(v, "Description")?;
        let serial_num = text_field(v, "SerialNumber")?;
        let part_num = text_field(v, "PartNumber")?;
        let sys_type = text_field(v, "SystemType")?;
        let bios_vers = text_field(v, "BiosVersion")?;
        let manufacturer = text_field(v, "Manufacturer")?;
        let model = text_field(v, "Model")?;
        let sku = text_option(v, "SKU")?;
        let uuid = text_option(v, "UUID")?;
        let pwr_state = text_option(v, "PowerState")?;
        let locate_led = text_option(v, "IndicatorLED")?;
        let chip_summary = RedfishProcessorSummary::decode(get_field(v, "ProcessorSummary")?)?;
        let chips = RedfishMember::decode(get_field(v, "Processors")?)?;
        let memory = RedfishMemorySummary::decode(get_field(v, "MemorySummary")?)?;
        let eth_intfs = match get_field(v, "EthernetInterfaces") {
            Some(x) => Some(RedfishMember::decode(x)?),
            None => None,
        };
        let actions = RedfishSystemActions::decode(get_field(v, "Actions")?)?;
        let boot = match get_field(v, "Boot") {
            Some(x) => Some(RedfishSystemBoot::decode(x)?),
            None => None,
        };
        Some(
            RedfishSystem {
                uri: uri.to_owned(),
                name,
                description,
                serial_num,
                part_num,
                sys_type,
                bios_vers,
                manufacturer,
                model,
                sku,
                uuid,
                pwr_state,
                locate_led,
                chip_summary,
                chips,
                memory,
                eth_intfs,
                actions,
                boot,
            },
        )
    }

    /// Reads the body of a response to a request for the system at `uri`. Fails
    /// with `Malformed` where the body is no JSON, with `Mismatch` where it is
    /// JSON and no system.
    pub fn read(body: &str, uri: &str) -> (r: Result<RedfishSystem, RedfishError>)
        ensures
            outcome(r) == fetched(json_text(body@), |j: Json| system_of(j, uri@)),
    {
        let v = match parse(body) {
            Ok(v) => v,
            Err(e) => {
                return Err(e);
            },
        };
        match RedfishSystem::decode(&v, uri) {
            Some(x) => Ok(x),
            None => Err(RedfishError::Mismatch),
        }
    }
}

/// The thermal resource of a chassis: its fans, in the controller's order.
#[derive(Debug)]
pub struct RedfishThermal {
    /// The path that the resource was fetched from.
    pub uri: String,
    pub fans: Vec<RedfishFan>,
}

impl DeepView for RedfishThermal {
    type V = Thermal;

    open spec fn deep_view(&self) -> Thermal {
        Thermal {
            uri: self.uri@,
            fans: self.fans.deep_view(),
        }
    }
}

impl View for RedfishThermal {
    type V = Thermal;

    open spec fn view(&self) -> Thermal {
        self.deep_view()
    }
}

impl Default for RedfishThermal {
    /// A thermal with nothing in it.
    fn default() -> (r: RedfishThermal)
        ensures
            r@ == empty_thermal(),
    {
        let fans: Vec<RedfishFan> = Vec::new();
        assert(fans.deep_view() =~= Seq::empty());
        RedfishThermal { uri: String::new(), fans }
    }
}

impl RedfishThermal {
    /// Reads a thermal from the body that was fetched from `uri`; none where
    /// the body is no thermal.
    pub fn decode(v: &serde_json::Value, uri: &str) -> (r: Option<RedfishThermal>)
        ensures
            r.deep_view() == thermal_of(json_of(*v), uri@),
    {
        proof {
            reveal(thermal_of);
        }
        if !is_object(v) {
            return None;
        }
        let fans = RedfishFan::decode_all(get_field(v, "Fans")?)?;
        Some(RedfishThermal { uri: uri.to_owned(), fans })
    }

    /// Reads the body of a response to a request for the thermal at `uri`. Fails
    /// with `Malformed` where the body is no JSON, with `Mismatch` where it is
    /// JSON and no thermal.
    pub fn read(body: &str, uri: &str) -> (r: Result<RedfishThermal, RedfishError>)
        ensures
            outcome(r) == fetched(json_text(body@), |j: Json| thermal_of(j, uri@)),
    {
        let v = match parse(body) {
            Ok(v) => v,
            Err(e) => {
                return Err(e);
            },
        };
        match RedfishThermal::decode(&v, uri) {
            Some(x) => Ok(x),
            None => Err(RedfishError::Mismatch),
        }
    }
}

} // verus!
