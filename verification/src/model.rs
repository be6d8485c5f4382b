//! The Redfish resources as mathematical values, and the reading of each
//! from a JSON document.
//!
//! The definitions of the readings are opaque: a proof that needs one
//! reveals it.
//!
//! A resource is read from an object. Members that the reading does not
//! name are ignored. A member that must be there and is missing, or any
//! member of the wrong type, makes the document unreadable as that resource.
//! A member that may be missing reads as absent where it is missing or null:
//! absent is never a value of its own, such as an empty text or zero.

use crate::error::Failure;
use crate::json::{field, flag_of, list_of, number_of, optional, required, text_of, texts_of, Json};
use vstd::prelude::*;

verus! {

/// What comes of a response body that is to be read as a resource: the
/// resource, or the failure. A body that holds no document is malformed,
/// with what the parser says of it; a document that does not read is a
/// mismatch.
pub open spec fn fetched<T>(
    doc: Result<Json, Seq<char>>,
    read: spec_fn(Json) -> Option<T>,
) -> Result<T, Failure> {
    match doc {
        Err(words) => Err(Failure::Malformed(words)),
        Ok(j) => match read(j) {
            Some(t) => Ok(t),
            None => Err(Failure::Mismatch),
        },
    }
}

/// The condition of a resource. Each part is reported or not, on its own.
pub struct Status {
    pub state: Option<Seq<char>>,
    pub health: Option<Seq<char>>,
    pub health_rollup: Option<Seq<char>>,
}

/// A link to another resource.
pub struct Link {
    pub uri: Seq<char>,
}

/// A collection: links to its members, in the order in which the controller
/// lists them.
pub struct Collection {
    pub members: Seq<Link>,
}

/// The service root, where every traversal starts.
pub struct Root {
    pub version: Seq<char>,
    pub mngrs: Link,
}

/// The reset capability of a system: where to post a reset and which kinds it
/// takes.
pub struct ResetAction {
    pub target: Seq<char>,
    pub reset_type: Seq<Seq<char>>,
}

/// One way to reach a manager's console.
pub struct Console {
    pub enabled: bool,
    pub max_sessions: i32,
}

/// One IPv4 address of an interface.
pub struct Address {
    pub address: Seq<char>,
    pub subnet: Seq<char>,
    pub origin: Seq<char>,
    pub gateway: Seq<char>,
}

/// A physical enclosure.
pub struct Chassis {
    pub uri: Seq<char>,
    pub name: Seq<char>,
    pub chassis_type: Seq<char>,
    pub manufacturer: Option<Seq<char>>,
    pub serial_num: Seq<char>,
    pub part_num: Seq<char>,
    pub power: Option<Link>,
    pub thermal: Option<Link>,
    pub status: Option<Status>,
}

/// A network interface of a manager or a system.
pub struct Interface {
    pub uri: Seq<char>,
    pub name: Seq<char>,
    pub uefi_devpath: Option<Seq<char>>,
    pub mac_addr: Option<Seq<char>>,
    pub link_state: Option<Seq<char>>,
    pub ipv4: Option<Seq<Address>>,
    pub link_speed: Option<i32>,
    pub link_mtu: Option<i32>,
    pub enabled: Option<bool>,
    pub auto_neg: Option<bool>,
    pub full_duplex: Option<bool>,
    pub fqdn: Option<Seq<char>>,
    pub hostname: Option<Seq<char>>,
    pub status: Status,
}

/// A fan of a chassis. Its name is reported under `Name`, under the older
/// `FanName`, under both or under neither.
pub struct Fan {
    pub uri: Seq<char>,
    pub name: Option<Seq<char>>,
    pub fanname: Option<Seq<char>>,
    pub status: Status,
}

/// A management controller.
pub struct Manager {
    pub uri: Seq<char>,
    pub mngr_type: Seq<char>,
    pub model: Option<Seq<char>>,
    pub fw_version: Option<Seq<char>>,
    pub status: Status,
    pub eth_intfs: Option<Link>,
    pub cons_graph: Option<Console>,
    pub cons_serial: Option<Console>,
    pub cons_shell: Option<Console>,
}

/// The memory of a system in short.
pub struct Memory {
    pub total_memory: i32,
    pub status: Status,
}

/// A power supply of a chassis.
pub struct Supply {
    pub name: Seq<char>,
    pub model: Option<Seq<char>>,
    pub serial: Option<Seq<char>>,
    pub status: Status,
}

/// The power resource of a chassis: its supplies, in the controller's order.
pub struct Power {
    pub uri: Seq<char>,
    pub power_supplies: Seq<Supply>,
}

/// What a processor says of its own make. Vendors report different parts.
pub struct ProcessorId {
    pub family: Option<Seq<char>>,
    pub model: Option<Seq<char>>,
    pub stepping: Option<Seq<char>>,
    pub ucode_version: Option<Seq<char>>,
}

/// A processor of a system.
pub struct Processor {
    pub uri: Seq<char>,
    pub socket: Seq<char>,
    pub brand: Seq<char>,
    pub manufacturer: Seq<char>,
    pub speed_mhz: i32,
    pub ncores: i32,
    pub nthreads: i32,
    pub arch: Seq<char>,
    pub isa: Seq<char>,
    pub id: ProcessorId,
    pub status: Status,
}

/// The processors of a system in short.
pub struct ProcessorSummary {
    pub ncpus: i32,
    pub model: Seq<char>,
    pub status: Status,
}

/// The actions that a system advertises. An action can be invoked only if it is
/// listed here.
pub struct Actions {
    pub reset: Option<ResetAction>,
}

/// The boot override of a system. That it is reported at all says that the
/// override can be set.
pub struct Boot {
    pub override_state: Option<Seq<char>>,
    pub override_target: Option<Seq<char>>,
    pub override_alltargets: Option<Seq<Seq<char>>>,
}

/// A computer system.
pub struct System {
    pub uri: Seq<char>,
    pub name: Seq<char>,
    pub description: Seq<char>,
    pub serial_num: Seq<char>,
    pub part_num: Seq<char>,
    pub sys_type: Seq<char>,
    pub bios_vers: Seq<char>,
    pub manufacturer: Seq<char>,
    pub model: Seq<char>,
    pub sku: Option<Seq<char>>,
    pub uuid: Option<Seq<char>>,
    pub pwr_state: Option<Seq<char>>,
    pub locate_led: Option<Seq<char>>,
    pub chip_summary: ProcessorSummary,
    pub chips: Link,
    pub memory: Memory,
    pub eth_intfs: Option<Link>,
    pub actions: Actions,
    pub boot: Option<Boot>,
}

/// The thermal resource of a chassis: its fans, in the controller's order.
pub struct Thermal {
    pub uri: Seq<char>,
    pub fans: Seq<Fan>,
}

/// Reads a status.
#[verifier::opaque]
pub open spec fn status_of(j: Json) -> Option<Status> {
    let state = optional(field(j, "State"@), |x: Json| text_of(x));
    let health = optional(field(j, "Health"@), |x: Json| text_of(x));
    let health_rollup = optional(field(j, "HealthRollup"@), |x: Json| text_of(x));
    if j is Object
        && state is Some
        && health is Some
        && health_rollup is Some {
        Some(
            Status {
                state: state->Some_0,
                health: health->Some_0,
                health_rollup: health_rollup->Some_0,
            },
        )
    } else {
        None
    }
}

/// Reads a link.
#[verifier::opaque]
pub open spec fn link_of(j: Json) -> Option<Link> {
    let uri = required(field(j, "@odata.id"@), |x: Json| text_of(x));
    if j is Object
        && uri is Some {
        Some(
            Link {
                uri: uri->Some_0,
            },
        )
    } else {
        None
    }
}

/// Reads a list in which every item is a link.
pub open spec fn links_of(j: Json) -> Option<Seq<Link>> {
    list_of(j, |x: Json| link_of(x))
}

/// Reads a collection.
#[verifier::opaque]
pub open spec fn collection_of(j: Json) -> Option<Collection> {
    let members = required(field(j, "Members"@), |x: Json| links_of(x));
    if j is Object
        && members is Some {
        Some(
            Collection {
                members: members->Some_0,
            },
        )
    } else {
        None
    }
}

/// Reads a root.
#[verifier::opaque]
pub open spec fn root_of(j: Json) -> Option<Root> {
    let version = required(field(j, "RedfishVersion"@), |x: Json| text_of(x));
    let mngrs = required(field(j, "Managers"@), |x: Json| link_of(x));
    if j is Object
        && version is Some
        && mngrs is Some {
        Some(
            Root {
                version: version->Some_0,
                mngrs: mngrs->Some_0,
            },
        )
    } else {
        None
    }
}

/// Reads a reset action.
#[verifier::opaque]
pub open spec fn reset_action_of(j: Json) -> Option<ResetAction> {
    let target = required(field(j, "target"@), |x: Json| text_of(x));
    let reset_type = required(
        field(j, "ResetType@Redfish.AllowableValues"@),
        |x: Json| texts_of(x),
    );
    if j is Object
        && target is Some
        && reset_type is Some {
        Some(
            ResetAction {
                target: target->Some_0,
                reset_type: reset_type->Some_0,
            },
        )
    } else {
        None
    }
}

/// Reads a console.
#[verifier::opaque]
pub open spec fn console_of(j: Json) -> Option<Console> {
    let enabled = required(field(j, "ServiceEnabled"@), |x: Json| flag_of(x));
    let max_sessions = required(field(j, "MaxConcurrentSessions"@), |x: Json| number_of(x));
    if j is Object
        && enabled is Some
        && max_sessions is Some {
        Some(
            Console {
                enabled: enabled->Some_0,
                max_sessions: max_sessions->Some_0,
            },
        )
    } else {
        None
    }
}

/// Reads an address.
#[verifier::opaque]
pub open spec fn address_of(j: Json) -> Option<Address> {
    let address = required(field(j, "Address"@), |x: Json| text_of(x));
    let subnet = required(field(j, "SubnetMask"@), |x: Json| text_of(x));
    let origin = required(field(j, "AddressOrigin"@), |x: Json| text_of(x));
    let gateway = required(field(j, "Gateway"@), |x: Json| text_of(x));
    if j is Object
        && address is Some
        && subnet is Some
        && origin is Some
        && gateway is Some {
        Some(
            Address {
                address: address->Some_0,
                subnet: subnet->Some_0,
                origin: origin->Some_0,
                gateway: gateway->Some_0,
            },
        )
    } else {
        None
    }
}

/// Reads a list in which every item is an address.
pub open spec fn addresses_of(j: Json) -> Option<Seq<Address>> {
    list_of(j, |x: Json| address_of(x))
}

/// Reads a chassis that was fetched from `uri`.
#[verifier::opaque]
pub open spec fn chassis_of(j: Json, uri: Seq<char>) -> Option<Chassis> {
    let name = required(field(j, "Name"@), |x: Json| text_of(x));
    let chassis_type = required(field(j, "ChassisType"@), |x: Json| text_of(x));
    let manufacturer = optional(field(j, "Manufacturer"@), |x: Json| text_of(x));
    let serial_num = required(field(j, "SerialNumber"@), |x: Json| text_of(x));
    let part_num = required(field(j, "PartNumber"@), |x: Json| text_of(x));
    let power = optional(field(j, "Power"@), |x: Json| link_of(x));
    let thermal = optional(field(j, "Thermal"@), |x: Json| link_of(x));
    let status = optional(field(j, "Status"@), |x: Json| status_of(x));
    if j is Object
        && name is Some
        && chassis_type is Some
        && manufacturer is Some
        && serial_num is Some
        && part_num is Some
        && power is Some
        && thermal is Some
        && status is Some {
        Some(
            Chassis {
                uri,
                name: name->Some_0,
                chassis_type: chassis_type->Some_0,
                manufacturer: manufacturer->Some_0,
                serial_num: serial_num->Some_0,
                part_num: part_num->Some_0,
                power: power->Some_0,
                thermal: thermal->Some_0,
                status: status->Some_0,
            },
        )
    } else {
        None
    }
}

/// Reads an interface that was fetched from `uri`.
#[verifier::opaque]
pub open spec fn interface_of(j: Json, uri: Seq<char>) -> Option<Interface> {
    let name = required(field(j, "Name"@), |x: Json| text_of(x));
    let uefi_devpath = optional(field(j, "UefiDevicePath"@), |x: Json| text_of(x));
    let mac_addr = optional(field(j, "MACAddress"@), |x: Json| text_of(x));
    let link_state = optional(field(j, "LinkStatus"@), |x: Json| text_of(x));
    let ipv4 = optional(field(j, "IPv4Addresses"@), |x: Json| addresses_of(x));
    let link_speed = optional(field(j, "SpeedMbps"@), |x: Json| number_of(x));
    let link_mtu = optional(field(j, "MTUSize"@), |x: Json| number_of(x));
    let enabled = optional(field(j, "InterfaceEnabled"@), |x: Json| flag_of(x));
    let auto_neg = optional(field(j, "AutoNeg"@), |x: Json| flag_of(x));
    let full_duplex = optional(field(j, "FullDuplex"@), |x: Json| flag_of(x));
    let fqdn = optional(field(j, "FQDN"@), |x: Json| text_of(x));
    let hostname = optional(field(j, "HostName"@), |x: Json| text_of(x));
    let status = required(field(j, "Status"@), |x: Json| status_of(x));
    if j is Object
        && name is Some
        && uefi_devpath is Some
        && mac_addr is Some
        && link_state is Some
        && ipv4 is Some
        && link_speed is Some
        && link_mtu is Some
        && enabled is Some
        && auto_neg is Some
        && full_duplex is Some
        && fqdn is Some
        && hostname is Some
        && status is Some {
        Some(
            Interface {
                uri,
                name: name->Some_0,
                uefi_devpath: uefi_devpath->Some_0,
                mac_addr: mac_addr->Some_0,
                link_state: link_state->Some_0,
                ipv4: ipv4->Some_0,
                link_speed: link_speed->Some_0,
                link_mtu: link_mtu->Some_0,
                enabled: enabled->Some_0,
                auto_neg: auto_neg->Some_0,
                full_duplex: full_duplex->Some_0,
                fqdn: fqdn->Some_0,
                hostname: hostname->Some_0,
                status: status->Some_0,
            },
        )
    } else {
        None
    }
}

/// Reads a fan.
#[verifier::opaque]
pub open spec fn fan_of(j: Json) -> Option<Fan> {
    let name = optional(field(j, "Name"@), |x: Json| text_of(x));
    let fanname = optional(field(j, "FanName"@), |x: Json| text_of(x));
    let status = required(field(j, "Status"@), |x: Json| status_of(x));
    if j is Object
        && name is Some
        && fanname is Some
        && status is Some {
        Some(
            Fan {
                uri: Seq::empty(),
                name: name->Some_0,
                fanname: fanname->Some_0,
                status: status->Some_0,
            },
        )
    } else {
        None
    }
}

/// Reads a list in which every item is a fan.
pub open spec fn fans_of(j: Json) -> Option<Seq<Fan>> {
    list_of(j, |x: Json| fan_of(x))
}

/// Reads a manager that was fetched from `uri`.
#[verifier::opaque]
pub open spec fn manager_of(j: Json, uri: Seq<char>) -> Option<Manager> {
    let mngr_type = required(field(j, "ManagerType"@), |x: Json| text_of(x));
    let model = optional(field(j, "Model"@), |x: Json| text_of(x));
    let fw_version = optional(field(j, "FirmwareVersion"@), |x: Json| text_of(x));
    let status = required(field(j, "Status"@), |x: Json| status_of(x));
    let eth_intfs = optional(field(j, "EthernetInterfaces"@), |x: Json| link_of(x));
    let cons_graph = optional(field(j, "GraphicalConsole"@), |x: Json| console_of(x));
    let cons_serial = optional(field(j, "SerialConsole"@), |x: Json| console_of(x));
    let cons_shell = optional(field(j, "CommandShell"@), |x: Json| console_of(x));
    if j is Object
        && mngr_type is Some
        && model is Some
        && fw_version is Some
        && status is Some
        && eth_intfs is Some
        && cons_graph is Some
        && cons_serial is Some
        && cons_shell is Some {
        Some(
            Manager {
                uri,
                mngr_type: mngr_type->Some_0,
                model: model->Some_0,
                fw_version: fw_version->Some_0,
                status: status->Some_0,
                eth_intfs: eth_intfs->Some_0,
                cons_graph: cons_graph->Some_0,
                cons_serial: cons_serial->Some_0,
                cons_shell: cons_shell->Some_0,
            },
        )
    } else {
        None
    }
}

/// Reads a memory.
#[verifier::opaque]
pub open spec fn memory_of(j: Json) -> Option<Memory> {
    let total_memory = required(field(j, "TotalSystemMemoryGiB"@), |x: Json| number_of(x));
    let status = required(field(j, "Status"@), |x: Json| status_of(x));
    if j is Object
        && total_memory is Some
        && status is Some {
        Some(
            Memory {
                total_memory: total_memory->Some_0,
                status: status->Some_0,
            },
        )
    } else {
        None
    }
}

/// Reads a supply.
#[verifier::opaque]
pub open spec fn supply_of(j: Json) -> Option<Supply> {
    let name = required(field(j, "Name"@), |x: Json| text_of(x));
    let model = optional(field(j, "Model"@), |x: Json| text_of(x));
    let serial = optional(field(j, "SerialNumber"@), |x: Json| text_of(x));
    let status = required(field(j, "Status"@), |x: Json| status_of(x));
    if j is Object
        && name is Some
        && model is Some
        && serial is Some
        && status is Some {
        Some(
            Supply {
                name: name->Some_0,
                model: model->Some_0,
                serial: serial->Some_0,
                status: status->Some_0,
            },
        )
    } else {
        None
    }
}

/// Reads a list in which every item is a supply.
pub open spec fn supplies_of(j: Json) -> Option<Seq<Supply>> {
    list_of(j, |x: Json| supply_of(x))
}

/// Reads a power that was fetched from `uri`.
#[verifier::opaque]
pub open spec fn power_of(j: Json, uri: Seq<char>) -> Option<Power> {
    let power_supplies = required(field(j, "PowerSupplies"@), |x: Json| supplies_of(x));
    if j is Object
        && power_supplies is Some {
        Some(
            Power {
                uri,
                power_supplies: power_supplies->Some_0,
            },
        )
    } else {
        None
    }
}

/// Reads a processor id.
#[verifier::opaque]
pub open spec fn processor_id_of(j: Json) -> Option<ProcessorId> {
    let family = optional(field(j, "EffectiveFamily"@), |x: Json| text_of(x));
    let model = optional(field(j, "EffectiveModel"@), |x: Json| text_of(x));
    let stepping = optional(field(j, "Step"@), |x: Json| text_of(x));
    let ucode_version = optional(field(j, "MicrocodeInfo"@), |x: Json| text_of(x));
    if j is Object
        && family is Some
        && model is Some
        && stepping is Some
        && ucode_version is Some {
        Some(
            ProcessorId {
                family: family->Some_0,
                model: model->Some_0,
                stepping: stepping->Some_0,
                ucode_version: ucode_version->Some_0,
            },
        )
    } else {
        None
    }
}

/// Reads a processor that was fetched from `uri`.
#[verifier::opaque]
pub open spec fn processor_of(j: Json, uri: Seq<char>) -> Option<Processor> {
    let socket = required(field(j, "Socket"@), |x: Json| text_of(x));
    let brand = required(field(j, "Model"@), |x: Json| text_of(x));
    let manufacturer = required(field(j, "Manufacturer"@), |x: Json| text_of(x));
    let speed_mhz = required(field(j, "MaxSpeedMHz"@), |x: Json| number_of(x));
    let ncores = required(field(j, "TotalCores"@), |x: Json| number_of(x));
    let nthreads = required(field(j, "TotalThreads"@), |x: Json| number_of(x));
    let arch = required(field(j, "ProcessorArchitecture"@), |x: Json| text_of(x));
    let isa = required(field(j, "InstructionSet"@), |x: Json| text_of(x));
    let id = required(field(j, "ProcessorId"@), |x: Json| processor_id_of(x));
    let status = required(field(j, "Status"@), |x: Json| status_of(x));
    if j is Object
        && socket is Some
        && brand is Some
        && manufacturer is Some
        && speed_mhz is Some
        && ncores is Some
        && nthreads is Some
        && arch is Some
        && isa is Some
        && id is Some
        && status is Some {
        Some(
            Processor {
                uri,
                socket: socket->Some_0,
                brand: brand->Some_0,
                manufacturer: manufacturer->Some_0,
                speed_mhz: speed_mhz->Some_0,
                ncores: ncores->Some_0,
                nthreads: nthreads->Some_0,
                arch: arch->Some_0,
                isa: isa->Some_0,
                id: id->Some_0,
                status: status->Some_0,
            },
        )
    } else {
        None
    }
}

/// Reads a processor summary.
#[verifier::opaque]
pub open spec fn processor_summary_of(j: Json) -> Option<ProcessorSummary> {
    let ncpus = required(field(j, "Count"@), |x: Json| number_of(x));
    let model = required(field(j, "Model"@), |x: Json| text_of(x));
    let status = required(field(j, "Status"@), |x: Json| status_of(x));
    if j is Object
        && ncpus is Some
        && model is Some
        && status is Some {
        Some(
            ProcessorSummary {
                ncpus: ncpus->Some_0,
                model: model->Some_0,
                status: status->Some_0,
            },
        )
    } else {
        None
    }
}

/// Reads an actions.
#[verifier::opaque]
pub open spec fn actions_of(j: Json) -> Option<Actions> {
    let reset = optional(field(j, "#ComputerSystem.Reset"@), |x: Json| reset_action_of(x));
    if j is Object
        && reset is Some {
        Some(
            Actions {
                reset: reset->Some_0,
            },
        )
    } else {
        None
    }
}

/// Reads a boot.
#[verifier::opaque]
pub open spec fn boot_of(j: Json) -> Option<Boot> {
    let override_state = optional(field(j, "BootSourceOverrideEnabled"@), |x: Json| text_of(x));
    let override_target = optional(field(j, "BootSourceOverrideTarget"@), |x: Json| text_of(x));
    let override_alltargets = optional(
        field(j, "BootSourceOverrideTarget@Redfish.AllowableValues"@),
        |x: Json| texts_of(x),
    );
    if j is Object
        && override_state is Some
        && override_target is Some
        && override_alltargets is Some {
        Some(
            Boot {
                override_state: override_state->Some_0,
                override_target: override_target->Some_0,
                override_alltargets: override_alltargets->Some_0,
            },
        )
    } else {
        None
    }
}

/// Reads a system that was fetched from `uri`.
#[verifier::opaque]
pub open spec fn system_of(j: Json, uri: Seq<char>) -> Option<System> {
    let name = required(field(j, "Name"@), |x: Json| text_of(x));
    let description = required(field(j, "Description"@), |x: Json| text_of(x));
    let serial_num = required(field(j, "SerialNumber"@), |x: Json| text_of(x));
    let part_num = required(field(j, "PartNumber"@), |x: Json| text_of(x));
    let sys_type = required(field(j, "SystemType"@), |x: Json| text_of(x));
    let bios_vers = required(field(j, "BiosVersion"@), |x: Json| text_of(x));
    let manufacturer = required(field(j, "Manufacturer"@), |x: Json| text_of(x));
    let model = required(field(j, "Model"@), |x: Json| text_of(x));
    let sku = optional(field(j, "SKU"@), |x: Json| text_of(x));
    let uuid = optional(field(j, "UUID"@), |x: Json| text_of(x));
    let pwr_state = optional(field(j, "PowerState"@), |x: Json| text_of(x));
    let locate_led = optional(field(j, "IndicatorLED"@), |x: Json| text_of(x));
    let chip_summary = required(field(j, "ProcessorSummary"@), |x: Json| processor_summary_of(x));
    let chips = required(field(j, "Processors"@), |x: Json| link_of(x));
    let memory = required(field(j, "MemorySummary"@), |x: Json| memory_of(x));
    let eth_intfs = optional(field(j, "EthernetInterfaces"@), |x: Json| link_of(x));
    let actions = required(field(j, "Actions"@), |x: Json| actions_of(x));
    let boot = optional(field(j, "Boot"@), |x: Json| boot_of(x));
    if j is Object
        && name is Some
        && description is Some
        && serial_num is Some
        && part_num is Some
        && sys_type is Some
        && bios_vers is Some
        && manufacturer is Some
        && model is Some
        && sku is Some
        && uuid is Some
        && pwr_state is Some
        && locate_led is Some
        && chip_summary is Some
        && chips is Some
        && memory is Some
        && eth_intfs is Some
        && actions is Some
        && boot is Some {
        Some(
            System {
                uri,
                name: name->Some_0,
                description: description->Some_0,
                serial_num: serial_num->Some_0,
                part_num: part_num->Some_0,
                sys_type: sys_type->Some_0,
                bios_vers: bios_vers->Some_0,
                manufacturer: manufacturer->Some_0,
                model: model->Some_0,
                sku: sku->Some_0,
                uuid: uuid->Some_0,
                pwr_state: pwr_state->Some_0,
                locate_led: locate_led->Some_0,
                chip_summary: chip_summary->Some_0,
                chips: chips->Some_0,
                memory: memory->Some_0,
                eth_intfs: eth_intfs->Some_0,
                actions: actions->Some_0,
                boot: boot->Some_0,
            },
        )
    } else {
        None
    }
}

/// Reads a thermal that was fetched from `uri`.
#[verifier::opaque]
pub open spec fn thermal_of(j: Json, uri: Seq<char>) -> Option<Thermal> {
    let fans = required(field(j, "Fans"@), |x: Json| fans_of(x));
    if j is Object
        && fans is Some {
        Some(
            Thermal {
                uri,
                fans: fans->Some_0,
            },
        )
    } else {
        None
    }
}

/// A status with nothing in it: every text and list empty, every number
/// zero, every flag off, every member that may be missing absent.
pub open spec fn empty_status() -> Status {
    Status {
        state: None,
        health: None,
        health_rollup: None,
    }
}

/// A link with nothing in it: every text and list empty, every number
/// zero, every flag off, every member that may be missing absent.
pub open spec fn empty_link() -> Link {
    Link {
        uri: Seq::empty(),
    }
}

/// A collection with nothing in it: every text and list empty, every number
/// zero, every flag off, every member that may be missing absent.
pub open spec fn empty_collection() -> Collection {
    Collection {
        members: Seq::empty(),
    }
}

/// A root with nothing in it: every text and list empty, every number
/// zero, every flag off, every member that may be missing absent.
pub open spec fn empty_root() -> Root {
    Root {
        version: Seq::empty(),
        mngrs: empty_link(),
    }
}

/// A reset action with nothing in it: every text and list empty, every number
/// zero, every flag off, every member that may be missing absent.
pub open spec fn empty_reset_action() -> ResetAction {
    ResetAction {
        target: Seq::empty(),
        reset_type: Seq::empty(),
    }
}

/// A console with nothing in it: every text and list empty, every number
/// zero, every flag off, every member that may be missing absent.
pub open spec fn empty_console() -> Console {
    Console {
        enabled: false,
        max_sessions: 0,
    }
}

/// An address with nothing in it: every text and list empty, every number
/// zero, every flag off, every member that may be missing absent.
pub open spec fn empty_address() -> Address {
    Address {
        address: Seq::empty(),
        subnet: Seq::empty(),
        origin: Seq::empty(),
        gateway: Seq::empty(),
    }
}

/// A chassis with nothing in it: every text and list empty, every number
/// zero, every flag off, every member that may be missing absent.
pub open spec fn empty_chassis() -> Chassis {
    Chassis {
        uri: Seq::empty(),
        name: Seq::empty(),
        chassis_type: Seq::empty(),
        manufacturer: None,
        serial_num: Seq::empty(),
        part_num: Seq::empty(),
        power: None,
        thermal: None,
        status: None,
    }
}

/// An interface with nothing in it: every text and list empty, every number
/// zero, every flag off, every member that may be missing absent.
pub open spec fn empty_interface() -> Interface {
    Interface {
        uri: Seq::empty(),
        name: Seq::empty(),
        uefi_devpath: None,
        mac_addr: None,
        link_state: None,
        ipv4: None,
        link_speed: None,
        link_mtu: None,
        enabled: None,
        auto_neg: None,
        full_duplex: None,
        fqdn: None,
        hostname: None,
        status: empty_status(),
    }
}

/// A fan with nothing in it: every text and list empty, every number
/// zero, every flag off, every member that may be missing absent.
pub open spec fn empty_fan() -> Fan {
    Fan {
        uri: Seq::empty(),
        name: None,
        fanname: None,
        status: empty_status(),
    }
}

/// A manager with nothing in it: every text and list empty, every number
/// zero, every flag off, every member that may be missing absent.
pub open spec fn empty_manager() -> Manager {
    Manager {
        uri: Seq::empty(),
        mngr_type: Seq::empty(),
        model: None,
        fw_version: None,
        status: empty_status(),
        eth_intfs: None,
        cons_graph: None,
        cons_serial: None,
        cons_shell: None,
    }
}

/// A memory with nothing in it: every text and list empty, every number
/// zero, every flag off, every member that may be missing absent.
pub open spec fn empty_memory() -> Memory {
    Memory {
        total_memory: 0,
        status: empty_status(),
    }
}

/// A supply with nothing in it: every text and list empty, every number
/// zero, every flag off, every member that may be missing absent.
pub open spec fn empty_supply() -> Supply {
    Supply {
        name: Seq::empty(),
        model: None,
        serial: None,
        status: empty_status(),
    }
}

/// A power with nothing in it: every text and list empty, every number
/// zero, every flag off, every member that may be missing absent.
pub open spec fn empty_power() -> Power {
    Power {
        uri: Seq::empty(),
        power_supplies: Seq::empty(),
    }
}

/// A processor id with nothing in it: every text and list empty, every number
/// zero, every flag off, every member that may be missing absent.
pub open spec fn empty_processor_id() -> ProcessorId {
    ProcessorId {
        family: None,
        model: None,
        stepping: None,
        ucode_version: None,
    }
}

/// A processor with nothing in it: every text and list empty, every number
/// zero, every flag off, every member that may be missing absent.
pub open spec fn empty_processor() -> Processor {
    Processor {
        uri: Seq::empty(),
        socket: Seq::empty(),
        brand: Seq::empty(),
        manufacturer: Seq::empty(),
        speed_mhz: 0,
        ncores: 0,
        nthreads: 0,
        arch: Seq::empty(),
        isa: Seq::empty(),
        id: empty_processor_id(),
        status: empty_status(),
    }
}

/// A processor summary with nothing in it: every text and list empty, every number
/// zero, every flag off, every member that may be missing absent.
pub open spec fn empty_processor_summary() -> ProcessorSummary {
    ProcessorSummary {
        ncpus: 0,
        model: Seq::empty(),
        status: empty_status(),
    }
}

/// An actions with nothing in it: every text and list empty, every number
/// zero, every flag off, every member that may be missing absent.
pub open spec fn empty_actions() -> Actions {
    Actions {
        reset: None,
    }
}

/// A boot with nothing in it: every text and list empty, every number
/// zero, every flag off, every member that may be missing absent.
pub open spec fn empty_boot() -> Boot {
    Boot {
        override_state: None,
        override_target: None,
        override_alltargets: None,
    }
}

/// A system with nothing in it: every text and list empty, every number
/// zero, every flag off, every member that may be missing absent.
pub open spec fn empty_system() -> System {
    System {
        uri: Seq::empty(),
        name: Seq::empty(),
        description: Seq::empty(),
        serial_num: Seq::empty(),
        part_num: Seq::empty(),
        sys_type: Seq::empty(),
        bios_vers: Seq::empty(),
        manufacturer: Seq::empty(),
        model: Seq::empty(),
        sku: None,
        uuid: None,
        pwr_state: None,
        locate_led: None,
        chip_summary: empty_processor_summary(),
        chips: empty_link(),
        memory: empty_memory(),
        eth_intfs: None,
        actions: empty_actions(),
        boot: None,
    }
}

/// A thermal with nothing in it: every text and list empty, every number
/// zero, every flag off, every member that may be missing absent.
pub open spec fn empty_thermal() -> Thermal {
    Thermal {
        uri: Seq::empty(),
        fans: Seq::empty(),
    }
}

/// The addresses of the members of a collection, in its order.
pub open spec fn links(c: Collection) -> Seq<Seq<char>> {
    Seq::new(c.members.len(), |i: int| c.members[i].uri)
}

} // verus!
