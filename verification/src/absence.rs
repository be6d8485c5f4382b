//! Absent means not reported. For every resource and every member that it
//! may leave out: what is read holds the member as absent exactly where the
//! body does not report it, that is, where the body leaves it out or gives
//! null. A member that is reported is held as present with what it says,
//! be that an empty text or zero.

use crate::json::{field, Json};
use crate::json::{flag_of, number_of, text_of};
use crate::model::{
    actions_of, boot_of, chassis_of, fan_of, interface_of, manager_of, processor_id_of,
    status_of, supply_of, system_of,
};
use vstd::prelude::*;

verus! {

/// The members that a status may leave out: each is absent exactly where the
/// body does not report it, and a text, a number or a flag that is reported
/// is held as it stands.
pub proof fn status_absence(j: Json)
    requires
        status_of(j) is Some,
    ensures
        status_of(j)->Some_0.state is None <==> field(j, "State"@) is None,
        status_of(j)->Some_0.health is None <==> field(j, "Health"@) is None,
        status_of(j)->Some_0.health_rollup is None <==> field(j, "HealthRollup"@) is None,
        field(j, "State"@) is Some ==> status_of(j)->Some_0.state == text_of(
            field(j, "State"@)->Some_0,
        ),
        field(j, "Health"@) is Some ==> status_of(j)->Some_0.health == text_of(
            field(j, "Health"@)->Some_0,
        ),
        field(j, "HealthRollup"@) is Some ==> status_of(j)->Some_0.health_rollup == text_of(
            field(j, "HealthRollup"@)->Some_0,
        ),
{
    reveal(status_of);
}

/// The members that a chassis may leave out: each is absent exactly where the
/// body does not report it, and a text, a number or a flag that is reported
/// is held as it stands.
pub proof fn chassis_absence(j: Json, uri: Seq<char>)
    requires
        chassis_of(j, uri) is Some,
    ensures
        chassis_of(j, uri)->Some_0.manufacturer is None <==> field(j, "Manufacturer"@) is None,
        chassis_of(j, uri)->Some_0.power is None <==> field(j, "Power"@) is None,
        chassis_of(j, uri)->Some_0.thermal is None <==> field(j, "Thermal"@) is None,
        chassis_of(j, uri)->Some_0.status is None <==> field(j, "Status"@) is None,
        field(j, "Manufacturer"@) is Some ==> chassis_of(j, uri)->Some_0.manufacturer == text_of(
            field(j, "Manufacturer"@)->Some_0,
        ),
{
    reveal(chassis_of);
}

/// The members that an interface may leave out: each is absent exactly where the
/// body does not report it, and a text, a number or a flag that is reported
/// is held as it stands.
pub proof fn interface_absence(j: Json, uri: Seq<char>)
    requires
        interface_of(j, uri) is Some,
    ensures
        interface_of(j, uri)->Some_0.uefi_devpath is None <==> field(j, "UefiDevicePath"@) is None,
        interface_of(j, uri)->Some_0.mac_addr is None <==> field(j, "MACAddress"@) is None,
        interface_of(j, uri)->Some_0.link_state is None <==> field(j, "LinkStatus"@) is None,
        interface_of(j, uri)->Some_0.ipv4 is None <==> field(j, "IPv4Addresses"@) is None,
        interface_of(j, uri)->Some_0.link_speed is None <==> field(j, "SpeedMbps"@) is None,
        interface_of(j, uri)->Some_0.link_mtu is None <==> field(j, "MTUSize"@) is None,
        interface_of(j, uri)->Some_0.enabled is None <==> field(j, "InterfaceEnabled"@) is None,
        interface_of(j, uri)->Some_0.auto_neg is None <==> field(j, "AutoNeg"@) is None,
        interface_of(j, uri)->Some_0.full_duplex is None <==> field(j, "FullDuplex"@) is None,
        interface_of(j, uri)->Some_0.fqdn is None <==> field(j, "FQDN"@) is None,
        interface_of(j, uri)->Some_0.hostname is None <==> field(j, "HostName"@) is None,
        field(j, "UefiDevicePath"@) is Some ==> interface_of(j, uri)->Some_0.uefi_devpath == text_of(
            field(j, "UefiDevicePath"@)->Some_0,
        ),
        field(j, "MACAddress"@) is Some ==> interface_of(j, uri)->Some_0.mac_addr == text_of(
            field(j, "MACAddress"@)->Some_0,
        ),
        field(j, "LinkStatus"@) is Some ==> interface_of(j, uri)->Some_0.link_state == text_of(
            field(j, "LinkStatus"@)->Some_0,
        ),
        field(j, "SpeedMbps"@) is Some ==> interface_of(j, uri)->Some_0.link_speed == number_of(
            field(j, "SpeedMbps"@)->Some_0,
        ),
        field(j, "MTUSize"@) is Some ==> interface_of(j, uri)->Some_0.link_mtu == number_of(
            field(j, "MTUSize"@)->Some_0,
        ),
        field(j, "InterfaceEnabled"@) is Some ==> interface_of(j, uri)->Some_0.enabled == flag_of(
            field(j, "InterfaceEnabled"@)->Some_0,
        ),
        field(j, "AutoNeg"@) is Some ==> interface_of(j, uri)->Some_0.auto_neg == flag_of(
            field(j, "AutoNeg"@)->Some_0,
        ),
        field(j, "FullDuplex"@) is Some ==> interface_of(j, uri)->Some_0.full_duplex == flag_of(
            field(j, "FullDuplex"@)->Some_0,
        ),
        field(j, "FQDN"@) is Some ==> interface_of(j, uri)->Some_0.fqdn == text_of(
            field(j, "FQDN"@)->Some_0,
        ),
        field(j, "HostName"@) is Some ==> interface_of(j, uri)->Some_0.hostname == text_of(
            field(j, "HostName"@)->Some_0,
        ),
{
    reveal(interface_of);
}

/// The members that a fan may leave out: each is absent exactly where the
/// body does not report it, and a text, a number or a flag that is reported
/// is held as it stands.
pub proof fn fan_absence(j: Json)
    requires
        fan_of(j) is Some,
    ensures
        fan_of(j)->Some_0.name is None <==> field(j, "Name"@) is None,
        fan_of(j)->Some_0.fanname is None <==> field(j, "FanName"@) is None,
        field(j, "Name"@) is Some ==> fan_of(j)->Some_0.name == text_of(field(j, "Name"@)->Some_0),
        field(j, "FanName"@) is Some ==> fan_of(j)->Some_0.fanname == text_of(
            field(j, "FanName"@)->Some_0,
        ),
{
    reveal(fan_of);
}

/// The members that a manager may leave out: each is absent exactly where the
/// body does not report it, and a text, a number or a flag that is reported
/// is held as it stands.
pub proof fn manager_absence(j: Json, uri: Seq<char>)
    requires
        manager_of(j, uri) is Some,
    ensures
        manager_of(j, uri)->Some_0.model is None <==> field(j, "Model"@) is None,
        manager_of(j, uri)->Some_0.fw_version is None <==> field(j, "FirmwareVersion"@) is None,
        manager_of(j, uri)->Some_0.eth_intfs is None <==> field(j, "EthernetInterfaces"@) is None,
        manager_of(j, uri)->Some_0.cons_graph is None <==> field(j, "GraphicalConsole"@) is None,
        manager_of(j, uri)->Some_0.cons_serial is None <==> field(j, "SerialConsole"@) is None,
        manager_of(j, uri)->Some_0.cons_shell is None <==> field(j, "CommandShell"@) is None,
        field(j, "Model"@) is Some ==> manager_of(j, uri)->Some_0.model == text_of(
            field(j, "Model"@)->Some_0,
        ),
        field(j, "FirmwareVersion"@) is Some ==> manager_of(j, uri)->Some_0.fw_version == text_of(
            field(j, "FirmwareVersion"@)->Some_0,
        ),
{
    reveal(manager_of);
}

/// The members that a supply may leave out: each is absent exactly where the
/// body does not report it, and a text, a number or a flag that is reported
/// is held as it stands.
pub proof fn supply_absence(j: Json)
    requires
        supply_of(j) is Some,
    ensures
        supply_of(j)->Some_0.model is None <==> field(j, "Model"@) is None,
        supply_of(j)->Some_0.serial is None <==> field(j, "SerialNumber"@) is None,
        field(j, "Model"@) is Some ==> supply_of(j)->Some_0.model == text_of(
            field(j, "Model"@)->Some_0,
        ),
        field(j, "SerialNumber"@) is Some ==> supply_of(j)->Some_0.serial == text_of(
            field(j, "SerialNumber"@)->Some_0,
        ),
{
    reveal(supply_of);
}

/// The members that a processor id may leave out: each is absent exactly where the
/// body does not report it, and a text, a number or a flag that is reported
/// is held as it stands.
pub proof fn processor_id_absence(j: Json)
    requires
        processor_id_of(j) is Some,
    ensures
        processor_id_of(j)->Some_0.family is None <==> field(j, "EffectiveFamily"@) is None,
        processor_id_of(j)->Some_0.model is None <==> field(j, "EffectiveModel"@) is None,
        processor_id_of(j)->Some_0.stepping is None <==> field(j, "Step"@) is None,
        processor_id_of(j)->Some_0.ucode_version is None <==> field(j, "MicrocodeInfo"@) is None,
        field(j, "EffectiveFamily"@) is Some ==> processor_id_of(j)->Some_0.family == text_of(
            field(j, "EffectiveFamily"@)->Some_0,
        ),
        field(j, "EffectiveModel"@) is Some ==> processor_id_of(j)->Some_0.model == text_of(
            field(j, "EffectiveModel"@)->Some_0,
        ),
        field(j, "Step"@) is Some ==> processor_id_of(j)->Some_0.stepping == text_of(
            field(j, "Step"@)->Some_0,
        ),
        field(j, "MicrocodeInfo"@) is Some ==> processor_id_of(j)->Some_0.ucode_version == text_of(
            field(j, "MicrocodeInfo"@)->Some_0,
        ),
{
    reveal(processor_id_of);
}

/// The members that an actions may leave out: each is absent exactly where the
/// body does not report it, and a text, a number or a flag that is reported
/// is held as it stands.
pub proof fn actions_absence(j: Json)
    requires
        actions_of(j) is Some,
    ensures
        actions_of(j)->Some_0.reset is None <==> field(j, "#ComputerSystem.Reset"@) is None,
{
    reveal(actions_of);
}

/// The members that a boot may leave out: each is absent exactly where the
/// body does not report it, and a text, a number or a flag that is reported
/// is held as it stands.
pub proof fn boot_absence(j: Json)
    requires
        boot_of(j) is Some,
    ensures
        boot_of(j)->Some_0.override_state is None <==> field(
            j,
            "BootSourceOverrideEnabled"@,
        ) is None,
        boot_of(j)->Some_0.override_target is None <==> field(
            j,
            "BootSourceOverrideTarget"@,
        ) is None,
        boot_of(j)->Some_0.override_alltargets is None <==> field(
            j,
            "BootSourceOverrideTarget@Redfish.AllowableValues"@,
        ) is None,
        field(j, "BootSourceOverrideEnabled"@) is Some ==> boot_of(j)->Some_0.override_state == text_of(
            field(j, "BootSourceOverrideEnabled"@)->Some_0,
        ),
        field(j, "BootSourceOverrideTarget"@) is Some ==> boot_of(j)->Some_0.override_target == text_of(
            field(j, "BootSourceOverrideTarget"@)->Some_0,
        ),
{
    reveal(boot_of);
}

/// The members that a system may leave out: each is absent exactly where the
/// body does not report it, and a text, a number or a flag that is reported
/// is held as it stands.
pub proof fn system_absence(j: Json, uri: Seq<char>)
    requires
        system_of(j, uri) is Some,
    ensures
        system_of(j, uri)->Some_0.sku is None <==> field(j, "SKU"@) is None,
        system_of(j, uri)->Some_0.uuid is None <==> field(j, "UUID"@) is None,
        system_of(j, uri)->Some_0.pwr_state is None <==> field(j, "PowerState"@) is None,
        system_of(j, uri)->Some_0.locate_led is None <==> field(j, "IndicatorLED"@) is None,
        system_of(j, uri)->Some_0.eth_intfs is None <==> field(j, "EthernetInterfaces"@) is None,
        system_of(j, uri)->Some_0.boot is None <==> field(j, "Boot"@) is None,
        field(j, "SKU"@) is Some ==> system_of(j, uri)->Some_0.sku == text_of(
            field(j, "SKU"@)->Some_0,
        ),
        field(j, "UUID"@) is Some ==> system_of(j, uri)->Some_0.uuid == text_of(
            field(j, "UUID"@)->Some_0,
        ),
        field(j, "PowerState"@) is Some ==> system_of(j, uri)->Some_0.pwr_state == text_of(
            field(j, "PowerState"@)->Some_0,
        ),
        field(j, "IndicatorLED"@) is Some ==> system_of(j, uri)->Some_0.locate_led == text_of(
            field(j, "IndicatorLED"@)->Some_0,
        ),
{
    reveal(system_of);
}

} // verus!
