use redfish_util::error::RedfishError;
use redfish_util::json::{get_field, parse, read_number, read_texts};
use redfish_util::redfish::{
    RedfishChassis, RedfishCollection, RedfishConsole, RedfishEthernetIntf, RedfishFan,
    RedfishManager, RedfishPower, RedfishProcessor, RedfishRootService, RedfishStatus,
    RedfishSystem, RedfishSystemActions, RedfishSystemBoot, RedfishThermal,
};
use redfish_util::resolver::resolve_collection;

fn value(text: &str) -> serde_json::Value {
    match parse(text) {
        Ok(v) => v,
        Err(e) => panic!("not JSON: {}", e.message()),
    }
}

const SYSTEM: &str = r##"{
    "@odata.id": "/somewhere/else",
    "Name": "System",
    "Description": "Computer System",
    "SerialNumber": "SN1",
    "PartNumber": "PN1",
    "SystemType": "Physical",
    "BiosVersion": "2.1",
    "Manufacturer": "Acme",
    "Model": "X1",
    "SKU": "",
    "PowerState": "On",
    "IndicatorLED": "Off",
    "ProcessorSummary": {"Count": 2, "Model": "Xeon", "Status": {"State": "Enabled"}},
    "Processors": {"@odata.id": "/redfish/v1/Systems/1/Processors"},
    "MemorySummary": {"TotalSystemMemoryGiB": 256, "Status": {"Health": "OK"}},
    "Actions": {"#ComputerSystem.Reset": {
        "target": "/redfish/v1/Systems/1/Actions/ComputerSystem.Reset",
        "ResetType@Redfish.AllowableValues": ["On", "ForceOff"]}},
    "Boot": {"BootSourceOverrideEnabled": "Disabled",
        "BootSourceOverrideTarget@Redfish.AllowableValues": ["Pxe", "BiosSetup"]},
    "Oem": {"Vendor": [1, 2.5, null]}
}"##;

#[test]
fn default_resources_hold_nothing() {
    let status = RedfishStatus::default();
    assert_eq!(status.state, None);
    assert_eq!(status.health, None);
    assert_eq!(status.health_rollup, None);
    let system = RedfishSystem::default();
    assert_eq!(system.uri, "");
    assert_eq!(system.name, "");
    assert_eq!(system.sku, None);
    assert_eq!(system.locate_led, None);
    assert_eq!(system.chip_summary.ncpus, 0);
    assert_eq!(system.chips.uri, "");
    assert_eq!(system.memory.total_memory, 0);
    assert!(system.actions.reset.is_none());
    assert!(system.boot.is_none());
    assert!(system.eth_intfs.is_none());
    let console = RedfishConsole::default();
    assert!(!console.enabled);
    assert_eq!(console.max_sessions, 0);
    assert!(RedfishCollection::default().members.is_empty());
    assert!(RedfishPower::default().power_supplies.is_empty());
    assert!(RedfishThermal::default().fans.is_empty());
    assert!(redfish_util::redfish::RedfishActionReset::default().reset_type.is_empty());
    let file = redfish_util::ConfigFile::default();
    assert_eq!(file.filename, "");
    assert!(file.entries.is_empty());
    assert_eq!(redfish_util::ConfigFileEntry::default().name, "");
}

#[test]
fn status_with_health_only_has_the_other_parts_absent() {
    let status = RedfishStatus::decode(&value(r#"{"Health":"OK"}"#)).unwrap();
    assert_eq!(status.health, Some("OK".to_string()));
    assert_eq!(status.state, None);
    assert_eq!(status.health_rollup, None);
}

#[test]
fn status_of_an_empty_object_is_all_absent() {
    let status = RedfishStatus::decode(&value("{}")).unwrap();
    assert_eq!(status.state, None);
    assert_eq!(status.health, None);
    assert_eq!(status.health_rollup, None);
}

#[test]
fn null_member_reads_as_absent() {
    let status = RedfishStatus::decode(&value(r#"{"State":null,"Health":"OK"}"#)).unwrap();
    assert_eq!(status.state, None);
    assert_eq!(status.health, Some("OK".to_string()));
}

#[test]
fn empty_text_is_present_and_empty() {
    let status = RedfishStatus::decode(&value(r#"{"State":""}"#)).unwrap();
    assert_eq!(status.state, Some(String::new()));
}

#[test]
fn member_of_the_wrong_type_does_not_read() {
    assert!(RedfishStatus::decode(&value(r#"{"Health":3}"#)).is_none());
    assert!(RedfishStatus::decode(&value(r#"{"Health":["OK"]}"#)).is_none());
}

#[test]
fn only_an_object_reads_as_a_resource() {
    assert!(RedfishStatus::decode(&value("[]")).is_none());
    assert!(RedfishStatus::decode(&value("\"OK\"")).is_none());
    assert!(RedfishStatus::decode(&value("null")).is_none());
    assert!(RedfishStatus::decode(&value("7")).is_none());
}

#[test]
fn console_needs_both_members() {
    let console =
        RedfishConsole::decode(&value(r#"{"ServiceEnabled":true,"MaxConcurrentSessions":4}"#))
            .unwrap();
    assert!(console.enabled);
    assert_eq!(console.max_sessions, 4);
    assert!(RedfishConsole::decode(&value(r#"{"ServiceEnabled":true}"#)).is_none());
    assert!(RedfishConsole::decode(&value(r#"{"MaxConcurrentSessions":4}"#)).is_none());
    assert!(RedfishConsole::decode(
        &value(r#"{"ServiceEnabled":"yes","MaxConcurrentSessions":4}"#)
    )
    .is_none());
    assert!(RedfishConsole::decode(
        &value(r#"{"ServiceEnabled":null,"MaxConcurrentSessions":4}"#)
    )
    .is_none());
}

#[test]
fn numbers_are_32_bit_integers() {
    assert_eq!(read_number(&value("0")), Some(0));
    assert_eq!(read_number(&value("-17")), Some(-17));
    assert_eq!(read_number(&value("2147483647")), Some(2147483647));
    assert_eq!(read_number(&value("-2147483648")), Some(-2147483648));
    assert_eq!(read_number(&value("2147483648")), None);
    assert_eq!(read_number(&value("-2147483649")), None);
    assert_eq!(read_number(&value("18446744073709551615")), None);
    assert_eq!(read_number(&value("1.5")), None);
    assert_eq!(read_number(&value("1e2")), None);
    assert_eq!(read_number(&value("\"1\"")), None);
    assert_eq!(read_number(&value("true")), None);
}

#[test]
fn texts_keep_their_order() {
    assert_eq!(
        read_texts(&value(r#"["b","a","c"]"#)),
        Some(vec!["b".to_string(), "a".to_string(), "c".to_string()])
    );
    assert_eq!(read_texts(&value("[]")), Some(vec![]));
    assert_eq!(read_texts(&value(r#"["b",1]"#)), None);
    assert_eq!(read_texts(&value(r#"{"a":"b"}"#)), None);
}

#[test]
fn field_is_none_for_missing_and_for_null() {
    let v = value(r#"{"a":1,"b":null}"#);
    assert!(get_field(&v, "a").is_some());
    assert!(get_field(&v, "b").is_none());
    assert!(get_field(&v, "c").is_none());
    assert!(get_field(&value("[1]"), "a").is_none());
}

#[test]
fn text_that_is_no_json_is_malformed() {
    assert!(matches!(parse("{"), Err(RedfishError::Malformed(_))));
    assert!(matches!(parse(""), Err(RedfishError::Malformed(_))));
    assert!(matches!(parse("{} x"), Err(RedfishError::Malformed(_))));
    assert!(parse(" {\"a\": [1, 2]} ").is_ok());
}

#[test]
fn collection_resolves_to_its_members_in_order() {
    let body = r#"{"Members":[
        {"@odata.id":"/redfish/v1/Systems/3"},
        {"@odata.id":"/redfish/v1/Systems/1"},
        {"@odata.id":"/redfish/v1/Systems/2"}],
        "Members@odata.count": 3}"#;
    let members = resolve_collection(body).unwrap();
    assert_eq!(
        members,
        vec![
            "/redfish/v1/Systems/3".to_string(),
            "/redfish/v1/Systems/1".to_string(),
            "/redfish/v1/Systems/2".to_string(),
        ]
    );
}

#[test]
fn collection_keeps_repeated_members() {
    let body = r#"{"Members":[{"@odata.id":"/a"},{"@odata.id":"/a"}]}"#;
    assert_eq!(resolve_collection(body).unwrap(), vec!["/a".to_string(), "/a".to_string()]);
}

#[test]
fn empty_collection_resolves_to_nothing() {
    assert_eq!(resolve_collection(r#"{"Members":[]}"#).unwrap(), Vec::<String>::new());
}

#[test]
fn collection_of_another_shape_is_a_mismatch() {
    assert!(matches!(resolve_collection("{}"), Err(RedfishError::Mismatch)));
    assert!(matches!(resolve_collection(r#"{"Members":null}"#), Err(RedfishError::Mismatch)));
    assert!(matches!(resolve_collection(r#"{"Members":{}}"#), Err(RedfishError::Mismatch)));
    assert!(matches!(
        resolve_collection(r#"{"Members":[{"@odata.id":"/a"},{"id":"/b"}]}"#),
        Err(RedfishError::Mismatch)
    ));
    assert!(matches!(
        resolve_collection(r#"{"Members":[{"@odata.id":7}]}"#),
        Err(RedfishError::Mismatch)
    ));
    assert!(matches!(resolve_collection("[]"), Err(RedfishError::Mismatch)));
}

#[test]
fn collection_that_is_no_json_is_malformed() {
    assert!(matches!(resolve_collection("<html>"), Err(RedfishError::Malformed(_))));
}

#[test]
fn collection_decodes_each_member() {
    let c = RedfishCollection::decode(&value(r#"{"Members":[{"@odata.id":"/x"}]}"#)).unwrap();
    assert_eq!(c.members.len(), 1);
    assert_eq!(c.members[0].uri, "/x");
    assert_eq!(c.uris(), vec!["/x".to_string()]);
}

#[test]
fn root_service_has_version_and_managers() {
    let root = RedfishRootService::read(
        r#"{"RedfishVersion":"1.0.2","Managers":{"@odata.id":"/redfish/v1/Managers"}}"#,
    )
    .unwrap();
    assert_eq!(root.version, "1.0.2");
    assert_eq!(root.mngrs.uri, "/redfish/v1/Managers");
    assert!(matches!(
        RedfishRootService::read(r#"{"RedfishVersion":"1.0.2"}"#),
        Err(RedfishError::Mismatch)
    ));
    assert!(matches!(RedfishRootService::read("nonsense"), Err(RedfishError::Malformed(_))));
}

#[test]
fn system_reads_with_the_address_it_was_fetched_from() {
    let system = RedfishSystem::read(SYSTEM, "/redfish/v1/Systems/1").unwrap();
    assert_eq!(system.uri, "/redfish/v1/Systems/1");
    assert_eq!(system.name, "System");
    assert_eq!(system.description, "Computer System");
    assert_eq!(system.serial_num, "SN1");
    assert_eq!(system.part_num, "PN1");
    assert_eq!(system.sys_type, "Physical");
    assert_eq!(system.bios_vers, "2.1");
    assert_eq!(system.manufacturer, "Acme");
    assert_eq!(system.model, "X1");
    assert_eq!(system.sku, Some(String::new()));
    assert_eq!(system.uuid, None);
    assert_eq!(system.pwr_state, Some("On".to_string()));
    assert_eq!(system.locate_led, Some("Off".to_string()));
    assert_eq!(system.chip_summary.ncpus, 2);
    assert_eq!(system.chip_summary.model, "Xeon");
    assert_eq!(system.chip_summary.status.state, Some("Enabled".to_string()));
    assert_eq!(system.chips.uri, "/redfish/v1/Systems/1/Processors");
    assert_eq!(system.memory.total_memory, 256);
    assert_eq!(system.memory.status.health, Some("OK".to_string()));
    assert!(system.eth_intfs.is_none());
    let reset = system.actions.reset.unwrap();
    assert_eq!(reset.target, "/redfish/v1/Systems/1/Actions/ComputerSystem.Reset");
    assert_eq!(reset.reset_type, vec!["On".to_string(), "ForceOff".to_string()]);
    let boot = system.boot.unwrap();
    assert_eq!(boot.override_state, Some("Disabled".to_string()));
    assert_eq!(boot.override_target, None);
    assert_eq!(
        boot.override_alltargets,
        Some(vec!["Pxe".to_string(), "BiosSetup".to_string()])
    );
}

#[test]
fn system_without_a_required_member_is_a_mismatch() {
    let mut v = value(SYSTEM);
    v.as_object_mut().unwrap().remove("BiosVersion");
    assert!(RedfishSystem::decode(&v, "/s").is_none());
    let mut v = value(SYSTEM);
    v.as_object_mut().unwrap().remove("Actions");
    assert!(RedfishSystem::decode(&v, "/s").is_none());
    let mut v = value(SYSTEM);
    v.as_object_mut().unwrap().remove("MemorySummary");
    assert!(RedfishSystem::decode(&v, "/s").is_none());
    let mut v = value(SYSTEM);
    v.as_object_mut().unwrap().remove("Boot");
    v.as_object_mut().unwrap().remove("IndicatorLED");
    v.as_object_mut().unwrap().remove("SKU");
    let system = RedfishSystem::decode(&v, "/s").unwrap();
    assert!(system.boot.is_none());
    assert!(system.locate_led.is_none());
    assert!(system.sku.is_none());
}

#[test]
fn actions_without_reset_have_none() {
    let actions = RedfishSystemActions::decode(&value(r#"{"Oem":{}}"#)).unwrap();
    assert!(actions.reset.is_none());
    assert!(RedfishSystemActions::decode(&value(r##"{"#ComputerSystem.Reset":{}}"##)).is_none());
}

#[test]
fn boot_of_an_empty_object_is_present_with_nothing_in_it() {
    let boot = RedfishSystemBoot::decode(&value("{}")).unwrap();
    assert_eq!(boot.override_state, None);
    assert_eq!(boot.override_target, None);
    assert_eq!(boot.override_alltargets, None);
}

#[test]
fn fan_with_only_the_older_name() {
    let fan = RedfishFan::decode(&value(r#"{"FanName":"Fan 1","Status":{"State":"Enabled"}}"#))
        .unwrap();
    assert_eq!(fan.name, None);
    assert_eq!(fan.fanname, Some("Fan 1".to_string()));
    assert_eq!(fan.uri, "");
    assert_eq!(redfish_util::report::fan_name(&fan), &Some("Fan 1".to_string()));
}

#[test]
fn fan_with_both_names_prefers_the_newer() {
    let fan = RedfishFan::decode(&value(r#"{"FanName":"old","Name":"new","Status":{}}"#)).unwrap();
    assert_eq!(redfish_util::report::fan_name(&fan), &Some("new".to_string()));
}

#[test]
fn fan_with_no_name_has_no_label() {
    let fan = RedfishFan::decode(&value(r#"{"Status":{}}"#)).unwrap();
    assert_eq!(redfish_util::report::fan_name(&fan), &None);
    assert!(RedfishFan::decode(&value(r#"{"Name":"x"}"#)).is_none());
}

#[test]
fn thermal_and_power_list_their_parts_in_order() {
    let thermal = RedfishThermal::read(
        r#"{"Fans":[{"Name":"B","Status":{}},{"FanName":"A","Status":{"Health":"OK"}}]}"#,
        "/redfish/v1/Chassis/1/Thermal",
    )
    .unwrap();
    assert_eq!(thermal.uri, "/redfish/v1/Chassis/1/Thermal");
    assert_eq!(thermal.fans.len(), 2);
    assert_eq!(thermal.fans[0].name, Some("B".to_string()));
    assert_eq!(thermal.fans[1].fanname, Some("A".to_string()));
    let power = RedfishPower::read(
        r#"{"PowerSupplies":[{"Name":"PSU2","Status":{}},{"Name":"PSU1","Model":"M","SerialNumber":"S","Status":{}}]}"#,
        "/p",
    )
    .unwrap();
    assert_eq!(power.uri, "/p");
    assert_eq!(power.power_supplies.len(), 2);
    assert_eq!(power.power_supplies[0].name, "PSU2");
    assert_eq!(power.power_supplies[0].model, None);
    assert_eq!(power.power_supplies[1].model, Some("M".to_string()));
    assert_eq!(power.power_supplies[1].serial, Some("S".to_string()));
    assert!(matches!(
        RedfishPower::read(r#"{"PowerSupplies":[{"Status":{}}]}"#, "/p"),
        Err(RedfishError::Mismatch)
    ));
}

#[test]
fn chassis_links_are_optional() {
    let chassis = RedfishChassis::read(
        r#"{"Name":"Enclosure","ChassisType":"RackMount","SerialNumber":"S","PartNumber":"P",
            "Thermal":{"@odata.id":"/t"}}"#,
        "/redfish/v1/Chassis/1",
    )
    .unwrap();
    assert_eq!(chassis.uri, "/redfish/v1/Chassis/1");
    assert_eq!(chassis.name, "Enclosure");
    assert_eq!(chassis.chassis_type, "RackMount");
    assert_eq!(chassis.manufacturer, None);
    assert!(chassis.power.is_none());
    assert_eq!(chassis.thermal.unwrap().uri, "/t");
    assert!(chassis.status.is_none());
}

#[test]
fn manager_consoles_are_optional() {
    let manager = RedfishManager::read(
        r#"{"ManagerType":"BMC","Status":{"State":"Enabled"},
            "SerialConsole":{"ServiceEnabled":false,"MaxConcurrentSessions":1}}"#,
        "/redfish/v1/Managers/1",
    )
    .unwrap();
    assert_eq!(manager.uri, "/redfish/v1/Managers/1");
    assert_eq!(manager.mngr_type, "BMC");
    assert_eq!(manager.model, None);
    assert_eq!(manager.fw_version, None);
    assert!(manager.eth_intfs.is_none());
    assert!(manager.cons_graph.is_none());
    assert!(!manager.cons_serial.unwrap().enabled);
    assert!(manager.cons_shell.is_none());
}

#[test]
fn interface_reads_addresses_and_flags() {
    let e = RedfishEthernetIntf::read(
        r#"{"Name":"eth0","MACAddress":"00:11:22:33:44:55","SpeedMbps":1000,"MTUSize":0,
            "InterfaceEnabled":false,
            "IPv4Addresses":[{"Address":"10.0.0.2","SubnetMask":"255.255.255.0",
                "AddressOrigin":"DHCP","Gateway":"10.0.0.1"}],
            "Status":{"Health":"OK"}}"#,
        "/redfish/v1/Managers/1/EthernetInterfaces/1",
    )
    .unwrap();
    assert_eq!(e.uri, "/redfish/v1/Managers/1/EthernetInterfaces/1");
    assert_eq!(e.name, "eth0");
    assert_eq!(e.mac_addr, Some("00:11:22:33:44:55".to_string()));
    assert_eq!(e.link_state, None);
    assert_eq!(e.link_speed, Some(1000));
    assert_eq!(e.link_mtu, Some(0));
    assert_eq!(e.enabled, Some(false));
    assert_eq!(e.auto_neg, None);
    assert_eq!(e.full_duplex, None);
    assert_eq!(e.uefi_devpath, None);
    assert_eq!(e.fqdn, None);
    assert_eq!(e.hostname, None);
    let addresses = e.ipv4.unwrap();
    assert_eq!(addresses.len(), 1);
    assert_eq!(addresses[0].address, "10.0.0.2");
    assert_eq!(addresses[0].subnet, "255.255.255.0");
    assert_eq!(addresses[0].origin, "DHCP");
    assert_eq!(addresses[0].gateway, "10.0.0.1");
    assert!(matches!(
        RedfishEthernetIntf::read(
            r#"{"Name":"eth0","IPv4Addresses":[{"Address":"10.0.0.2"}],"Status":{}}"#,
            "/e"
        ),
        Err(RedfishError::Mismatch)
    ));
}

#[test]
fn processor_reads_its_figures() {
    let chip = RedfishProcessor::read(
        r#"{"Socket":"CPU1","Model":"Xeon Gold","Manufacturer":"Intel","MaxSpeedMHz":3900,
            "TotalCores":16,"TotalThreads":32,"ProcessorArchitecture":"x86",
            "InstructionSet":"x86-64","ProcessorId":{"Step":"4"},"Status":{}}"#,
        "/redfish/v1/Systems/1/Processors/1",
    )
    .unwrap();
    assert_eq!(chip.uri, "/redfish/v1/Systems/1/Processors/1");
    assert_eq!(chip.socket, "CPU1");
    assert_eq!(chip.brand, "Xeon Gold");
    assert_eq!(chip.manufacturer, "Intel");
    assert_eq!(chip.speed_mhz, 3900);
    assert_eq!(chip.ncores, 16);
    assert_eq!(chip.nthreads, 32);
    assert_eq!(chip.arch, "x86");
    assert_eq!(chip.isa, "x86-64");
    assert_eq!(chip.id.family, None);
    assert_eq!(chip.id.model, None);
    assert_eq!(chip.id.stepping, Some("4".to_string()));
    assert_eq!(chip.id.ucode_version, None);
    assert!(matches!(
        RedfishProcessor::read(
            r#"{"Socket":"CPU1","Model":"Xeon Gold","Manufacturer":"Intel","MaxSpeedMHz":3900.5,
            "TotalCores":16,"TotalThreads":32,"ProcessorArchitecture":"x86",
            "InstructionSet":"x86-64","ProcessorId":{"Step":"4"},"Status":{}}"#,
            "/c"
        ),
        Err(RedfishError::Mismatch)
    ));
}
