use redfish_util::redfish::{
    RedfishChassis, RedfishEthernetIntf, RedfishManager, RedfishPower, RedfishProcessor,
    RedfishRootService, RedfishStatus, RedfishSystem, RedfishThermal,
};
use redfish_util::report::{
    console_types, print_ethernet_intfs, print_status, show_chassis, show_system, show_version,
    ChassisReport, ManagerReport, SystemReport,
};
use redfish_util::text::{aligned_line, count_text, number_text};

fn field(indent: usize, label: &str, value: &str) -> String {
    format!("{0}{1: <20} {2}", " ".repeat(indent), label, value)
}

fn status(state: Option<&str>, health: Option<&str>, rollup: Option<&str>) -> RedfishStatus {
    RedfishStatus {
        state: state.map(|s| s.to_string()),
        health: health.map(|s| s.to_string()),
        health_rollup: rollup.map(|s| s.to_string()),
    }
}

const SYSTEM: &str = r##"{
    "Name": "System", "Description": "Computer System", "SerialNumber": "SN1",
    "PartNumber": "PN1", "SystemType": "Physical", "BiosVersion": "2.1",
    "Manufacturer": "Acme", "Model": "X1", "UUID": "abc-def", "PowerState": "On",
    "ProcessorSummary": {"Count": 1, "Model": "Xeon", "Status": {}},
    "Processors": {"@odata.id": "/redfish/v1/Systems/1/Processors"},
    "MemorySummary": {"TotalSystemMemoryGiB": 256, "Status": {"Health": "OK"}},
    "Actions": {}
}"##;

const PROCESSOR: &str = r#"{"Socket":"CPU1","Model":"Xeon Gold","Manufacturer":"Intel",
    "MaxSpeedMHz":3900,"TotalCores":16,"TotalThreads":32,"ProcessorArchitecture":"x86",
    "InstructionSet":"x86-64","ProcessorId":{"EffectiveFamily":"6","Step":"4"},
    "Status":{"State":"Enabled"}}"#;

const INTERFACE: &str = r#"{"Name":"eth0","MACAddress":"00:11:22:33:44:55","LinkStatus":"LinkUp",
    "IPv4Addresses":[{"Address":"10.0.0.2","SubnetMask":"255.255.255.0",
        "AddressOrigin":"DHCP","Gateway":"10.0.0.1"}],
    "Status":{"Health":"OK"}}"#;

#[test]
fn line_pads_the_label_to_the_value_column() {
    assert_eq!(aligned_line(2, "Name:", "x"), "  Name:                x");
    assert_eq!(aligned_line(0, "Health Rollup:", "OK"), "Health Rollup:       OK");
    assert_eq!(aligned_line(4, "", ""), format!("{}", " ".repeat(25)));
    assert_eq!(aligned_line(6, "State:", "Enabled"), field(6, "State:", "Enabled"));
}

#[test]
fn line_keeps_a_label_longer_than_the_column() {
    assert_eq!(aligned_line(0, "12345678901234567890", "v"), "12345678901234567890 v");
    assert_eq!(aligned_line(1, "123456789012345678901234", "v"), " 123456789012345678901234 v");
}

#[test]
fn line_counts_characters_not_bytes() {
    assert_eq!(aligned_line(0, "Größe:", "1"), field(0, "Größe:", "1"));
}

#[test]
fn numbers_in_decimal() {
    assert_eq!(number_text(0), "0");
    assert_eq!(number_text(7), "7");
    assert_eq!(number_text(10), "10");
    assert_eq!(number_text(3900), "3900");
    assert_eq!(number_text(-1), "-1");
    assert_eq!(number_text(-120), "-120");
    assert_eq!(number_text(i32::MAX), "2147483647");
    assert_eq!(number_text(i32::MIN), "-2147483648");
    assert_eq!(count_text(0), "0");
    assert_eq!(count_text(1234567890), "1234567890");
    assert_eq!(count_text(usize::MAX), usize::MAX.to_string());
}

#[test]
fn status_with_only_health_shows_one_line() {
    let mut out = Vec::new();
    print_status(&mut out, &status(None, Some("OK"), None), 4);
    assert_eq!(out, vec!["    Health:              OK".to_string()]);
}

#[test]
fn status_lines_come_in_order() {
    let mut out = vec!["before".to_string()];
    print_status(&mut out, &status(Some("Enabled"), Some("OK"), Some("Warning")), 2);
    assert_eq!(
        out,
        vec![
            "before".to_string(),
            field(2, "State:", "Enabled"),
            field(2, "Health:", "OK"),
            field(2, "Health Rollup:", "Warning"),
        ]
    );
}

#[test]
fn status_with_nothing_reported_shows_nothing() {
    let mut out = Vec::new();
    print_status(&mut out, &status(None, None, None), 4);
    assert!(out.is_empty());
}

#[test]
fn status_shows_an_empty_text_as_a_line() {
    let mut out = Vec::new();
    print_status(&mut out, &status(Some(""), None, None), 0);
    assert_eq!(out, vec![field(0, "State:", "")]);
}

#[test]
fn version_report_is_one_line() {
    let root = RedfishRootService::read(
        r#"{"RedfishVersion":"1.6.0","Managers":{"@odata.id":"/redfish/v1/Managers"}}"#,
    )
    .unwrap();
    assert_eq!(show_version(&root), vec!["Redfish version: 1.6.0".to_string()]);
}

#[test]
fn interfaces_section() {
    let e = RedfishEthernetIntf::read(INTERFACE, "/e").unwrap();
    let bare = RedfishEthernetIntf::read(r#"{"Name":"eth1","Status":{}}"#, "/f").unwrap();
    let mut out = Vec::new();
    print_ethernet_intfs(&mut out, &vec![e, bare]);
    assert_eq!(
        out,
        vec![
            String::new(),
            "  Ethernet Interfaces".to_string(),
            field(4, "Label:", "eth0"),
            field(4, "MAC Address:", "00:11:22:33:44:55"),
            field(4, "Link State:", "LinkUp"),
            field(4, "IPv4 Address:", "10.0.0.2"),
            field(4, "IPv4 Subnet:", "255.255.255.0"),
            field(4, "IPv4 Gateway:", "10.0.0.1"),
            field(4, "IPv4 Source:", "DHCP"),
            "    Status".to_string(),
            field(6, "Health:", "OK"),
            String::new(),
            field(4, "Label:", "eth1"),
            "    Status".to_string(),
            String::new(),
        ]
    );
}

#[test]
fn interfaces_section_without_interfaces_is_its_heading() {
    let mut out = Vec::new();
    print_ethernet_intfs(&mut out, &Vec::new());
    assert_eq!(out, vec![String::new(), "  Ethernet Interfaces".to_string()]);
}

#[test]
fn chassis_report_without_chassis() {
    assert_eq!(show_chassis(&Vec::new()), vec!["Number of Chassis: 0".to_string()]);
}

#[test]
fn chassis_report_with_supplies_and_fans() {
    let chassis = RedfishChassis::read(
        r#"{"Name":"Enclosure","ChassisType":"RackMount","Manufacturer":"Acme",
            "SerialNumber":"SX","PartNumber":"PX","Status":{"State":"Enabled","Health":"OK"},
            "Power":{"@odata.id":"/p"},"Thermal":{"@odata.id":"/t"}}"#,
        "/redfish/v1/Chassis/1",
    )
    .unwrap();
    let power = RedfishPower::read(
        r#"{"PowerSupplies":[{"Name":"PSU1","Model":"M","SerialNumber":"S","Status":{"Health":"OK"}},
            {"Name":"PSU2","Status":{}}]}"#,
        "/p",
    )
    .unwrap();
    let thermal = RedfishThermal::read(
        r#"{"Fans":[{"FanName":"Fan 1","Status":{"State":"Enabled"}},
            {"Name":"Fan 2","FanName":"old","Status":{}},
            {"Status":{"Health":"Critical"}}]}"#,
        "/t",
    )
    .unwrap();
    let bare = RedfishChassis::read(
        r#"{"Name":"Sled","ChassisType":"Sled","SerialNumber":"","PartNumber":""}"#,
        "/redfish/v1/Chassis/2",
    )
    .unwrap();
    let lines = show_chassis(&vec![
        ChassisReport { chassis, power: Some(power), thermal: Some(thermal) },
        ChassisReport { chassis: bare, power: None, thermal: None },
    ]);
    assert_eq!(
        lines,
        vec![
            "Number of Chassis: 2".to_string(),
            "Chassis Details".to_string(),
            field(2, "Name:", "Enclosure"),
            field(2, "Type:", "RackMount"),
            field(2, "Manufacturer:", "Acme"),
            field(2, "Serial Number:", "SX"),
            field(2, "Part Number:", "PX"),
            field(2, "State:", "Enabled"),
            field(2, "Health:", "OK"),
            String::new(),
            "  Power Supplies".to_string(),
            field(4, "Label:", "PSU1"),
            field(4, "Model:", "M"),
            field(4, "Serial:", "S"),
            field(4, "Health:", "OK"),
            String::new(),
            field(4, "Label:", "PSU2"),
            String::new(),
            "  Fans".to_string(),
            field(4, "Label:", "Fan 1"),
            field(4, "State:", "Enabled"),
            String::new(),
            field(4, "Label:", "Fan 2"),
            String::new(),
            field(4, "Health:", "Critical"),
            String::new(),
            "Chassis Details".to_string(),
            field(2, "Name:", "Sled"),
            field(2, "Type:", "Sled"),
            field(2, "Serial Number:", ""),
            field(2, "Part Number:", ""),
        ]
    );
}

#[test]
fn console_types_lists_what_is_switched_on() {
    let all = RedfishManager::read(
        r#"{"ManagerType":"BMC","Status":{},
            "GraphicalConsole":{"ServiceEnabled":true,"MaxConcurrentSessions":4},
            "SerialConsole":{"ServiceEnabled":true,"MaxConcurrentSessions":1},
            "CommandShell":{"ServiceEnabled":true,"MaxConcurrentSessions":2}}"#,
        "/m",
    )
    .unwrap();
    assert_eq!(console_types(&all), "KVM Serial CLI");
    let some = RedfishManager::read(
        r#"{"ManagerType":"BMC","Status":{},
            "GraphicalConsole":{"ServiceEnabled":false,"MaxConcurrentSessions":4},
            "SerialConsole":{"ServiceEnabled":true,"MaxConcurrentSessions":1}}"#,
        "/m",
    )
    .unwrap();
    assert_eq!(console_types(&some), "Serial ");
    let none = RedfishManager::read(r#"{"ManagerType":"BMC","Status":{}}"#, "/m").unwrap();
    assert_eq!(console_types(&none), "");
}

#[test]
fn system_report_with_managers_and_systems() {
    let manager = RedfishManager::read(
        r#"{"ManagerType":"BMC","Model":"iBMC","FirmwareVersion":"1.2","Status":{"State":"Enabled"},
            "EthernetInterfaces":{"@odata.id":"/m/e"},
            "GraphicalConsole":{"ServiceEnabled":true,"MaxConcurrentSessions":4},
            "CommandShell":{"ServiceEnabled":true,"MaxConcurrentSessions":2}}"#,
        "/m",
    )
    .unwrap();
    let plain = RedfishManager::read(r#"{"ManagerType":"Enclosure","Status":{}}"#, "/n").unwrap();
    let system = RedfishSystem::read(SYSTEM, "/redfish/v1/Systems/1").unwrap();
    let chip = RedfishProcessor::read(PROCESSOR, "/c").unwrap();
    let lines = show_system(
        &vec![
            ManagerReport {
                manager,
                eth_intfs: Some(vec![RedfishEthernetIntf::read(INTERFACE, "/e").unwrap()]),
            },
            ManagerReport { manager: plain, eth_intfs: None },
        ],
        &vec![SystemReport { system, chips: vec![chip], eth_intfs: Some(Vec::new()) }],
    );
    assert_eq!(
        lines,
        vec![
            "Managers".to_string(),
            field(2, "Type:", "BMC"),
            field(2, "Model:", "iBMC"),
            field(2, "Firmware Version:", "1.2"),
            field(2, "Console Types:", "KVM CLI"),
            "  Status".to_string(),
            field(4, "State:", "Enabled"),
            String::new(),
            "  Ethernet Interfaces".to_string(),
            field(4, "Label:", "eth0"),
            field(4, "MAC Address:", "00:11:22:33:44:55"),
            field(4, "Link State:", "LinkUp"),
            field(4, "IPv4 Address:", "10.0.0.2"),
            field(4, "IPv4 Subnet:", "255.255.255.0"),
            field(4, "IPv4 Gateway:", "10.0.0.1"),
            field(4, "IPv4 Source:", "DHCP"),
            "    Status".to_string(),
            field(6, "Health:", "OK"),
            String::new(),
            String::new(),
            field(2, "Type:", "Enclosure"),
            field(2, "Console Types:", ""),
            "  Status".to_string(),
            String::new(),
            "System Details".to_string(),
            field(2, "Type:", "Physical"),
            field(2, "Manufacturer:", "Acme"),
            field(2, "Model:", "X1"),
            field(2, "Serial Number:", "SN1"),
            field(2, "Part Number:", "PN1"),
            field(2, "UUID:", "abc-def"),
            field(2, "BIOS Version:", "2.1"),
            field(2, "Power Status:", "On"),
            "  Status".to_string(),
            field(4, "Health:", "OK"),
            String::new(),
            "  Processors".to_string(),
            String::new(),
            field(4, "Label:", "CPU1"),
            field(4, "Manufacturer:", "Intel"),
            field(4, "Brand:", "Xeon Gold"),
            field(4, "Family:", "6"),
            field(4, "Stepping:", "4"),
            field(4, "Speed:", "3900 MHz"),
            field(4, "Total Cores:", "16"),
            field(4, "Total Threads:", "32"),
            "    Status".to_string(),
            field(6, "State:", "Enabled"),
            String::new(),
            "  Memory".to_string(),
            field(4, "Total RAM:", "256 GiB"),
            String::new(),
            "  Ethernet Interfaces".to_string(),
        ]
    );
}

#[test]
fn system_report_with_nothing_is_its_heading() {
    assert_eq!(show_system(&Vec::new(), &Vec::new()), vec!["Managers".to_string()]);
}
