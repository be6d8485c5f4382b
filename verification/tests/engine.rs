use redfish_util::action::{
    act, command_of, do_boot, do_identify, do_power, select_system, Command,
};
use redfish_util::engine::{begin, Step};
use redfish_util::error::RedfishError;
use redfish_util::redfish::RedfishSystem;
use redfish_util::transport::{
    do_get_request, do_http_request, receive, trace_reply, trace_request, HTTPReqType, Reply,
    Request,
};
use redfish_util::{run, Config, ConfigFile, ConfigFileEntry, RedfishUtilCmd};

fn config(cmd: &str, arg: Option<&str>) -> Config {
    Config::new(
        false,
        true,
        "root".to_string(),
        "secret".to_string(),
        "bmc.example".to_string(),
        RedfishUtilCmd::new(cmd.to_string(), arg.map(|a| a.to_string())),
    )
}

fn field(indent: usize, label: &str, value: &str) -> String {
    format!("{0}{1: <20} {2}", " ".repeat(indent), label, value)
}

/// A controller that answers from a table of paths. A path that is not in
/// the table is answered with 404.
fn answer(routes: &[(&str, u16, &str)], request: &Request) -> Reply {
    let prefix = "https://bmc.example";
    assert!(request.url.starts_with(prefix));
    let path = &request.url[prefix.len()..];
    for (route, status, body) in routes {
        if *route == path {
            return Reply::Answer { status: *status, body: body.to_string() };
        }
    }
    Reply::Answer { status: 404, body: String::new() }
}

struct Sent {
    method: HTTPReqType,
    path: String,
    body: Option<String>,
    timeout: Option<u64>,
}

/// Runs a command against the table and records what was sent.
fn drive(
    config: &Config,
    routes: &[(&str, u16, &str)],
) -> (Vec<Sent>, Result<Vec<String>, RedfishError>) {
    let mut sent = Vec::new();
    let mut step = run(config);
    for _ in 0..1000 {
        match step {
            Step::Done(outcome) => return (sent, outcome),
            Step::Send(request, session) => {
                assert_eq!(request.user, "root");
                assert_eq!(request.passwd, "secret");
                assert!(request.insecure);
                let reply = answer(routes, &request);
                sent.push(Sent {
                    method: request.method,
                    path: request.url["https://bmc.example".len()..].to_string(),
                    body: request.body,
                    timeout: request.timeout,
                });
                step = session.advance(reply);
            },
        }
    }
    panic!("the command does not end");
}

fn paths(sent: &[Sent]) -> Vec<String> {
    sent.iter().map(|s| s.path.clone()).collect()
}

const SYSTEMS: &str = r#"{"Members":[
    {"@odata.id":"/redfish/v1/Systems/437XR1138R2"},
    {"@odata.id":"/redfish/v1/Systems/B"},
    {"@odata.id":"/redfish/v1/Systems/C"}]}"#;

const SYSTEM: &str = r##"{
    "Name": "System", "Description": "Computer System", "SerialNumber": "SN1",
    "PartNumber": "PN1", "SystemType": "Physical", "BiosVersion": "2.1",
    "Manufacturer": "Acme", "Model": "X1", "IndicatorLED": "Off",
    "ProcessorSummary": {"Count": 1, "Model": "Xeon", "Status": {}},
    "Processors": {"@odata.id": "/redfish/v1/Systems/1/Processors"},
    "MemorySummary": {"TotalSystemMemoryGiB": 64, "Status": {"Health": "OK"}},
    "EthernetInterfaces": {"@odata.id": "/redfish/v1/Systems/1/EthernetInterfaces"},
    "Actions": {"#ComputerSystem.Reset": {
        "target": "/redfish/v1/Systems/437XR1138R2/Actions/ComputerSystem.Reset",
        "ResetType@Redfish.AllowableValues": ["On", "ForceOff"]}},
    "Boot": {"BootSourceOverrideEnabled": "Disabled"}
}"##;

const BARE_SYSTEM: &str = r##"{
    "Name": "System", "Description": "Computer System", "SerialNumber": "SN2",
    "PartNumber": "PN2", "SystemType": "Physical", "BiosVersion": "2.1",
    "Manufacturer": "Acme", "Model": "X2",
    "ProcessorSummary": {"Count": 0, "Model": "", "Status": {}},
    "Processors": {"@odata.id": "/redfish/v1/Systems/2/Processors"},
    "MemorySummary": {"TotalSystemMemoryGiB": 0, "Status": {}},
    "Actions": {}
}"##;

const PROCESSOR: &str = r#"{"Socket":"CPU1","Model":"Xeon Gold","Manufacturer":"Intel",
    "MaxSpeedMHz":3900,"TotalCores":16,"TotalThreads":32,"ProcessorArchitecture":"x86",
    "InstructionSet":"x86-64","ProcessorId":{},"Status":{}}"#;

#[test]
fn reset_posts_the_restart_to_the_advertised_target() {
    let (sent, outcome) = drive(
        &config("reset", None),
        &[
            ("/redfish/v1/Systems", 200, SYSTEMS),
            ("/redfish/v1/Systems/437XR1138R2", 200, SYSTEM),
            ("/redfish/v1/Systems/437XR1138R2/Actions/ComputerSystem.Reset", 204, ""),
        ],
    );
    assert_eq!(outcome.unwrap(), Vec::<String>::new());
    assert_eq!(sent.len(), 3);
    assert_eq!(sent[0].method, HTTPReqType::Get);
    assert_eq!(sent[0].path, "/redfish/v1/Systems");
    assert_eq!(sent[0].body, None);
    assert_eq!(sent[1].method, HTTPReqType::Get);
    assert_eq!(sent[1].path, "/redfish/v1/Systems/437XR1138R2");
    assert_eq!(sent[1].body, None);
    assert_eq!(sent[2].method, HTTPReqType::Post);
    assert_eq!(sent[2].path, "/redfish/v1/Systems/437XR1138R2/Actions/ComputerSystem.Reset");
    assert_eq!(sent[2].body, Some("{\"ResetType\":\"GracefulRestart\"}".to_string()));
}

#[test]
fn every_power_command_has_its_reset_type() {
    let cases = [
        ("nmi", "Nmi"),
        ("off", "GracefulShutdown"),
        ("on", "On"),
        ("reset", "GracefulRestart"),
        ("forceoff", "ForceOff"),
        ("forceon", "ForceOn"),
        ("forcereset", "ForceRestart"),
    ];
    for (cmd, kind) in cases {
        let (sent, outcome) = drive(
            &config(cmd, None),
            &[
                ("/redfish/v1/Systems", 200, SYSTEMS),
                ("/redfish/v1/Systems/437XR1138R2", 200, SYSTEM),
                ("/redfish/v1/Systems/437XR1138R2/Actions/ComputerSystem.Reset", 200, "{}"),
            ],
        );
        assert!(outcome.is_ok());
        assert_eq!(sent[2].method, HTTPReqType::Post);
        assert_eq!(sent[2].body, Some(format!("{{\"ResetType\":\"{}\"}}", kind)));
    }
}

#[test]
fn power_command_without_reset_capability_is_unsupported() {
    for cmd in ["nmi", "off", "on", "reset", "forceoff", "forceon", "forcereset"] {
        let (sent, outcome) = drive(
            &config(cmd, None),
            &[
                ("/redfish/v1/Systems", 200, r#"{"Members":[{"@odata.id":"/redfish/v1/Systems/2"}]}"#),
                ("/redfish/v1/Systems/2", 200, BARE_SYSTEM),
            ],
        );
        assert!(matches!(outcome, Err(RedfishError::Unsupported)));
        assert_eq!(paths(&sent), vec!["/redfish/v1/Systems", "/redfish/v1/Systems/2"]);
        assert!(sent.iter().all(|s| s.method == HTTPReqType::Get));
        assert!(sent.iter().all(|s| s.body.is_none()));
    }
}

#[test]
fn without_an_identifier_the_first_system_is_meant() {
    let (sent, _) = drive(
        &config("on", None),
        &[("/redfish/v1/Systems", 200, SYSTEMS), ("/redfish/v1/Systems/437XR1138R2", 200, SYSTEM)],
    );
    assert_eq!(sent[1].path, "/redfish/v1/Systems/437XR1138R2");
}

#[test]
fn with_an_identifier_the_system_below_the_collection_is_meant() {
    let (sent, outcome) = drive(
        &config("identifyon", Some("2")),
        &[
            ("/redfish/v1/Systems", 200, SYSTEMS),
            ("/redfish/v1/Systems/2", 200, SYSTEM),
        ],
    );
    assert_eq!(sent[0].path, "/redfish/v1/Systems");
    assert_eq!(sent[1].path, "/redfish/v1/Systems/2");
    assert_eq!(sent[2].method, HTTPReqType::Patch);
    assert_eq!(sent[2].path, "/redfish/v1/Systems/2");
    assert_eq!(sent.len(), 3);
    assert!(outcome.is_ok());
}

#[test]
fn select_system_by_identifier_or_first() {
    let members = vec!["/a/1".to_string(), "/a/2".to_string(), "/a/3".to_string()];
    assert_eq!(select_system(&None, &members), Some("/a/1".to_string()));
    assert_eq!(
        select_system(&Some("2".to_string()), &members),
        Some("/redfish/v1/Systems/2".to_string())
    );
    assert_eq!(
        select_system(&Some("x".to_string()), &Vec::new()),
        Some("/redfish/v1/Systems/x".to_string())
    );
    assert_eq!(select_system(&Some(String::new()), &members), Some("/redfish/v1/Systems/".to_string()));
    assert_eq!(select_system(&None, &Vec::new()), None);
}

#[test]
fn no_system_to_act_on_is_a_mismatch() {
    let (sent, outcome) =
        drive(&config("on", None), &[("/redfish/v1/Systems", 200, r#"{"Members":[]}"#)]);
    assert!(matches!(outcome, Err(RedfishError::Mismatch)));
    assert_eq!(sent.len(), 1);
}

#[test]
fn boot_override_patches_the_system() {
    let (sent, outcome) = drive(
        &config("biossetup", None),
        &[
            ("/redfish/v1/Systems", 200, SYSTEMS),
            ("/redfish/v1/Systems/437XR1138R2", 200, SYSTEM),
        ],
    );
    assert!(outcome.is_ok());
    assert_eq!(sent.len(), 3);
    assert_eq!(sent[2].method, HTTPReqType::Patch);
    assert_eq!(sent[2].path, "/redfish/v1/Systems/437XR1138R2");
    assert_eq!(
        sent[2].body,
        Some(
            "{ \"Boot\": { \"BootSourceOverrideEnabled\":\"Once\", \"BootSourceOverrideTarget\": \"BiosSetup\" }}"
                .to_string()
        )
    );
    let parsed: serde_json::Value = serde_json::from_str(sent[2].body.as_ref().unwrap()).unwrap();
    assert_eq!(parsed["Boot"]["BootSourceOverrideTarget"], "BiosSetup");
    assert_eq!(parsed["Boot"]["BootSourceOverrideEnabled"], "Once");
}

#[test]
fn boot_override_without_boot_capability_is_unsupported() {
    let (sent, outcome) = drive(
        &config("biossetup", Some("2")),
        &[("/redfish/v1/Systems", 200, SYSTEMS), ("/redfish/v1/Systems/2", 200, BARE_SYSTEM)],
    );
    assert!(matches!(outcome, Err(RedfishError::Unsupported)));
    assert_eq!(sent.len(), 2);
    assert!(sent.iter().all(|s| s.method == HTTPReqType::Get));
}

#[test]
fn identify_sets_the_light() {
    for (cmd, state) in [("identifyon", "Blinking"), ("identifyoff", "Off")] {
        let (sent, outcome) = drive(
            &config(cmd, None),
            &[
                ("/redfish/v1/Systems", 200, SYSTEMS),
                ("/redfish/v1/Systems/437XR1138R2", 200, SYSTEM),
            ],
        );
        assert!(outcome.is_ok());
        assert_eq!(sent[2].method, HTTPReqType::Patch);
        assert_eq!(sent[2].path, "/redfish/v1/Systems/437XR1138R2");
        assert_eq!(sent[2].body, Some(format!("{{\"IndicatorLED\":\"{}\"}}", state)));
    }
}

#[test]
fn identify_without_a_light_is_unsupported() {
    let (sent, outcome) = drive(
        &config("identifyon", Some("2")),
        &[("/redfish/v1/Systems", 200, SYSTEMS), ("/redfish/v1/Systems/2", 200, BARE_SYSTEM)],
    );
    assert!(matches!(outcome, Err(RedfishError::Unsupported)));
    assert_eq!(sent.len(), 2);
}

#[test]
fn refused_action_fails_with_its_status() {
    let (sent, outcome) = drive(
        &config("off", None),
        &[
            ("/redfish/v1/Systems", 200, SYSTEMS),
            ("/redfish/v1/Systems/437XR1138R2", 200, SYSTEM),
            ("/redfish/v1/Systems/437XR1138R2/Actions/ComputerSystem.Reset", 400, "{}"),
        ],
    );
    assert!(matches!(outcome, Err(RedfishError::RequestFailed(400))));
    assert_eq!(sent.len(), 3);
}

#[test]
fn unauthorized_get_fails_with_401_and_shows_nothing() {
    for cmd in ["version", "chassis", "system", "reset"] {
        let (sent, outcome) = drive(
            &config(cmd, None),
            &[
                ("/redfish/v1", 401, "{\"error\":\"no\"}"),
                ("/redfish/v1/Chassis", 401, ""),
                ("/redfish/v1/Systems", 401, ""),
            ],
        );
        match outcome {
            Err(RedfishError::RequestFailed(code)) => assert_eq!(code, 401),
            _ => panic!("a failed request is expected"),
        }
        assert_eq!(sent.len(), 1);
    }
}

#[test]
fn failure_in_the_middle_of_a_report_shows_nothing() {
    let (sent, outcome) = drive(
        &config("chassis", None),
        &[
            ("/redfish/v1/Chassis", 200, r#"{"Members":[{"@odata.id":"/c/1"},{"@odata.id":"/c/2"}]}"#),
            ("/c/1", 200, r#"{"Name":"A","ChassisType":"Rack","SerialNumber":"","PartNumber":""}"#),
            ("/c/2", 401, ""),
        ],
    );
    assert!(matches!(outcome, Err(RedfishError::RequestFailed(401))));
    assert_eq!(paths(&sent), vec!["/redfish/v1/Chassis", "/c/1", "/c/2"]);
}

#[test]
fn lost_request_fails_with_the_transport_words() {
    let step = run(&config("version", None));
    let session = match step {
        Step::Send(_, session) => session,
        Step::Done(_) => panic!("a request is expected"),
    };
    match session.advance(Reply::Failed("connection refused".to_string())) {
        Step::Done(Err(RedfishError::Transport(words))) => assert_eq!(words, "connection refused"),
        _ => panic!("a transport failure is expected"),
    }
}

#[test]
fn body_that_is_no_json_is_malformed() {
    let (_, outcome) = drive(&config("version", None), &[("/redfish/v1", 200, "<html>")]);
    assert!(matches!(outcome, Err(RedfishError::Malformed(_))));
}

#[test]
fn body_of_another_shape_is_a_mismatch() {
    let (_, outcome) = drive(&config("version", None), &[("/redfish/v1", 200, "{}")]);
    assert!(matches!(outcome, Err(RedfishError::Mismatch)));
    let (sent, outcome) = drive(
        &config("reset", None),
        &[("/redfish/v1/Systems", 200, SYSTEMS), ("/redfish/v1/Systems/437XR1138R2", 200, "{}")],
    );
    assert!(matches!(outcome, Err(RedfishError::Mismatch)));
    assert_eq!(sent.len(), 2);
}

#[test]
fn version_report() {
    let (sent, outcome) = drive(
        &config("version", None),
        &[("/redfish/v1", 200, r#"{"RedfishVersion":"1.6.0","Managers":{"@odata.id":"/m"}}"#)],
    );
    assert_eq!(outcome.unwrap(), vec!["Redfish version: 1.6.0".to_string()]);
    assert_eq!(paths(&sent), vec!["/redfish/v1"]);
    assert_eq!(sent[0].method, HTTPReqType::Get);
}

#[test]
fn chassis_report_walks_each_chassis_with_power_and_thermal() {
    let (sent, outcome) = drive(
        &config("chassis", None),
        &[
            (
                "/redfish/v1/Chassis",
                200,
                r#"{"Members":[{"@odata.id":"/c/1"},{"@odata.id":"/c/2"},{"@odata.id":"/c/3"}]}"#,
            ),
            (
                "/c/1",
                200,
                r#"{"Name":"A","ChassisType":"Rack","SerialNumber":"S","PartNumber":"P",
                    "Power":{"@odata.id":"/c/1/Power"},"Thermal":{"@odata.id":"/c/1/Thermal"}}"#,
            ),
            ("/c/1/Power", 200, r#"{"PowerSupplies":[{"Name":"PSU","Status":{"Health":"OK"}}]}"#),
            ("/c/1/Thermal", 200, r#"{"Fans":[{"FanName":"Fan 1","Status":{}}]}"#),
            ("/c/2", 200, r#"{"Name":"B","ChassisType":"Blade","SerialNumber":"","PartNumber":""}"#),
            (
                "/c/3",
                200,
                r#"{"Name":"C","ChassisType":"Blade","SerialNumber":"","PartNumber":"",
                    "Thermal":{"@odata.id":"/c/3/Thermal"}}"#,
            ),
            ("/c/3/Thermal", 200, r#"{"Fans":[]}"#),
        ],
    );
    assert_eq!(
        paths(&sent),
        vec![
            "/redfish/v1/Chassis",
            "/c/1",
            "/c/1/Power",
            "/c/1/Thermal",
            "/c/2",
            "/c/3",
            "/c/3/Thermal"
        ]
    );
    assert!(sent.iter().all(|s| s.method == HTTPReqType::Get && s.body.is_none()));
    assert_eq!(
        outcome.unwrap(),
        vec![
            "Number of Chassis: 3".to_string(),
            "Chassis Details".to_string(),
            field(2, "Name:", "A"),
            field(2, "Type:", "Rack"),
            field(2, "Serial Number:", "S"),
            field(2, "Part Number:", "P"),
            String::new(),
            "  Power Supplies".to_string(),
            field(4, "Label:", "PSU"),
            field(4, "Health:", "OK"),
            String::new(),
            "  Fans".to_string(),
            field(4, "Label:", "Fan 1"),
            String::new(),
            "Chassis Details".to_string(),
            field(2, "Name:", "B"),
            field(2, "Type:", "Blade"),
            field(2, "Serial Number:", ""),
            field(2, "Part Number:", ""),
            "Chassis Details".to_string(),
            field(2, "Name:", "C"),
            field(2, "Type:", "Blade"),
            field(2, "Serial Number:", ""),
            field(2, "Part Number:", ""),
            "  Fans".to_string(),
        ]
    );
}

#[test]
fn system_report_walks_managers_then_systems() {
    let routes = [
        ("/redfish/v1", 200, r#"{"RedfishVersion":"1.6.0","Managers":{"@odata.id":"/mgrs"}}"#),
        (
            "/mgrs",
            200,
            r#"{"Members":[{"@odata.id":"/mgrs/1"},{"@odata.id":"/mgrs/2"},{"@odata.id":"/mgrs/3"}]}"#,
        ),
        (
            "/mgrs/1",
            200,
            r#"{"ManagerType":"BMC","Status":{},"EthernetInterfaces":{"@odata.id":"/mgrs/1/eth"}}"#,
        ),
        ("/mgrs/2", 200, r#"{"ManagerType":"Aux","Status":{}}"#),
        (
            "/mgrs/3",
            200,
            r#"{"ManagerType":"Rack","Status":{},"EthernetInterfaces":{"@odata.id":"/mgrs/3/eth"}}"#,
        ),
        ("/mgrs/1/eth", 200, r#"{"Members":[{"@odata.id":"/mgrs/1/eth/a"},{"@odata.id":"/mgrs/1/eth/b"}]}"#),
        ("/mgrs/1/eth/a", 200, r#"{"Name":"a","Status":{}}"#),
        ("/mgrs/1/eth/b", 200, r#"{"Name":"b","Status":{}}"#),
        ("/mgrs/3/eth", 200, r#"{"Members":[]}"#),
        (
            "/redfish/v1/Systems",
            200,
            r#"{"Members":[{"@odata.id":"/redfish/v1/Systems/1"},{"@odata.id":"/redfish/v1/Systems/2"}]}"#,
        ),
        ("/redfish/v1/Systems/1", 200, SYSTEM),
        (
            "/redfish/v1/Systems/1/Processors",
            200,
            r#"{"Members":[{"@odata.id":"/cpu/1"},{"@odata.id":"/cpu/2"}]}"#,
        ),
        ("/cpu/1", 200, PROCESSOR),
        ("/cpu/2", 200, PROCESSOR),
        ("/redfish/v1/Systems/1/EthernetInterfaces", 200, r#"{"Members":[{"@odata.id":"/nic/1"}]}"#),
        ("/nic/1", 200, r#"{"Name":"nic","Status":{}}"#),
        ("/redfish/v1/Systems/2", 200, BARE_SYSTEM),
        ("/redfish/v1/Systems/2/Processors", 200, r#"{"Members":[]}"#),
    ];
    let (sent, outcome) = drive(&config("system", None), &routes);
    assert_eq!(
        paths(&sent),
        vec![
            "/redfish/v1",
            "/mgrs",
            "/mgrs/1",
            "/mgrs/2",
            "/mgrs/3",
            "/mgrs/1/eth",
            "/mgrs/1/eth/a",
            "/mgrs/1/eth/b",
            "/mgrs/3/eth",
            "/redfish/v1/Systems",
            "/redfish/v1/Systems/1",
            "/redfish/v1/Systems/1/Processors",
            "/cpu/1",
            "/cpu/2",
            "/redfish/v1/Systems/1/EthernetInterfaces",
            "/nic/1",
            "/redfish/v1/Systems/2",
            "/redfish/v1/Systems/2/Processors",
        ]
    );
    assert!(sent.iter().all(|s| s.method == HTTPReqType::Get && s.body.is_none()));
    let chip = vec![
        String::new(),
        field(4, "Label:", "CPU1"),
        field(4, "Manufacturer:", "Intel"),
        field(4, "Brand:", "Xeon Gold"),
        field(4, "Speed:", "3900 MHz"),
        field(4, "Total Cores:", "16"),
        field(4, "Total Threads:", "32"),
        "    Status".to_string(),
    ];
    let mut expected = vec![
        "Managers".to_string(),
        field(2, "Type:", "BMC"),
        field(2, "Console Types:", ""),
        "  Status".to_string(),
        String::new(),
        "  Ethernet Interfaces".to_string(),
        field(4, "Label:", "a"),
        "    Status".to_string(),
        String::new(),
        field(4, "Label:", "b"),
        "    Status".to_string(),
        String::new(),
        String::new(),
        field(2, "Type:", "Aux"),
        field(2, "Console Types:", ""),
        "  Status".to_string(),
        String::new(),
        field(2, "Type:", "Rack"),
        field(2, "Console Types:", ""),
        "  Status".to_string(),
        String::new(),
        "  Ethernet Interfaces".to_string(),
        String::new(),
        "System Details".to_string(),
        field(2, "Type:", "Physical"),
        field(2, "Manufacturer:", "Acme"),
        field(2, "Model:", "X1"),
        field(2, "Serial Number:", "SN1"),
        field(2, "Part Number:", "PN1"),
        field(2, "BIOS Version:", "2.1"),
        field(2, "Locate LED:", "Off"),
        "  Status".to_string(),
        field(4, "Health:", "OK"),
        String::new(),
        "  Processors".to_string(),
    ];
    expected.extend(chip.clone());
    expected.extend(chip);
    expected.extend(vec![
        String::new(),
        "  Memory".to_string(),
        field(4, "Total RAM:", "64 GiB"),
        String::new(),
        "  Ethernet Interfaces".to_string(),
        field(4, "Label:", "nic"),
        "    Status".to_string(),
        String::new(),
        "System Details".to_string(),
        field(2, "Type:", "Physical"),
        field(2, "Manufacturer:", "Acme"),
        field(2, "Model:", "X2"),
        field(2, "Serial Number:", "SN2"),
        field(2, "Part Number:", "PN2"),
        field(2, "BIOS Version:", "2.1"),
        "  Status".to_string(),
        String::new(),
        "  Processors".to_string(),
        String::new(),
        "  Memory".to_string(),
        field(4, "Total RAM:", "0 GiB"),
    ]);
    assert_eq!(outcome.unwrap(), expected);
}

#[test]
fn system_report_without_managers_or_systems() {
    let (sent, outcome) = drive(
        &config("system", None),
        &[
            ("/redfish/v1", 200, r#"{"RedfishVersion":"1.6.0","Managers":{"@odata.id":"/mgrs"}}"#),
            ("/mgrs", 200, r#"{"Members":[]}"#),
            ("/redfish/v1/Systems", 200, r#"{"Members":[]}"#),
        ],
    );
    assert_eq!(paths(&sent), vec!["/redfish/v1", "/mgrs", "/redfish/v1/Systems"]);
    assert_eq!(outcome.unwrap(), vec!["Managers".to_string()]);
}

#[test]
fn system_report_stops_at_the_first_failure() {
    let (sent, outcome) = drive(
        &config("system", None),
        &[
            ("/redfish/v1", 200, r#"{"RedfishVersion":"1.6.0","Managers":{"@odata.id":"/mgrs"}}"#),
            ("/mgrs", 200, r#"{"Members":[{"@odata.id":"/mgrs/1"},{"@odata.id":"/mgrs/2"}]}"#),
            ("/mgrs/1", 200, r#"{"ManagerType":"BMC"}"#),
            ("/mgrs/2", 200, r#"{"ManagerType":"BMC","Status":{}}"#),
        ],
    );
    assert!(matches!(outcome, Err(RedfishError::Mismatch)));
    assert_eq!(paths(&sent), vec!["/redfish/v1", "/mgrs", "/mgrs/1"]);
}

#[test]
fn commands_by_name() {
    assert_eq!(command_of("nmi"), Some(Command::Nmi));
    assert_eq!(command_of("off"), Some(Command::Off));
    assert_eq!(command_of("on"), Some(Command::On));
    assert_eq!(command_of("reset"), Some(Command::Reset));
    assert_eq!(command_of("forceoff"), Some(Command::ForceOff));
    assert_eq!(command_of("forceon"), Some(Command::ForceOn));
    assert_eq!(command_of("forcereset"), Some(Command::ForceReset));
    assert_eq!(command_of("biossetup"), Some(Command::BiosSetup));
    assert_eq!(command_of("identifyoff"), Some(Command::IdentifyOff));
    assert_eq!(command_of("identifyon"), Some(Command::IdentifyOn));
    assert_eq!(command_of("chassis"), Some(Command::Chassis));
    assert_eq!(command_of("system"), Some(Command::System));
    assert_eq!(command_of("version"), Some(Command::Version));
    assert_eq!(command_of(""), None);
    assert_eq!(command_of("Reset"), None);
    assert_eq!(command_of("reset "), None);
    assert_eq!(command_of("poweroff"), None);
}

#[test]
fn begin_starts_where_the_command_starts() {
    let c = config("ignored", None);
    for (command, path) in [
        (Command::Version, "/redfish/v1"),
        (Command::System, "/redfish/v1"),
        (Command::Chassis, "/redfish/v1/Chassis"),
        (Command::Nmi, "/redfish/v1/Systems"),
        (Command::BiosSetup, "/redfish/v1/Systems"),
        (Command::IdentifyOff, "/redfish/v1/Systems"),
    ] {
        match begin(&c, command) {
            Step::Send(request, _) => {
                assert_eq!(request.method, HTTPReqType::Get);
                assert_eq!(request.url, format!("https://bmc.example{}", path));
            },
            Step::Done(_) => panic!("a request is expected"),
        }
    }
}

#[test]
fn actions_decide_on_the_system_alone() {
    let c = config("reset", None);
    let system = RedfishSystem::read(SYSTEM, "/redfish/v1/Systems/9").unwrap();
    let bare = RedfishSystem::read(BARE_SYSTEM, "/redfish/v1/Systems/2").unwrap();
    let power = do_power(&c, &system, "ForceOff").unwrap();
    assert_eq!(power.method, HTTPReqType::Post);
    assert_eq!(
        power.url,
        "https://bmc.example/redfish/v1/Systems/437XR1138R2/Actions/ComputerSystem.Reset"
    );
    assert_eq!(power.body, Some("{\"ResetType\":\"ForceOff\"}".to_string()));
    assert_eq!(power.user, "root");
    assert_eq!(power.passwd, "secret");
    assert!(power.insecure);
    let boot = do_boot(&c, &system, "Pxe").unwrap();
    assert_eq!(boot.method, HTTPReqType::Patch);
    assert_eq!(boot.url, "https://bmc.example/redfish/v1/Systems/9");
    let led = do_identify(&c, &system, "Lit").unwrap();
    assert_eq!(led.method, HTTPReqType::Patch);
    assert_eq!(led.url, "https://bmc.example/redfish/v1/Systems/9");
    assert_eq!(led.body, Some("{\"IndicatorLED\":\"Lit\"}".to_string()));
    assert!(matches!(do_power(&c, &bare, "On"), Err(RedfishError::Unsupported)));
    assert!(matches!(do_boot(&c, &bare, "Pxe"), Err(RedfishError::Unsupported)));
    assert!(matches!(do_identify(&c, &bare, "Off"), Err(RedfishError::Unsupported)));
    assert!(matches!(act(&c, Command::Version, &system), Err(RedfishError::Unsupported)));
    assert_eq!(
        act(&c, Command::IdentifyOn, &system).unwrap().body,
        Some("{\"IndicatorLED\":\"Blinking\"}".to_string())
    );
}

#[test]
fn request_address_is_scheme_host_path() {
    let c = Config::new(
        true,
        false,
        "u".to_string(),
        "p".to_string(),
        "10.0.0.9:8443".to_string(),
        RedfishUtilCmd::new("version".to_string(), None),
    );
    let get = do_get_request(&c, "/redfish/v1");
    assert_eq!(get.method, HTTPReqType::Get);
    assert_eq!(get.url, "https://10.0.0.9:8443/redfish/v1");
    assert_eq!(get.user, "u");
    assert_eq!(get.passwd, "p");
    assert!(!get.insecure);
    assert_eq!(get.body, None);
    let with_data = do_http_request(&c, HTTPReqType::Get, "/x", Some("ignored".to_string()));
    assert_eq!(with_data.body, None);
    let put = do_http_request(&c, HTTPReqType::Put, "", Some("{}".to_string()));
    assert_eq!(put.method, HTTPReqType::Put);
    assert_eq!(put.url, "https://10.0.0.9:8443");
    assert_eq!(put.body, Some("{}".to_string()));
}

#[test]
fn requests_wait_as_long_as_the_configuration_says() {
    let plain = config("version", None);
    assert_eq!(plain.timeout, None);
    assert_eq!(do_get_request(&plain, "/redfish/v1").timeout, None);
    let patient = config("reset", None).with_timeout(90);
    assert_eq!(patient.timeout, Some(90));
    assert_eq!(patient.host, "bmc.example");
    assert_eq!(patient.cmd.cmd, "reset");
    assert_eq!(do_get_request(&patient, "/redfish/v1").timeout, Some(90));
    let (sent, outcome) = drive(
        &patient,
        &[
            ("/redfish/v1/Systems", 200, SYSTEMS),
            ("/redfish/v1/Systems/437XR1138R2", 200, SYSTEM),
            ("/redfish/v1/Systems/437XR1138R2/Actions/ComputerSystem.Reset", 200, ""),
        ],
    );
    assert!(outcome.is_ok());
    assert!(sent.iter().all(|s| s.timeout == Some(90)));
}

#[test]
fn method_names() {
    assert_eq!(HTTPReqType::Get.name(), "GET");
    assert_eq!(HTTPReqType::Patch.name(), "PATCH");
    assert_eq!(HTTPReqType::Post.name(), "POST");
    assert_eq!(HTTPReqType::Put.name(), "PUT");
    assert!(!HTTPReqType::Get.mutates());
    assert!(HTTPReqType::Patch.mutates());
    assert!(HTTPReqType::Post.mutates());
    assert!(HTTPReqType::Put.mutates());
}

#[test]
fn success_is_a_status_from_200_to_299() {
    for status in [200u16, 201, 204, 299] {
        match receive(Reply::Answer { status, body: "b".to_string() }) {
            Ok(body) => assert_eq!(body, "b"),
            Err(_) => panic!("success is expected"),
        }
    }
    for status in [0u16, 100, 199, 300, 301, 401, 404, 500, 65535] {
        match receive(Reply::Answer { status, body: "b".to_string() }) {
            Err(RedfishError::RequestFailed(code)) => assert_eq!(code, status),
            _ => panic!("a failed request is expected"),
        }
    }
    assert!(matches!(receive(Reply::Failed("x".to_string())), Err(RedfishError::Transport(_))));
}

#[test]
fn failures_have_their_messages() {
    assert_eq!(RedfishError::Transport("no route".to_string()).message(), "no route");
    assert_eq!(RedfishError::RequestFailed(401).message(), "Request Failed! - Status Code: 401");
    assert_eq!(RedfishError::RequestFailed(0).message(), "Request Failed! - Status Code: 0");
    assert_eq!(RedfishError::Malformed("expected value".to_string()).message(), "expected value");
    assert_eq!(
        RedfishError::Mismatch.message(),
        "Response does not match the requested resource"
    );
    assert_eq!(
        RedfishError::Unsupported.message(),
        "Request Failed! Requested action not supported"
    );
}

#[test]
fn malformed_carries_the_words_of_the_parser() {
    match redfish_util::json::parse("{\"a\":") {
        Err(RedfishError::Malformed(words)) => {
            let expected = serde_json::from_str::<serde_json::Value>("{\"a\":").unwrap_err();
            assert_eq!(words, expected.to_string());
            assert!(!words.is_empty());
        },
        _ => panic!("a malformed body is expected"),
    }
}

#[test]
fn tracing_is_silent_unless_switched_on() {
    let quiet = config("reset", None);
    let request = do_http_request(&quiet, HTTPReqType::Post, "/t", Some("{}".to_string()));
    assert!(trace_request(&quiet, &request).is_empty());
    let reply = Reply::Answer { status: 200, body: "body".to_string() };
    assert_eq!(trace_reply(&quiet, &reply), None);
}

#[test]
fn tracing_shows_the_request_and_the_response() {
    let loud = Config::new(
        true,
        false,
        "u".to_string(),
        "p".to_string(),
        "h".to_string(),
        RedfishUtilCmd::new("reset".to_string(), None),
    );
    let post = do_http_request(&loud, HTTPReqType::Post, "/t", Some("{\"a\":1}".to_string()));
    assert_eq!(
        trace_request(&loud, &post),
        vec!["Sending POST Request: https://h/t".to_string(), "Body:\n{\"a\":1}".to_string()]
    );
    let get = do_get_request(&loud, "/redfish/v1");
    assert_eq!(trace_request(&loud, &get), vec!["Sending GET Request: https://h/redfish/v1".to_string()]);
    let ok = Reply::Answer { status: 200, body: "{}".to_string() };
    assert_eq!(trace_reply(&loud, &ok), Some("Response:\n{}\n".to_string()));
    let refused = Reply::Answer { status: 401, body: "{}".to_string() };
    assert_eq!(trace_reply(&loud, &refused), None);
    assert_eq!(trace_reply(&loud, &Reply::Failed("lost".to_string())), None);
}

#[test]
fn command_line_is_a_command_with_an_optional_argument() {
    let plain = RedfishUtilCmd::parse("system").unwrap();
    assert_eq!(plain.cmd, "system");
    assert_eq!(plain.arg, None);
    let with_arg = RedfishUtilCmd::parse("reset:437XR1138R2").unwrap();
    assert_eq!(with_arg.cmd, "reset");
    assert_eq!(with_arg.arg, Some("437XR1138R2".to_string()));
    let empty_arg = RedfishUtilCmd::parse("reset:").unwrap();
    assert_eq!(empty_arg.cmd, "reset");
    assert_eq!(empty_arg.arg, Some(String::new()));
    let empty_cmd = RedfishUtilCmd::parse(":7").unwrap();
    assert_eq!(empty_cmd.cmd, "");
    assert_eq!(empty_cmd.arg, Some("7".to_string()));
    let nothing = RedfishUtilCmd::parse("").unwrap();
    assert_eq!(nothing.cmd, "");
    assert_eq!(nothing.arg, None);
    let wide = RedfishUtilCmd::parse("größe:ä").unwrap();
    assert_eq!(wide.cmd, "größe");
    assert_eq!(wide.arg, Some("ä".to_string()));
    assert!(RedfishUtilCmd::parse("a:b:c").is_none());
    assert!(RedfishUtilCmd::parse("::").is_none());
    assert!(RedfishUtilCmd::parse("a::").is_none());
}

#[test]
fn config_file_finds_the_first_entry_of_a_name() {
    let entry = |name: &str, host: &str| ConfigFileEntry {
        name: name.to_string(),
        host: host.to_string(),
        user: "u".to_string(),
        passwd: "p".to_string(),
    };
    let file = ConfigFile {
        filename: "conf.json".to_string(),
        entries: vec![entry("a", "h1"), entry("b", "h2"), entry("b", "h3")],
    };
    assert_eq!(file.find("a"), Some(0));
    assert_eq!(file.find("b"), Some(1));
    assert_eq!(file.find("c"), None);
    assert_eq!(file.find(""), None);
    let empty = ConfigFile { filename: String::new(), entries: Vec::new() };
    assert_eq!(empty.find("a"), None);
}

#[test]
fn config_keeps_what_it_is_given() {
    let c = Config::new(
        true,
        false,
        "u".to_string(),
        "p".to_string(),
        "h".to_string(),
        RedfishUtilCmd::new("on".to_string(), Some("1".to_string())),
    );
    assert!(c.debug);
    assert!(!c.insecure);
    assert_eq!(c.user, "u");
    assert_eq!(c.passwd, "p");
    assert_eq!(c.host, "h");
    assert_eq!(c.cmd.cmd, "on");
    assert_eq!(c.cmd.arg, Some("1".to_string()));
}
