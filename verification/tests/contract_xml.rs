use lyra_vega_dbus::contract;

#[test]
fn bluetooth_xml_contract() {
    let xml = contract::bluetooth().introspection_xml();
    for method in [
        "Status",
        "ListDevices",
        "SetPowered",
        "SetScanning",
        "Pair",
        "Connect",
        "Disconnect",
        "SendFile",
        "StartFileReceiver",
    ] {
        assert!(xml.contains(&format!("<method name=\"{method}\">")));
    }
    assert!(xml.contains("type=\"(bbbbbssbbs)\""));
    assert!(!xml.contains("type=\"(bbbbbsssbs)\""));
}

#[test]
fn datetime_xml_contains_every_typed_method() {
    let xml = contract::datetime().introspection_xml();
    for method in ["Status", "ListTimezones", "ListLocales", "ListKeymaps", "Apply"] {
        assert!(xml.contains(&format!("<method name=\"{method}\">")));
    }
}

#[test]
fn firewall_xml_contract() {
    let xml = contract::firewall().introspection_xml();
    for method in ["Status", "ListServices", "SetServiceEnabled"] {
        assert!(xml.contains(&format!("<method name=\"{method}\">")));
    }
}

#[test]
fn kernel_xml_contains_every_typed_method() {
    let xml = contract::kernel().introspection_xml();
    for method in [
        "ListInstalled",
        "AvailablePackages",
        "Install",
        "Remove",
        "BootStatus",
        "ListBootEntries",
        "ApplyBootConfig",
    ] {
        assert!(xml.contains(&format!("<method name=\"{method}\">")));
    }
}

fn sorted_method_names(xml: &str) -> Vec<String> {
    let start = xml.find("<node").unwrap();
    let document = roxmltree::Document::parse(&xml[start..]).unwrap();
    let mut methods = document
        .descendants()
        .filter(|node| node.has_tag_name("method"))
        .map(|node| node.attribute("name").unwrap().to_owned())
        .collect::<Vec<_>>();
    methods.sort_unstable();
    methods
}

#[test]
fn logs_xml_contains_every_typed_method() {
    let xml = contract::logs().introspection_xml();
    assert_eq!(sorted_method_names(&xml), ["ListUnits", "Query"]);
}

#[test]
fn monitor_xml_contains_every_typed_method() {
    let xml = contract::monitor().introspection_xml();
    assert_eq!(sorted_method_names(&xml), ["KillProcess", "ListProcesses", "Metrics"]);
}

#[test]
fn network_xml_contract() {
    let x = contract::network().introspection_xml();
    for m in [
        "ListInterfaces",
        "ListWifi",
        "ConnectWifi",
        "Disconnect",
        "SetStaticIPv4",
        "ImportVPN",
        "GetProxy",
        "SetProxy",
    ] {
        assert!(x.contains(&format!("<method name=\"{m}\">")));
    }
}

#[test]
fn storage_xml_contains_every_typed_method() {
    let xml = contract::storage().introspection_xml();
    for method in ["ListVolumes", "Mount", "Unmount"] {
        assert!(xml.contains(&format!("<method name=\"{method}\">")));
    }
}

#[test]
fn users_xml_contains_every_typed_method() {
    let xml = contract::users().introspection_xml();
    assert_eq!(
        sorted_method_names(&xml),
        ["CreateUser", "ListUsers", "RemoveUser", "SetAdmin"]
    );
}

#[test]
fn introspection_xml_has_the_exact_element_layout() {
    let xml = contract::firewall().introspection_xml();
    assert_eq!(
        xml,
        "<node>\n  <interface name=\"org.lyraos.Vega1.Firewall\">\n    <method name=\"Status\">\n      <arg type=\"(bs)\" direction=\"out\"/>\n    </method>\n    <method name=\"ListServices\">\n      <arg type=\"a(ssb)\" direction=\"out\"/>\n    </method>\n    <method name=\"SetServiceEnabled\">\n      <arg type=\"s\" direction=\"in\"/>\n      <arg type=\"b\" direction=\"in\"/>\n    </method>\n  </interface>\n</node>\n"
    );
}

#[test]
fn signal_arguments_carry_no_direction() {
    let xml = contract::backup().introspection_xml();
    assert!(xml.contains(
        "    <signal name=\"BackupAlert\">\n      <arg type=\"s\"/>\n      <arg type=\"u\"/>\n      <arg type=\"s\"/>\n    </signal>\n"
    ));
}

const PREPARATION_XML: &str = r#"<node>
  <interface name="org.lyraos.Vega1.Preparation">
    <method name="GetStatus">
      <arg type="(ssssssb)" direction="out"/>
    </method>
    <method name="GetPendingKeys">
      <arg type="a(ssss)" direction="out"/>
    </method>
    <method name="ApproveKey">
      <arg type="s" direction="in"/>
      <arg type="s" direction="in"/>
      <arg type="s" direction="in"/>
      <arg type="u" direction="out"/>
    </method>
    <method name="Retry">
    </method>
  </interface>
</node>
"#;

const SYSTEM_XML: &str = r#"<node>
  <interface name="org.lyraos.Vega1.System">
    <method name="Version">
      <arg type="s" direction="out"/>
    </method>
    <method name="Ping">
      <arg type="b" direction="out"/>
    </method>
    <method name="Distro">
      <arg type="s" direction="out"/>
    </method>
    <method name="Logo">
      <arg type="s" direction="out"/>
    </method>
    <method name="DiskUsage">
      <arg type="s" direction="out"/>
      <arg type="s" direction="out"/>
      <arg type="u" direction="out"/>
    </method>
  </interface>
</node>
"#;

#[test]
fn generated_xml_matches_the_written_contract_text() {
    assert_eq!(contract::preparation().introspection_xml(), PREPARATION_XML);
    assert_eq!(contract::system().introspection_xml(), SYSTEM_XML);
}
