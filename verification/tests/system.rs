use std::collections::BTreeMap;

use lyra_vega_dbus::contract;
use lyra_vega_dbus::system::{check_ping, PING_FALSE_DETAIL};
use lyra_vega_dbus::{
    BackendStatus, MockSystemClient, SystemClient, SystemClientError, BUS_NAME, OBJECT_PATH,
    SYSTEM_INTERFACE,
};

#[test]
fn system_xml_matches_the_typed_proxy_contract() {
    let system_xml = contract::system().introspection_xml();
    let node_start = system_xml.find("<node").expect("nó de introspecção");
    let document =
        roxmltree::Document::parse(&system_xml[node_start..]).expect("System XML válido");
    let interface = document
        .descendants()
        .find(|node| {
            node.has_tag_name("interface") && node.attribute("name") == Some(SYSTEM_INTERFACE)
        })
        .expect("interface System presente");

    let methods: BTreeMap<_, _> = interface
        .children()
        .filter(|node| node.has_tag_name("method"))
        .map(|method| {
            let name = method.attribute("name").expect("método com nome");
            let args = method
                .children()
                .filter(|node| node.has_tag_name("arg"))
                .map(|arg| {
                    (
                        arg.attribute("direction").unwrap_or("in"),
                        arg.attribute("type").expect("argumento com tipo"),
                    )
                })
                .collect::<Vec<_>>();
            (name, args)
        })
        .collect();

    let expected = BTreeMap::from([
        ("DiskUsage", vec![("out", "s"), ("out", "s"), ("out", "u")]),
        ("Distro", vec![("out", "s")]),
        ("Logo", vec![("out", "s")]),
        ("Ping", vec![("out", "b")]),
        ("Version", vec![("out", "s")]),
    ]);
    assert_eq!(methods, expected);
}

#[test]
fn constants_preserve_the_public_bus_contract() {
    assert_eq!(BUS_NAME, "org.lyraos.Vega1");
    assert_eq!(OBJECT_PATH, "/org/lyraos/Vega1");
    assert_eq!(SYSTEM_INTERFACE, "org.lyraos.Vega1.System");
}

#[test]
fn unavailable_mock_covers_the_offline_state() {
    let mock = MockSystemClient::unavailable("system bus ausente");
    let result = mock.status();
    assert!(matches!(result, Err(SystemClientError::Unavailable(_))));
}

#[test]
fn connected_mock_returns_typed_values() {
    let expected = BackendStatus {
        version: "2.0.3".into(),
        distro: "Test Linux".into(),
        logo_path: "/test/logo.svg".into(),
    };
    let mock = MockSystemClient::connected(expected.clone(), ("10G".into(), "20G".into(), 50));

    assert_eq!(mock.status().unwrap(), expected);
    assert_eq!(mock.disk_usage().unwrap(), ("10G".into(), "20G".into(), 50));
}

#[test]
fn unavailable_mock_reports_its_message_for_every_call() {
    let mock = MockSystemClient::unavailable("system bus ausente");
    assert_eq!(mock.status(), Err(SystemClientError::Unavailable("system bus ausente".into())));
    assert_eq!(
        mock.disk_usage(),
        Err(SystemClientError::Unavailable("system bus ausente".into()))
    );
    let copy = mock.clone();
    assert_eq!(copy.status(), mock.status());
}

#[test]
fn false_ping_is_an_invalid_response() {
    assert_eq!(check_ping(true), Ok(()));
    assert_eq!(
        check_ping(false),
        Err(SystemClientError::InvalidResponse(PING_FALSE_DETAIL.into()))
    );
    assert_eq!(PING_FALSE_DETAIL, "Ping retornou false");
}

#[test]
fn system_error_messages_carry_the_detail() {
    let unavailable = SystemClientError::unavailable("sem bus".into());
    assert_eq!(unavailable.message_id(), "vegad indisponível: {detail}");
    assert_eq!(unavailable.render_message(unavailable.message_id()), "vegad indisponível: sem bus");
    let invalid = SystemClientError::InvalidResponse("lixo".into());
    assert_eq!(invalid.message_id(), "resposta inválida do vegad: {detail}");
    assert_eq!(invalid.render_message(invalid.message_id()), "resposta inválida do vegad: lixo");
}
