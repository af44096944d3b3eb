use std::collections::BTreeMap;

use lyra_vega_dbus::backup::{BackupConfigRow, STREAM_ENDED_DETAIL};
use lyra_vega_dbus::contract;
use lyra_vega_dbus::{
    BackupAlertEvent, BackupClientError, BackupConfig, BackupEvent, BackupSignalReceipt,
    BackupSnapshot, BackupTransactionProgress,
};

const INTERFACE: &str = "org.lyraos.Vega1.Backup";

fn members(tag: &str) -> BTreeMap<String, Vec<(String, String)>> {
    let backup_xml = contract::backup().introspection_xml();
    let node_start = backup_xml.find("<node").expect("nó de introspecção");
    let document =
        roxmltree::Document::parse(&backup_xml[node_start..]).expect("Backup XML válido");
    let interface = document
        .descendants()
        .find(|node| node.has_tag_name("interface") && node.attribute("name") == Some(INTERFACE))
        .expect("interface Backup presente");

    interface
        .children()
        .filter(|node| node.has_tag_name(tag))
        .map(|member| {
            let name = member.attribute("name").expect("membro com nome");
            let args = member
                .children()
                .filter(|node| node.has_tag_name("arg"))
                .map(|arg| {
                    (
                        arg.attribute("direction").unwrap_or("out").to_owned(),
                        arg.attribute("type").expect("argumento com tipo").to_owned(),
                    )
                })
                .collect();
            (name.to_owned(), args)
        })
        .collect()
}

fn args(values: &[(&str, &str)]) -> Vec<(String, String)> {
    values
        .iter()
        .map(|(direction, signature)| ((*direction).into(), (*signature).into()))
        .collect()
}

#[test]
fn backup_xml_methods_match_the_typed_proxy() {
    let expected = BTreeMap::from([
        ("CreateConfig".into(), args(&[("in", "(sassss)"), ("out", "s")])),
        ("DeleteConfig".into(), args(&[("in", "s")])),
        ("ListConfigs".into(), args(&[("out", "a(sassss)")])),
        ("ListSnapshotPaths".into(), args(&[("in", "s"), ("in", "s"), ("out", "as")])),
        ("ListSnapshots".into(), args(&[("in", "s"), ("out", "a(sxtt)")])),
        (
            "RestoreItems".into(),
            args(&[("in", "s"), ("in", "s"), ("in", "s"), ("in", "as"), ("out", "u")]),
        ),
        ("RestoreSnapshot".into(), args(&[("in", "s"), ("in", "s"), ("in", "s"), ("out", "u")])),
        ("RunBackupNow".into(), args(&[("in", "s"), ("out", "u")])),
    ]);
    assert_eq!(members("method"), expected);
}

#[test]
fn backup_xml_signals_match_the_typed_proxy() {
    let progress = args(&[("out", "u"), ("out", "u"), ("out", "s")]);
    let finished = args(&[("out", "u"), ("out", "b"), ("out", "s")]);
    let expected = BTreeMap::from([
        ("BackupAlert".into(), args(&[("out", "s"), ("out", "u"), ("out", "s")])),
        ("BackupFinished".into(), finished.clone()),
        ("BackupProgress".into(), progress.clone()),
        ("RestoreFinished".into(), finished),
        ("RestoreProgress".into(), progress),
    ]);
    assert_eq!(members("signal"), expected);
}

#[test]
fn config_rows_preserve_paths_and_destination_uuid() {
    let config = BackupConfig::from((
        "home".into(),
        vec!["/home/user".into(), "/etc".into()],
        "/backup".into(),
        "uuid-123".into(),
        "daily".into(),
    ));
    assert_eq!(config.paths.len(), 2);
    assert_eq!(config.destination_uuid, "uuid-123");
    assert_eq!(config.frequency, "daily");
}

#[test]
fn config_sent_as_row_and_read_back_is_unchanged() {
    let config = BackupConfig {
        id: "home".into(),
        paths: vec!["/home/user".into(), "/etc".into()],
        destination: "/backup".into(),
        destination_uuid: "uuid-123".into(),
        frequency: "daily".into(),
    };
    let row: BackupConfigRow = config.clone().into();
    assert_eq!(row.0, "home");
    assert_eq!(row.1, vec!["/home/user".to_string(), "/etc".to_string()]);
    assert_eq!(row.2, "/backup");
    assert_eq!(row.3, "uuid-123");
    assert_eq!(row.4, "daily");
    assert_eq!(BackupConfig::from(row), config);
}

#[test]
fn snapshot_rows_keep_timestamp_and_sizes() {
    let snapshot = BackupSnapshot::from(("snap-1".to_string(), -5i64, 42u64, 4096u64));
    assert_eq!(snapshot.id, "snap-1");
    assert_eq!(snapshot.timestamp, -5);
    assert_eq!(snapshot.file_count, 42);
    assert_eq!(snapshot.size_bytes, 4096);
}

#[test]
fn received_backup_signal_becomes_the_event() {
    let event = BackupEvent::RestoreProgress(BackupTransactionProgress {
        transaction_id: 7,
        percent: 30,
        message: "copiando".into(),
    });
    assert_eq!(
        BackupEvent::from_receipt(BackupSignalReceipt::Received(event.clone())),
        Ok(event)
    );
    let alert = BackupEvent::Alert(BackupAlertEvent {
        config_id: "home".into(),
        consecutive_failures: 3,
        message: "disco cheio".into(),
    });
    assert_eq!(
        BackupEvent::from_receipt(BackupSignalReceipt::Received(alert.clone())),
        Ok(alert)
    );
}

#[test]
fn ended_or_malformed_backup_signal_is_an_unavailable_error() {
    assert_eq!(
        BackupEvent::from_receipt(BackupSignalReceipt::Ended),
        Err(BackupClientError::Unavailable(STREAM_ENDED_DETAIL.into()))
    );
    assert_eq!(BackupClientError::stream_ended(), BackupClientError::Unavailable("stream de sinais encerrado".into()));
    assert_eq!(
        BackupEvent::from_receipt(BackupSignalReceipt::Malformed("bad args".into())),
        Err(BackupClientError::Unavailable("bad args".into()))
    );
}

#[test]
fn backup_error_message_carries_the_detail() {
    let error = BackupClientError::unavailable("sem conexão".into());
    assert_eq!(error.message_id(), "interface de backup indisponível: {detail}");
    let message = error.render_message(error.message_id());
    assert_eq!(message, "interface de backup indisponível: sem conexão");
    assert_eq!(error.render_message("backup interface unavailable: {detail}"), "backup interface unavailable: sem conexão");
    assert_eq!(error.render_message("sem marcador"), "sem marcador");
}
