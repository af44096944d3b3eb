use std::collections::BTreeMap;

use lyra_vega_dbus::contract;
use lyra_vega_dbus::software::{
    check_owner, OwnerLookup, OwnerResolution, SoftwareSignalReceipt,
    NVIDIA_RECOVERY_UNSUPPORTED_DETAIL, SOFTWARE_STREAM_ENDED_DETAIL,
    SOFTWARE_TRANSACTION_TIMEOUT_MS,
};
use lyra_vega_dbus::{
    NonFreeFirmwareStatus, NvidiaRecovery, NvidiaStatus, PackageDetails, PackageRef,
    RepositoryRef, SoftwareClientError, SoftwareEvent, SoftwareStreamState,
    SoftwareTransactionFinished, SoftwareTransactionProgress, SubscriptionStep, UpdateStatus,
};

const INTERFACE: &str = "org.lyraos.Vega1.Software";

fn members(tag: &str) -> BTreeMap<String, Vec<(String, String)>> {
    let software_xml = contract::software().introspection_xml();
    let node_start = software_xml.find("<node").expect("nó de introspecção");
    let document =
        roxmltree::Document::parse(&software_xml[node_start..]).expect("Software XML válido");
    let interface = document
        .descendants()
        .find(|node| node.has_tag_name("interface") && node.attribute("name") == Some(INTERFACE))
        .expect("interface Software presente");

    interface
        .children()
        .filter(|node| node.has_tag_name(tag))
        .map(|member| {
            let name = member.attribute("name").expect("membro com nome");
            let args = member
                .children()
                .filter(|node| node.has_tag_name("arg"))
                .map(|arg| {
                    (
                        arg.attribute("direction").unwrap_or("out").to_owned(),
                        arg.attribute("type").expect("argumento com tipo").to_owned(),
                    )
                })
                .collect();
            (name.to_owned(), args)
        })
        .collect()
}

fn args(values: &[(&str, &str)]) -> Vec<(String, String)> {
    values
        .iter()
        .map(|(direction, signature)| ((*direction).into(), (*signature).into()))
        .collect()
}

#[test]
fn software_xml_methods_match_the_typed_proxy() {
    let package_rows = "a(ssssbss)";
    let expected = BTreeMap::from([
        ("AddRepo".into(), args(&[("in", "s"), ("in", "s"), ("out", "u")])),
        ("TrustRepoKey".into(), args(&[("in", "s"), ("in", "s"), ("out", "u")])),
        ("ClearCache".into(), args(&[("out", "u")])),
        ("ClearNativeCache".into(), args(&[("out", "u")])),
        ("CheckNvidia".into(), args(&[("out", "b"), ("out", "s")])),
        (
            "GetPackageDetails".into(),
            args(&[("in", "s"), ("in", "s"), ("out", "(ssssbssssasasss)")]),
        ),
        ("GetUpdateStatus".into(), args(&[("out", "(ssuuuubs)")])),
        ("RequestUpdateCheck".into(), args(&[("out", "(ssuuuubs)")])),
        ("Install".into(), args(&[("in", "s"), ("in", "s"), ("out", "u")])),
        ("InstallNvidia".into(), args(&[("in", "b"), ("out", "u")])),
        ("InstallNonFreeFirmware".into(), args(&[("in", "b"), ("out", "u")])),
        ("ListInstalled".into(), args(&[("out", package_rows)])),
        ("ListNativeInstalled".into(), args(&[("out", package_rows)])),
        ("ListNativeUpdates".into(), args(&[("out", package_rows)])),
        ("ListRepos".into(), args(&[("out", "a(sb)")])),
        ("ListUpdates".into(), args(&[("out", package_rows)])),
        ("PackageManagerName".into(), args(&[("out", "s")])),
        ("NvidiaStatus".into(), args(&[("out", "(bbbssssu)")])),
        ("NvidiaRecovery".into(), args(&[("out", "(bssss)")])),
        ("NonFreeFirmwareStatus".into(), args(&[("out", "(bbsas)")])),
        ("Remove".into(), args(&[("in", "s"), ("in", "s"), ("out", "u")])),
        ("Search".into(), args(&[("in", "s"), ("out", package_rows)])),
        ("SearchNative".into(), args(&[("in", "s"), ("out", package_rows)])),
        ("SetRepoEnabled".into(), args(&[("in", "s"), ("in", "b")])),
        ("UpdateAll".into(), args(&[("out", "u")])),
        ("UpdateAllNative".into(), args(&[("out", "u")])),
        ("UpdatePackage".into(), args(&[("in", "s"), ("in", "s"), ("out", "u")])),
    ]);
    assert_eq!(members("method"), expected);
}

#[test]
fn software_xml_signals_match_the_typed_proxy() {
    let expected = BTreeMap::from([
        ("TransactionFinished".into(), args(&[("out", "u"), ("out", "b"), ("out", "s")])),
        ("TransactionProgress".into(), args(&[("out", "u"), ("out", "u"), ("out", "s")])),
        ("TransactionConsoleLine".into(), args(&[("out", "u"), ("out", "s"), ("out", "s")])),
        ("UpdatesAvailable".into(), args(&[("out", "u")])),
        ("UpdateStateChanged".into(), args(&[("out", "(ssuuuubs)")])),
        (
            "RepoKeyPending".into(),
            args(&[("out", "u"), ("out", "s"), ("out", "s"), ("out", "s"), ("out", "s")]),
        ),
        (
            "PackageProgress".into(),
            args(&[("out", "u"), ("out", "s"), ("out", "s"), ("out", "u")]),
        ),
    ]);
    assert_eq!(members("signal"), expected);
}

#[test]
fn package_rows_are_converted_without_losing_origin() {
    let package = PackageRef::from((
        "flathub".into(),
        "org.example.App".into(),
        "Example".into(),
        "Description".into(),
        true,
        "org.example.App".into(),
        "Flathub".into(),
    ));
    assert_eq!(package.origin, "flathub");
    assert_eq!(package.id, "org.example.App");
    assert!(package.installed);
}

#[test]
fn software_rows_keep_every_field_in_place() {
    let repo = RepositoryRef::from(("oss".to_string(), true));
    assert_eq!(repo, RepositoryRef { name: "oss".into(), enabled: true });
    let details = PackageDetails::from((
        "official".to_string(),
        "vim".to_string(),
        "Vim".to_string(),
        "Editor".to_string(),
        false,
        "".to_string(),
        "9.1".to_string(),
        "2 MiB".to_string(),
        "5 MiB".to_string(),
        vec!["libc".to_string()],
        vec!["Vim".to_string()],
        "https://vim.org".to_string(),
        "Bram".to_string(),
    ));
    assert_eq!(details.available_version, "9.1");
    assert_eq!(details.dependencies, vec!["libc".to_string()]);
    assert_eq!(details.maintainer, "Bram");
    let update = UpdateStatus::from((
        "now".to_string(),
        "default".to_string(),
        1,
        2,
        3,
        4,
        true,
        "".to_string(),
    ));
    assert_eq!((update.native_count, update.flatpak_count, update.total_count), (1, 2, 3));
    assert_eq!(update.security_count, 4);
    let nvidia = NvidiaStatus::from((
        true,
        false,
        true,
        "GA104".to_string(),
        "enabled".to_string(),
        "ready".to_string(),
        "".to_string(),
        12,
    ));
    assert_eq!(nvidia.recovery_snapshot, 12);
    assert!(nvidia.reboot_required);
    let recovery = NvidiaRecovery::from((
        true,
        "snapper".to_string(),
        "12".to_string(),
        "ok".to_string(),
        "".to_string(),
    ));
    assert_eq!(recovery.reference, "12");
    let firmware = NonFreeFirmwareStatus::from((true, false, "x".to_string(), vec![]));
    assert!(firmware.detected && !firmware.installed);
}

fn finished(id: u32) -> SoftwareEvent {
    SoftwareEvent::Finished(SoftwareTransactionFinished {
        transaction_id: id,
        success: true,
        message: "fixture completed".into(),
    })
}

fn progress(id: u32) -> SoftwareEvent {
    SoftwareEvent::Progress(SoftwareTransactionProgress {
        transaction_id: id,
        percent: 10,
        message: "still running".into(),
    })
}

const OLD_OWNER: &str = ":1.7";
const NEW_OWNER: &str = ":1.9";

fn owner_lost(owner: &str) -> SoftwareSignalReceipt {
    SoftwareSignalReceipt::OwnerChanged(Some(owner.to_string()))
}

/// One wait of `next_transaction` in which the subscriptions yield `receipts`.
fn wait_transaction(
    state: &mut SoftwareStreamState,
    id: u32,
    now: u64,
    timeout: u64,
    receipts: Vec<SoftwareSignalReceipt>,
) -> Result<SoftwareEvent, SoftwareClientError> {
    state.begin_transaction(id, now, timeout)?;
    for receipt in receipts {
        if let Some(outcome) = state.on_receipt(receipt) {
            return state.finish_transaction(id, outcome);
        }
    }
    panic!("wait did not end");
}

/// One wait of `next` in which the subscriptions yield `receipts`.
fn wait_next(
    state: &mut SoftwareStreamState,
    receipts: Vec<SoftwareSignalReceipt>,
) -> Result<SoftwareEvent, SoftwareClientError> {
    state.check_open()?;
    for receipt in receipts {
        if let Some(outcome) = state.on_receipt(receipt) {
            return state.record_outcome(outcome);
        }
    }
    panic!("wait did not end");
}

#[test]
fn completion_before_method_reply_and_sequential_transactions_are_preserved() {
    let mut events = SoftwareStreamState::new(OLD_OWNER.into());
    for expected in [1, 2] {
        let id = expected;
        assert_eq!(check_owner(OLD_OWNER, OwnerLookup::Owner(OLD_OWNER.into())), Ok(()));
        assert!(matches!(
            wait_transaction(&mut events, id, 0, SOFTWARE_TRANSACTION_TIMEOUT_MS, vec![
                SoftwareSignalReceipt::Received(OLD_OWNER.into(), finished(id))
            ]).unwrap(),
            SoftwareEvent::Finished(event) if event.transaction_id == id && event.success));
        assert!(events.transaction_deadline().is_none());
    }
    assert!(events.terminal_error().is_none());
}

#[test]
fn owner_disappears_without_any_transaction_signal() {
    let mut events = SoftwareStreamState::new(OLD_OWNER.into());
    let id = 1;
    assert_eq!(
        wait_transaction(&mut events, id, 0, SOFTWARE_TRANSACTION_TIMEOUT_MS, vec![owner_lost(OLD_OWNER)]),
        Err(SoftwareClientError::ServiceOwnerChanged)
    );
    assert_eq!(
        wait_next(&mut events, vec![]),
        Err(SoftwareClientError::ServiceOwnerChanged)
    );
}

#[test]
fn replacement_reusing_id_cannot_complete_or_receive_old_clients_mutations() {
    let mut old_events = SoftwareStreamState::new(OLD_OWNER.into());
    let id = 1;
    let mut new_events = SoftwareStreamState::new(NEW_OWNER.into());
    assert!(matches!(
        wait_transaction(&mut new_events, id, 0, SOFTWARE_TRANSACTION_TIMEOUT_MS, vec![
            SoftwareSignalReceipt::Received(NEW_OWNER.into(), finished(id))
        ]).unwrap(),
        SoftwareEvent::Finished(_)
    ));
    assert_eq!(
        wait_transaction(&mut old_events, id, 0, SOFTWARE_TRANSACTION_TIMEOUT_MS, vec![
            SoftwareSignalReceipt::Received(NEW_OWNER.into(), finished(id)),
            owner_lost(OLD_OWNER),
            SoftwareSignalReceipt::Received(OLD_OWNER.into(), finished(id)),
        ]),
        Err(SoftwareClientError::ServiceOwnerChanged)
    );
    assert_eq!(
        check_owner(OLD_OWNER, OwnerLookup::Owner(NEW_OWNER.into())),
        Err(SoftwareClientError::ServiceOwnerChanged)
    );
    assert_eq!(check_owner(NEW_OWNER, OwnerLookup::Owner(NEW_OWNER.into())), Ok(()));
}

#[test]
fn replacement_between_subscription_and_method_starts_no_operation() {
    let mut events = SoftwareStreamState::new(OLD_OWNER.into());
    assert_eq!(
        check_owner(OLD_OWNER, OwnerLookup::Owner(NEW_OWNER.into())),
        Err(SoftwareClientError::ServiceOwnerChanged)
    );
    assert_eq!(
        wait_next(&mut events, vec![
            SoftwareSignalReceipt::OwnerChanged(None),
            owner_lost(OLD_OWNER),
        ]),
        Err(SoftwareClientError::ServiceOwnerChanged)
    );
}

#[test]
fn bus_disconnect_terminates_stream_instead_of_waiting_forever() {
    let mut events = SoftwareStreamState::new(OLD_OWNER.into());
    assert!(wait_next(&mut events, vec![SoftwareSignalReceipt::Ended]).is_err());
    assert!(wait_next(&mut events, vec![]).is_err());
}

#[test]
fn deadline_is_absolute_even_with_progress_and_does_not_cancel_daemon() {
    let mut events = SoftwareStreamState::new(OLD_OWNER.into());
    let id = 1;
    assert!(matches!(
        wait_transaction(&mut events, id, 0, 200, vec![SoftwareSignalReceipt::Received(
            OLD_OWNER.into(),
            SoftwareEvent::Progress(SoftwareTransactionProgress {
                transaction_id: id,
                percent: 10u32,
                message: "still running".into(),
            })
        )])
        .unwrap(),
        SoftwareEvent::Progress(_)
    ));
    let deadline = events.transaction_deadline().unwrap().1;
    assert_eq!(deadline, 200);
    // The wait resumed after the deadline: the expiry wins before the queued completion.
    assert_eq!(
        wait_transaction(&mut events, id, deadline + 10, SOFTWARE_TRANSACTION_TIMEOUT_MS, vec![
            SoftwareSignalReceipt::Received(OLD_OWNER.into(), finished(id))
        ]),
        Err(SoftwareClientError::TransactionTimedOut)
    );
    assert_eq!(events.transaction_deadline(), Some((id, deadline)));
    assert_eq!(
        wait_transaction(&mut events, id + 1, 300, SOFTWARE_TRANSACTION_TIMEOUT_MS, vec![
            SoftwareSignalReceipt::Received(OLD_OWNER.into(), finished(id))
        ]),
        Err(SoftwareClientError::TransactionTimedOut)
    );
}

#[test]
fn owner_loss_ends_the_stream_for_good() {
    let mut state = SoftwareStreamState::new(":1.7".into());
    state.begin_transaction(1, 0, 1000).unwrap();
    let outcome = state
        .on_receipt(SoftwareSignalReceipt::OwnerChanged(Some(":1.7".into())))
        .unwrap();
    assert_eq!(
        state.finish_transaction(1, outcome),
        Err(SoftwareClientError::ServiceOwnerChanged)
    );
    assert_eq!(state.check_open(), Err(SoftwareClientError::ServiceOwnerChanged));
    assert_eq!(state.begin_transaction(2, 5, 1000), Err(SoftwareClientError::ServiceOwnerChanged));
    assert_eq!(state.terminal_error(), Some(SoftwareClientError::ServiceOwnerChanged));
}

#[test]
fn other_owners_changes_are_waited_through() {
    let state = SoftwareStreamState::new(":1.7".into());
    assert_eq!(state.on_receipt(SoftwareSignalReceipt::OwnerChanged(Some(":1.9".into()))), None);
    assert_eq!(state.on_receipt(SoftwareSignalReceipt::OwnerChanged(None)), None);
    assert_eq!(state.owner(), ":1.7");
}

#[test]
fn deadline_is_kept_across_progress_and_expiry_is_terminal() {
    let mut state = SoftwareStreamState::new(":1.7".into());
    let deadline = state.begin_transaction(4, 0, 200).unwrap();
    assert_eq!(deadline, 200);
    let outcome = state.on_receipt(SoftwareSignalReceipt::Received(":1.7".into(), progress(4))).unwrap();
    assert_eq!(state.finish_transaction(4, outcome), Ok(progress(4)));
    assert_eq!(state.transaction_deadline(), Some((4, 200)));
    assert_eq!(state.begin_transaction(4, 150, 200), Ok(200));
    assert_eq!(
        state.finish_transaction(4, Err(SoftwareClientError::TransactionTimedOut)),
        Err(SoftwareClientError::TransactionTimedOut)
    );
    assert_eq!(state.begin_transaction(4, 300, 200), Err(SoftwareClientError::TransactionTimedOut));
    assert_eq!(state.begin_transaction(5, 300, 200), Err(SoftwareClientError::TransactionTimedOut));
    let later = state.record_outcome(Err(SoftwareClientError::ServiceOwnerChanged));
    assert_eq!(later, Err(SoftwareClientError::ServiceOwnerChanged));
    assert_eq!(state.terminal_error(), Some(SoftwareClientError::TransactionTimedOut));
}

#[test]
fn another_transactions_completion_keeps_the_deadline() {
    let mut state = SoftwareStreamState::new(":1.7".into());
    state.begin_transaction(1, 0, 50).unwrap();
    let outcome = state.on_receipt(SoftwareSignalReceipt::Received(":1.7".into(), finished(9))).unwrap();
    assert_eq!(state.finish_transaction(1, outcome), Ok(finished(9)));
    assert_eq!(state.transaction_deadline(), Some((1, 50)));
    assert_eq!(state.begin_transaction(2, 10, 50), Ok(60));
}

#[test]
fn stream_failures_are_unavailable_errors() {
    let state = SoftwareStreamState::new(":1.7".into());
    assert_eq!(
        state.on_receipt(SoftwareSignalReceipt::Ended),
        Some(Err(SoftwareClientError::Unavailable(SOFTWARE_STREAM_ENDED_DETAIL.into())))
    );
    assert_eq!(
        state.on_receipt(SoftwareSignalReceipt::Malformed("bad".into())),
        Some(Err(SoftwareClientError::Unavailable("bad".into())))
    );
    assert_eq!(SoftwareClientError::stream_ended(), SoftwareClientError::Unavailable("stream de sinais encerrado".into()));
}

#[test]
fn owner_is_resolved_with_one_activation_at_most() {
    let resolved = OwnerResolution::start().after_lookup(OwnerLookup::Owner(":1.3".into()));
    assert_eq!(resolved, OwnerResolution::Resolved(":1.3".into()));

    let activate = OwnerResolution::start().after_lookup(OwnerLookup::NoOwner("none".into()));
    assert_eq!(activate, OwnerResolution::Activate);
    let again = activate.after_activation(Ok(()));
    assert_eq!(again, OwnerResolution::LookupAfterActivation);
    assert_eq!(
        again.clone().after_lookup(OwnerLookup::Owner(":1.4".into())),
        OwnerResolution::Resolved(":1.4".into())
    );
    assert_eq!(
        again.after_lookup(OwnerLookup::NoOwner("still none".into())),
        OwnerResolution::Failed(SoftwareClientError::Unavailable("still none".into()))
    );
    assert_eq!(
        OwnerResolution::Activate.after_activation(Err("denied".into())),
        OwnerResolution::Failed(SoftwareClientError::Unavailable("denied".into()))
    );
    assert_eq!(
        OwnerResolution::start().after_lookup(OwnerLookup::Failed("bus down".into())),
        OwnerResolution::Failed(SoftwareClientError::Unavailable("bus down".into()))
    );
}

#[test]
fn calls_reach_only_the_bound_owner() {
    assert_eq!(check_owner(":1.3", OwnerLookup::Owner(":1.3".into())), Ok(()));
    assert_eq!(
        check_owner(":1.3", OwnerLookup::Owner(":1.8".into())),
        Err(SoftwareClientError::ServiceOwnerChanged)
    );
    assert_eq!(
        check_owner(":1.3", OwnerLookup::NoOwner("gone".into())),
        Err(SoftwareClientError::ServiceOwnerChanged)
    );
    assert_eq!(
        check_owner(":1.3", OwnerLookup::Failed("bus".into())),
        Err(SoftwareClientError::Unavailable("bus".into()))
    );
}

#[test]
fn software_error_messages() {
    let e = SoftwareClientError::unavailable("x1".into());
    assert_eq!(e.message_id(), "interface de software indisponível: {detail}");
    assert_eq!(e.render_message(e.message_id()), "interface de software indisponível: x1");
    let owner_changed = SoftwareClientError::ServiceOwnerChanged;
    assert_eq!(
        owner_changed.message_id(),
        "O serviço de software foi interrompido ou reiniciado. O resultado da operação não foi confirmado; verifique o estado do sistema antes de tentar novamente."
    );
    assert_eq!(owner_changed.render_message(owner_changed.message_id()), owner_changed.message_id());
    let timed_out = SoftwareClientError::TransactionTimedOut;
    assert_eq!(
        timed_out.message_id(),
        "O prazo de acompanhamento terminou. A operação pode continuar em execução; verifique o estado do sistema antes de tentar novamente."
    );
    assert_eq!(timed_out.render_message("translated"), "translated");
    assert_eq!(NVIDIA_RECOVERY_UNSUPPORTED_DETAIL, "NVIDIA recovery is not supported by this client");
    assert_eq!(SOFTWARE_TRANSACTION_TIMEOUT_MS, 2 * 60 * 60 * 1000);
}

#[test]
fn signals_of_other_senders_are_waited_through() {
    let state = SoftwareStreamState::new(":1.7".into());
    assert_eq!(state.on_receipt(SoftwareSignalReceipt::Received(":1.9".into(), finished(3))), None);
    assert_eq!(state.on_receipt(SoftwareSignalReceipt::Received(String::new(), progress(3))), None);
    assert_eq!(
        state.on_receipt(SoftwareSignalReceipt::Received(":1.7".into(), finished(3))),
        Some(Ok(finished(3)))
    );
}

#[test]
fn resumed_wait_accepts_any_timeout_and_keeps_its_deadline() {
    let mut state = SoftwareStreamState::new(":1.7".into());
    assert_eq!(state.begin_transaction(8, 100, 50), Ok(150));
    assert_eq!(state.begin_transaction(8, 120, u64::MAX), Ok(150));
    assert_eq!(state.transaction_deadline(), Some((8, 150)));
    assert_eq!(state.terminal_error(), None);
    assert_eq!(
        state.begin_transaction(8, u64::MAX, u64::MAX),
        Err(SoftwareClientError::TransactionTimedOut)
    );
    assert_eq!(state.terminal_error(), Some(SoftwareClientError::TransactionTimedOut));
    assert_eq!(
        state.begin_transaction(9, u64::MAX, u64::MAX),
        Err(SoftwareClientError::TransactionTimedOut)
    );
    assert_eq!(state.transaction_deadline(), Some((8, 150)));
}

#[test]
fn subscription_steps_run_in_order() {
    let mut step = SubscriptionStep::start();
    let mut seen = vec![];
    while !step.is_done() {
        seen.push(step.clone());
        step = step.advance(Ok(()));
    }
    assert_eq!(
        seen,
        vec![
            SubscriptionStep::WatchOwnerChanges,
            SubscriptionStep::BindOwner,
            SubscriptionStep::SubscribeSignals,
            SubscriptionStep::RecheckOwner,
        ]
    );
    assert_eq!(step, SubscriptionStep::Ready);
    let failed = SubscriptionStep::start()
        .advance(Ok(()))
        .advance(Err(SoftwareClientError::ServiceOwnerChanged));
    assert_eq!(failed, SubscriptionStep::Failed(SoftwareClientError::ServiceOwnerChanged));
    assert!(failed.is_done());
}

#[test]
fn a_deadline_reached_at_the_start_times_out_at_once() {
    let mut state = SoftwareStreamState::new(":1.7".into());
    assert_eq!(state.begin_transaction(3, 500, 0), Err(SoftwareClientError::TransactionTimedOut));
    assert_eq!(state.transaction_deadline(), Some((3, 500)));
    assert_eq!(state.check_open(), Err(SoftwareClientError::TransactionTimedOut));
    let mut state = SoftwareStreamState::new(":1.7".into());
    assert_eq!(state.begin_transaction(3, 500, 100), Ok(600));
    assert_eq!(state.begin_transaction(3, 599, 0), Ok(600));
    assert_eq!(state.begin_transaction(3, 600, 0), Err(SoftwareClientError::TransactionTimedOut));
}
