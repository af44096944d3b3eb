use lyra_vega_dbus::contract;
use lyra_vega_dbus::{PreparationClient, PreparationClientError, PreparationKey, PreparationStatus};

#[test]
fn preserves_state_diagnostic_and_retry_fields() {
    let status: PreparationStatus = (
        "waiting-retry".into(),
        "refreshing".into(),
        "network".into(),
        "offline".into(),
        "now".into(),
        "later".into(),
        true,
    )
        .into();
    assert_eq!(status.state, "waiting-retry");
    assert_eq!(status.phase, "refreshing");
    assert_eq!(status.error_kind, "network");
    assert_eq!(status.last_error, "offline");
    assert_eq!(status.updated_at, "now");
    assert_eq!(status.next_retry_at, "later");
    assert!(status.can_retry);
}

#[test]
fn old_daemon_fallback_does_not_hide_authorization_errors() {
    for error in [
        zbus::fdo::Error::UnknownInterface("old".into()),
        zbus::fdo::Error::UnknownMethod("old".into()),
    ] {
        assert_eq!(
            PreparationClientError::from_error(zbus::Error::FDO(Box::new(error))),
            PreparationClientError::Unavailable
        );
    }
    assert!(matches!(
        PreparationClientError::from_error(zbus::Error::FDO(Box::new(
            zbus::fdo::Error::AccessDenied("denied".into())
        ))),
        PreparationClientError::Failed(_)
    ));
}

#[test]
fn canonical_xml_matches_proxy() {
    let xml = contract::preparation().introspection_xml();
    let doc = roxmltree::Document::parse(&xml).unwrap();
    let interface = doc.descendants().find(|n| n.has_tag_name("interface")).unwrap();
    assert_eq!(interface.attribute("name"), Some("org.lyraos.Vega1.Preparation"));
    let methods: Vec<_> = interface
        .children()
        .filter(|n| n.has_tag_name("method"))
        .map(|n| {
            (
                n.attribute("name").unwrap(),
                n.children()
                    .filter(|a| a.has_tag_name("arg"))
                    .map(|a| (a.attribute("type").unwrap(), a.attribute("direction").unwrap()))
                    .collect::<Vec<_>>(),
            )
        })
        .collect();
    assert_eq!(
        methods,
        vec![
            ("GetStatus", vec![("(ssssssb)", "out")]),
            ("GetPendingKeys", vec![("a(ssss)", "out")]),
            ("ApproveKey", vec![("s", "in"), ("s", "in"), ("s", "in"), ("u", "out")]),
            ("Retry", vec![])
        ]
    );
}

#[test]
fn error_names_decide_between_old_daemon_and_failure() {
    assert_eq!(
        PreparationClientError::from_parts(
            Some("org.freedesktop.DBus.Error.UnknownMethod"),
            "x".into()
        ),
        PreparationClientError::Unavailable
    );
    assert_eq!(
        PreparationClientError::from_parts(
            Some("org.freedesktop.DBus.Error.AccessDenied"),
            "denied".into()
        ),
        PreparationClientError::Failed("denied".into())
    );
    assert_eq!(
        PreparationClientError::from_parts(None, "io".into()),
        PreparationClientError::Failed("io".into())
    );
    let method_error = zbus::Error::FDO(Box::new(zbus::fdo::Error::AccessDenied("nope".into())));
    match PreparationClientError::from_error(method_error) {
        PreparationClientError::Failed(text) => assert!(text.contains("nope")),
        other => panic!("unexpected {other:?}"),
    }
}

fn row(state: &str) -> (String, String, String, String, String, String, bool) {
    (state.into(), "p".into(), "".into(), "".into(), "t".into(), "".into(), false)
}

#[test]
fn status_reply_of_old_daemon_is_none_and_failures_pass_through() {
    assert_eq!(
        PreparationStatus::from_reply(Ok(row("ready"))),
        Ok(Some(PreparationStatus::from(row("ready"))))
    );
    assert_eq!(PreparationStatus::from_reply(Err(PreparationClientError::Unavailable)), Ok(None));
    assert_eq!(
        PreparationStatus::from_reply(Err(PreparationClientError::Failed("denied".into()))),
        Err(PreparationClientError::Failed("denied".into()))
    );
}

#[test]
fn pending_keys_reply_keeps_order_and_old_daemon_has_none() {
    let rows = vec![
        ("repo-a".to_string(), "AAAA".to_string(), "A <a@x>".to_string(), "tok-a".to_string()),
        ("repo-b".to_string(), "BBBB".to_string(), "B <b@x>".to_string(), "tok-b".to_string()),
    ];
    let keys = PreparationKey::list_from_reply(Ok(rows)).unwrap();
    assert_eq!(keys.len(), 2);
    assert_eq!(keys[0].repo, "repo-a");
    assert_eq!(keys[1].token, "tok-b");
    assert_eq!(keys[1].user_id, "B <b@x>");
    assert_eq!(PreparationKey::list_from_reply(Err(PreparationClientError::Unavailable)), Ok(vec![]));
    assert_eq!(
        PreparationKey::list_from_reply(Err(PreparationClientError::Failed("x".into()))),
        Err(PreparationClientError::Failed("x".into()))
    );
}

struct StatusOnly;

impl PreparationClient for StatusOnly {
    fn status(&self) -> Result<Option<PreparationStatus>, PreparationClientError> {
        Ok(None)
    }

    fn retry(&self) -> Result<(), PreparationClientError> {
        Ok(())
    }
}

#[test]
fn clients_without_key_review_have_no_keys_and_cannot_approve() {
    let client = StatusOnly;
    assert_eq!(client.pending_keys(), Ok(vec![]));
    let key = PreparationKey::from(("r".to_string(), "f".to_string(), "u".to_string(), "t".to_string()));
    assert_eq!(client.approve_key(&key), Err(PreparationClientError::Unavailable));
}

#[test]
fn preparation_messages() {
    let failed = PreparationClientError::Failed("boom".into());
    assert_eq!(failed.message_id(), None);
    assert_eq!(failed.render_message("ignored"), "boom");
    let unavailable = PreparationClientError::Unavailable;
    assert_eq!(
        unavailable.message_id(),
        Some("Estado da preparação indisponível nesta versão do serviço.")
    );
    assert_eq!(
        unavailable.render_message(unavailable.message_id().unwrap()),
        "Estado da preparação indisponível nesta versão do serviço."
    );
}

#[test]
fn bus_errors_keep_their_text_when_passed_on() {
    let denied = zbus::Error::FDO(Box::new(zbus::fdo::Error::AccessDenied("denied".into())));
    let text = denied.to_string();
    assert_eq!(
        PreparationClientError::from_error(denied),
        PreparationClientError::Failed(text)
    );
    let other = zbus::Error::InvalidReply;
    let text = other.to_string();
    assert_eq!(PreparationClientError::from_error(other), PreparationClientError::Failed(text));
    assert_eq!(
        PreparationClientError::from_parts(Some("org.freedesktop.DBus.Error.UnknownMethod"), "x".into()),
        PreparationClientError::Unavailable
    );
    assert_eq!(
        PreparationClientError::from_parts(None, "x".into()),
        PreparationClientError::Failed("x".into())
    );
}
