use jikura::domain::{ActionKind, ContainerId, ImageId, Target};
use jikura::engine::{
    classify, engine_info, operation_for, EngineError, EngineFailure, EngineFlavor, EngineInfo,
    Operation, VersionReport,
};

fn server_error(status_code: u16, message: &str) -> EngineFailure {
    EngineFailure::ServerError {
        status_code,
        message: message.to_owned(),
    }
}

#[test]
fn a_404_becomes_not_found_carrying_the_engines_own_wording() {
    let err = classify(
        server_error(404, "No such container: abc"),
        "unix:///run/x.sock",
    );
    assert_eq!(
        err,
        EngineError::NotFound {
            message: "No such container: abc".to_owned()
        }
    );
}

#[test]
fn a_409_becomes_conflict_because_the_user_can_force_it() {
    let err = classify(
        server_error(409, "container is running: stop it first"),
        "unix:///run/x.sock",
    );
    assert!(matches!(err, EngineError::Conflict { .. }));
}

#[test]
fn a_304_is_not_an_error_the_user_should_worry_about() {
    let err = classify(server_error(304, ""), "unix:///run/x.sock");
    assert_eq!(err, EngineError::NotModified);
}

#[test]
fn a_403_names_the_endpoint_so_the_socket_can_be_fixed() {
    let err = classify(
        server_error(403, "forbidden"),
        "unix:///run/user/1000/podman.sock",
    );
    match err {
        EngineError::PermissionDenied { endpoint, .. } => {
            assert_eq!(endpoint, "unix:///run/user/1000/podman.sock");
        }
        other => panic!("expected PermissionDenied, got {other:?}"),
    }
}

#[test]
fn an_unmapped_status_keeps_its_code() {
    let err = classify(server_error(500, "boom"), "unix:///run/x.sock");
    assert_eq!(
        err,
        EngineError::Api {
            status: 500,
            message: "boom".to_owned()
        }
    );
}

#[test]
fn a_json_failure_is_reported_as_version_skew_not_a_crash() {
    let err = classify(
        EngineFailure::JsonData {
            message: "unknown variant `stopped`".to_owned(),
        },
        "unix:///run/x.sock",
    );
    match err {
        EngineError::Decode { message } => assert!(message.contains("stopped")),
        other => panic!("expected Decode, got {other:?}"),
    }
}

#[test]
fn a_refused_connection_names_the_endpoint() {
    let err = classify(
        EngineFailure::Io {
            permission_denied: false,
            detail: "refused".to_owned(),
        },
        "unix:///run/user/1000/podman.sock",
    );
    match err {
        EngineError::Unreachable { endpoint, .. } => {
            assert_eq!(endpoint, "unix:///run/user/1000/podman.sock");
        }
        other => panic!("expected Unreachable, got {other:?}"),
    }
}

#[test]
fn an_unreadable_socket_is_a_permission_problem_not_an_absent_engine() {
    let err = classify(
        EngineFailure::Io {
            permission_denied: true,
            detail: "denied".to_owned(),
        },
        "unix:///run/user/1000/podman.sock",
    );
    assert!(matches!(err, EngineError::PermissionDenied { .. }));
}

#[test]
fn only_reachability_failures_are_worth_retrying() {
    assert!(EngineError::Unreachable {
        endpoint: "x".to_owned(),
        detail: "y".to_owned()
    }
    .is_transient());
    assert!(!EngineError::NotFound {
        message: "gone".to_owned()
    }
    .is_transient());
    assert!(!EngineError::Decode {
        message: "skew".to_owned()
    }
    .is_transient());
}

#[test]
fn podman_is_recognised_from_its_component_list() {
    let info = engine_info(VersionReport {
        version: Some("5.6.2".to_owned()),
        api_version: Some("1.52".to_owned()),
        components: Some(vec!["Podman Engine".to_owned()]),
        ..Default::default()
    });
    assert_eq!(
        info,
        EngineInfo {
            flavor: EngineFlavor::Podman,
            version: "5.6.2".to_owned(),
            api_version: "1.52".to_owned(),
        }
    );
}

#[test]
fn docker_is_recognised_from_its_platform_name() {
    let info = engine_info(VersionReport {
        version: Some("27.5.1".to_owned()),
        api_version: Some("1.47".to_owned()),
        platform: Some("Docker Engine - Community".to_owned()),
        ..Default::default()
    });
    assert_eq!(info.flavor, EngineFlavor::Docker);
}

#[test]
fn an_unannounced_engine_still_yields_usable_info() {
    let info = engine_info(VersionReport::default());
    assert_eq!(info.flavor, EngineFlavor::Unknown);
    assert_eq!(info.version, "unknown");
    assert_eq!(info.api_version, "unknown");
}

#[test]
fn podman_wins_when_its_compat_layer_also_mentions_docker() {
    let info = engine_info(VersionReport {
        components: Some(vec!["Docker Engine".to_owned(), "Podman Engine".to_owned()]),
        platform: Some("Docker Engine".to_owned()),
        ..Default::default()
    });
    assert_eq!(info.flavor, EngineFlavor::Podman);
}

#[test]
fn a_docker_component_is_enough_without_a_platform() {
    let info = engine_info(VersionReport {
        components: Some(vec!["Engine".to_owned(), "DOCKER ENGINE".to_owned()]),
        ..Default::default()
    });
    assert_eq!(info.flavor, EngineFlavor::Docker);
    assert_eq!(info.flavor.to_string(), "docker");
    assert_eq!(EngineFlavor::Unknown.as_str(), "engine");
}

#[test]
fn unauthorised_and_missing_socket_failures_name_the_endpoint() {
    let err = classify(server_error(401, "auth"), "tcp://h:2375");
    assert_eq!(
        err,
        EngineError::PermissionDenied {
            endpoint: "tcp://h:2375".to_owned(),
            detail: "auth".to_owned()
        }
    );
    let err = classify(
        EngineFailure::SocketNotFound {
            path: "/run/docker.sock".to_owned(),
        },
        "unix:///run/docker.sock",
    );
    assert_eq!(
        err,
        EngineError::Unreachable {
            endpoint: "unix:///run/docker.sock".to_owned(),
            detail: "no socket at /run/docker.sock".to_owned()
        }
    );
    let err = classify(
        EngineFailure::Hyper {
            detail: "reset".to_owned(),
        },
        "e",
    );
    assert!(err.is_transient());
    let err = classify(
        EngineFailure::JsonSerde {
            message: "eof".to_owned(),
        },
        "e",
    );
    assert_eq!(
        err,
        EngineError::Decode {
            message: "eof".to_owned()
        }
    );
    let err = classify(
        EngineFailure::Other {
            message: "odd".to_owned(),
        },
        "e",
    );
    assert_eq!(
        err,
        EngineError::Other {
            message: "odd".to_owned()
        }
    );
}

#[test]
fn server_failures_are_worth_retrying_but_client_failures_are_not() {
    assert!(classify(server_error(503, "busy"), "e").is_transient());
    assert!(!classify(server_error(400, "bad"), "e").is_transient());
    assert!(!classify(server_error(409, "conflict"), "e").is_transient());
}

#[test]
fn error_texts_explain_what_went_wrong() {
    assert_eq!(
        EngineError::Unreachable {
            endpoint: "unix:///s".to_owned(),
            detail: "refused".to_owned()
        }
        .to_string(),
        "cannot reach a container engine at unix:///s: refused"
    );
    assert_eq!(
        EngineError::PermissionDenied {
            endpoint: "unix:///s".to_owned(),
            detail: "denied".to_owned()
        }
        .to_string(),
        "permission denied at unix:///s: denied"
    );
    assert_eq!(EngineError::NotModified.to_string(), "already in that state");
    assert_eq!(
        EngineError::Api {
            status: 500,
            message: "boom".to_owned()
        }
        .to_string(),
        "engine returned 500: boom"
    );
    assert_eq!(
        EngineError::Decode {
            message: "x".to_owned()
        }
        .to_string(),
        "could not read the engine's reply (x); docker/podman API version skew?"
    );
}

#[test]
fn each_action_picks_its_own_engine_call() {
    let c = Target::Container(ContainerId::from("abc".to_owned()));
    let i = Target::Image(ImageId::from("sha256:def".to_owned()));
    assert_eq!(
        operation_for(ActionKind::Start, &c),
        Ok(Operation::StartContainer)
    );
    assert_eq!(
        operation_for(ActionKind::Kill, &c),
        Ok(Operation::KillContainer)
    );
    assert_eq!(
        operation_for(ActionKind::RemoveContainer { force: true }, &c),
        Ok(Operation::RemoveContainer { force: true })
    );
    assert_eq!(
        operation_for(ActionKind::RemoveImage { force: false }, &i),
        Ok(Operation::RemoveImage { force: false })
    );
}

#[test]
fn a_mismatched_action_is_refused_with_an_explanation() {
    let i = Target::Image(ImageId::from("sha256:def".to_owned()));
    let c = Target::Container(ContainerId::from("abc".to_owned()));
    match operation_for(ActionKind::Stop, &i) {
        Err(EngineError::Other { message }) => {
            assert!(message.ends_with(" does not apply to an image"), "{message}");
        }
        other => panic!("expected a refusal, got {other:?}"),
    }
    match operation_for(ActionKind::RemoveImage { force: true }, &c) {
        Err(EngineError::Other { message }) => {
            assert!(message.ends_with(" does not apply to a container"), "{message}");
        }
        other => panic!("expected a refusal, got {other:?}"),
    }
    assert!(operation_for(ActionKind::Enter, &c).is_err());
}
