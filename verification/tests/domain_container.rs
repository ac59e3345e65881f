use std::collections::BTreeMap;

use jikura::domain::{
    ActionKind, Container, ContainerId, ContainerState, ImageId, PortMapping, Protocol, Severity,
    Timestamp, UnknownProtocol,
};

fn container(state: ContainerState, names: Vec<&str>, image: &str) -> Container {
    Container {
        id: ContainerId::from("3320b75965a8f1c2".to_owned()),
        names: names.into_iter().map(str::to_owned).collect(),
        image: image.to_owned(),
        image_id: ImageId::from("sha256:5d0da3dc976460b7".to_owned()),
        command: "/bin/sh".to_owned(),
        created: Timestamp::from_secs(1_700_000_000),
        state,
        status_text: "Up 2 hours".to_owned(),
        ports: Vec::new(),
        labels: BTreeMap::new(),
    }
}

const ALL_STATES: [ContainerState; 8] = [
    ContainerState::Created,
    ContainerState::Running,
    ContainerState::Paused,
    ContainerState::Restarting,
    ContainerState::Exited,
    ContainerState::Dead,
    ContainerState::Removing,
    ContainerState::Unknown,
];

#[test]
fn protocol_parses_the_engines_spellings_and_treats_empty_as_tcp() {
    assert_eq!("tcp".parse::<Protocol>(), Ok(Protocol::Tcp));
    assert_eq!("UDP".parse::<Protocol>(), Ok(Protocol::Udp));
    assert_eq!("sctp".parse::<Protocol>(), Ok(Protocol::Sctp));
    assert_eq!("".parse::<Protocol>(), Ok(Protocol::Tcp));
}

#[test]
fn protocol_rejects_an_unknown_spelling() {
    assert_eq!(
        "quic".parse::<Protocol>(),
        Err(UnknownProtocol("quic".to_owned()))
    );
}

#[test]
fn protocol_parsing_ignores_surrounding_space_and_reports_the_folded_spelling() {
    assert_eq!(" Sctp\n".parse::<Protocol>(), Ok(Protocol::Sctp));
    assert_eq!("  ".parse::<Protocol>(), Ok(Protocol::Tcp));
    assert_eq!(
        " QUIC ".parse::<Protocol>(),
        Err(UnknownProtocol("quic".to_owned()))
    );
    assert_eq!(Protocol::Udp.to_string(), "udp");
}

#[test]
fn published_port_renders_like_docker_ps() {
    let p = PortMapping {
        host_ip: Some("0.0.0.0".to_owned()),
        host_port: Some(8080),
        container_port: 80,
        protocol: Protocol::Tcp,
    };
    assert!(p.is_published());
    assert_eq!(p.to_string(), "0.0.0.0:8080->80/tcp");
}

#[test]
fn exposed_but_unpublished_port_renders_without_a_host_side() {
    let p = PortMapping {
        host_ip: None,
        host_port: None,
        container_port: 5432,
        protocol: Protocol::Udp,
    };
    assert!(!p.is_published());
    assert_eq!(p.to_string(), "5432/udp");
}

#[test]
fn a_published_port_without_an_address_renders_the_host_port_only() {
    let p = PortMapping {
        host_ip: None,
        host_port: Some(65535),
        container_port: 0,
        protocol: Protocol::Sctp,
    };
    assert_eq!(p.to_string(), "65535->0/sctp");
}

#[test]
fn running_is_up_but_a_paused_container_is_up_without_running() {
    assert!(ContainerState::Running.is_running());
    assert!(ContainerState::Running.is_up());
    assert!(!ContainerState::Paused.is_running());
    assert!(ContainerState::Paused.is_up());
    assert!(!ContainerState::Exited.is_up());
}

#[test]
fn restarting_and_removing_are_transient() {
    assert!(ContainerState::Restarting.is_transient());
    assert!(ContainerState::Removing.is_transient());
    assert!(!ContainerState::Running.is_transient());
}

#[test]
fn sort_rank_puts_running_first_and_unknown_last() {
    let mut states = vec![
        ContainerState::Exited,
        ContainerState::Unknown,
        ContainerState::Running,
        ContainerState::Paused,
    ];
    states.sort_by_key(ContainerState::sort_rank);
    assert_eq!(
        states,
        vec![
            ContainerState::Running,
            ContainerState::Paused,
            ContainerState::Exited,
            ContainerState::Unknown,
        ]
    );
}

#[test]
fn severity_flags_running_good_and_dead_bad() {
    assert_eq!(ContainerState::Running.severity(), Severity::Good);
    assert_eq!(ContainerState::Paused.severity(), Severity::Warn);
    assert_eq!(ContainerState::Dead.severity(), Severity::Bad);
    assert_eq!(ContainerState::Exited.severity(), Severity::Neutral);
}

#[test]
fn a_stopped_container_can_start_but_not_stop() {
    let s = ContainerState::Exited;
    assert!(s.allows(ActionKind::Start));
    assert!(!s.allows(ActionKind::Stop));
    assert!(!s.allows(ActionKind::Pause));
    assert!(s.allows(ActionKind::RemoveContainer { force: false }));
}

#[test]
fn a_running_container_can_stop_pause_and_kill_but_not_start() {
    let s = ContainerState::Running;
    assert!(!s.allows(ActionKind::Start));
    assert!(s.allows(ActionKind::Stop));
    assert!(s.allows(ActionKind::Kill));
    assert!(s.allows(ActionKind::Pause));
    assert!(!s.allows(ActionKind::Unpause));
}

#[test]
fn only_running_containers_can_be_entered() {
    for state in ALL_STATES {
        assert_eq!(
            state.allows(ActionKind::Enter),
            state == ContainerState::Running,
            "{}",
            state.to_string()
        );
    }
}

#[test]
fn only_a_paused_container_can_unpause() {
    assert!(ContainerState::Paused.allows(ActionKind::Unpause));
    assert!(!ContainerState::Running.allows(ActionKind::Unpause));
}

#[test]
fn a_running_container_needs_force_to_be_removed() {
    let s = ContainerState::Running;
    assert!(!s.allows(ActionKind::RemoveContainer { force: false }));
    assert!(s.allows(ActionKind::RemoveContainer { force: true }));
}

#[test]
fn a_container_being_removed_allows_nothing() {
    let s = ContainerState::Removing;
    assert!(ActionKind::all().iter().all(|&a| !s.allows(a)));
}

#[test]
fn container_actions_never_apply_to_images() {
    for state in [ContainerState::Running, ContainerState::Exited] {
        assert!(!state.allows(ActionKind::RemoveImage { force: false }));
        assert!(!state.allows(ActionKind::RemoveImage { force: true }));
    }
}

#[test]
fn every_state_has_its_engine_spelling_and_a_distinct_rank() {
    let spellings: Vec<&str> = ALL_STATES.iter().map(|s| s.as_str()).collect();
    assert_eq!(
        spellings,
        vec!["created", "running", "paused", "restarting", "exited", "dead", "removing", "unknown"]
    );
    let ranks: Vec<u8> = ALL_STATES.iter().map(|s| s.sort_rank()).collect();
    assert_eq!(ranks, vec![3, 0, 2, 1, 4, 5, 6, 7]);
}

#[test]
fn display_name_falls_back_to_the_short_id() {
    let named = container(ContainerState::Running, vec!["web"], "nginx:latest");
    assert_eq!(named.display_name(), "web");
    let unnamed = container(ContainerState::Running, vec![], "nginx:latest");
    assert_eq!(unnamed.display_name(), "3320b75965a8");
}

#[test]
fn image_label_keeps_a_tag_but_shortens_a_digest_reference() {
    let tagged = container(ContainerState::Running, vec!["web"], "nginx:latest");
    assert_eq!(tagged.image_label(), "nginx:latest");
    let untagged = container(
        ContainerState::Running,
        vec!["web"],
        "sha256:5d0da3dc976460b7c8e9",
    );
    assert_eq!(untagged.image_label(), "5d0da3dc9764");
}

#[test]
fn image_label_shortens_sha512_but_not_other_algorithms() {
    let c = container(ContainerState::Running, vec![], "sha512:0123456789abcdef");
    assert_eq!(c.image_label(), "0123456789ab");
    let c = container(ContainerState::Running, vec![], "md5:0123456789abcdef");
    assert_eq!(c.image_label(), "md5:0123456789abcdef");
}

#[test]
fn ports_summary_joins_entries_and_is_empty_when_there_are_none() {
    let mut c = container(ContainerState::Running, vec!["web"], "nginx:latest");
    assert_eq!(c.ports_summary(), "");
    c.ports = vec![
        PortMapping {
            host_ip: Some("0.0.0.0".to_owned()),
            host_port: Some(8080),
            container_port: 80,
            protocol: Protocol::Tcp,
        },
        PortMapping {
            host_ip: None,
            host_port: None,
            container_port: 443,
            protocol: Protocol::Tcp,
        },
    ];
    assert_eq!(c.ports_summary(), "0.0.0.0:8080->80/tcp, 443/tcp");
}
