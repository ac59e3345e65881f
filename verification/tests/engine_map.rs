use std::collections::BTreeMap;

use jikura::domain::{ByteSize, ContainerState, ImageRef};
use jikura::engine::map::{
    computed, container, image, is_placeholder, timestamp, ApiContainerState, ApiPortType,
    ContainerSummary, ImageSummary, PortSummary,
};

fn summary() -> ContainerSummary {
    ContainerSummary {
        id: Some("3320b75965a8f1c2d3e4".to_owned()),
        names: Some(vec!["/web".to_owned(), "/web-alias".to_owned()]),
        image: Some("nginx:latest".to_owned()),
        image_id: Some("sha256:5d0da3dc976460b7".to_owned()),
        command: Some("nginx -g daemon off;".to_owned()),
        created: Some(1_700_000_000),
        state: Some(ApiContainerState::Running),
        status: Some("Up 2 hours".to_owned()),
        ports: None,
        labels: None,
    }
}

fn image_summary() -> ImageSummary {
    ImageSummary {
        id: "sha256:5d0da3dc976460b7".to_owned(),
        repo_tags: vec!["nginx:latest".to_owned()],
        repo_digests: vec!["nginx@sha256:abc".to_owned()],
        created: 1_700_000_000,
        size: 2_910_000_000,
        shared_size: -1,
        containers: -1,
        labels: BTreeMap::new(),
    }
}

#[test]
fn maps_the_fields_the_table_shows() {
    let c = container(summary()).expect("has an id");
    assert_eq!(c.id.short(), "3320b75965a8");
    assert_eq!(c.image, "nginx:latest");
    assert_eq!(c.image_id.short(), "5d0da3dc9764");
    assert_eq!(c.command, "nginx -g daemon off;");
    assert_eq!(c.state, ContainerState::Running);
    assert_eq!(c.status_text, "Up 2 hours");
    assert_eq!(c.created.secs, 1_700_000_000);
}

#[test]
fn strips_the_historic_leading_slash_from_names() {
    let c = container(summary()).unwrap();
    assert_eq!(c.names, vec!["web".to_owned(), "web-alias".to_owned()]);
    assert_eq!(c.display_name(), "web");
}

#[test]
fn an_entry_without_an_id_is_dropped_not_fatal() {
    let mut raw = summary();
    raw.id = None;
    assert!(container(raw).is_none());
}

#[test]
fn an_absent_or_empty_state_becomes_unknown() {
    let mut raw = summary();
    raw.state = None;
    assert_eq!(container(raw).unwrap().state, ContainerState::Unknown);
    let mut raw = summary();
    raw.state = Some(ApiContainerState::Empty);
    assert_eq!(container(raw).unwrap().state, ContainerState::Unknown);
}

#[test]
fn every_api_state_maps_to_a_domain_state() {
    let pairs = [
        (ApiContainerState::Created, ContainerState::Created),
        (ApiContainerState::Running, ContainerState::Running),
        (ApiContainerState::Paused, ContainerState::Paused),
        (ApiContainerState::Restarting, ContainerState::Restarting),
        (ApiContainerState::Exited, ContainerState::Exited),
        (ApiContainerState::Removing, ContainerState::Removing),
        (ApiContainerState::Dead, ContainerState::Dead),
    ];
    for (api, expected) in pairs {
        let mut raw = summary();
        raw.state = Some(api);
        assert_eq!(container(raw).unwrap().state, expected, "for {api:?}");
    }
}

#[test]
fn ports_are_sorted_deduped_and_default_to_tcp() {
    let mut raw = summary();
    raw.ports = Some(vec![
        PortSummary {
            ip: None,
            private_port: 443,
            public_port: None,
            typ: Some(ApiPortType::Empty),
        },
        PortSummary {
            ip: Some("0.0.0.0".to_owned()),
            private_port: 80,
            public_port: Some(8080),
            typ: Some(ApiPortType::Tcp),
        },
        // podman and docker both repeat a mapping per address family
        PortSummary {
            ip: Some("0.0.0.0".to_owned()),
            private_port: 80,
            public_port: Some(8080),
            typ: Some(ApiPortType::Tcp),
        },
    ]);
    let c = container(raw).unwrap();
    assert_eq!(c.ports_summary(), "0.0.0.0:8080->80/tcp, 443/tcp");
}

#[test]
fn an_unparseable_host_ip_leaves_the_port_published_without_one() {
    let mut raw = summary();
    raw.ports = Some(vec![PortSummary {
        ip: Some("not-an-ip".to_owned()),
        private_port: 80,
        public_port: Some(8080),
        typ: None,
    }]);
    let c = container(raw).unwrap();
    assert_eq!(c.ports[0].host_ip, None);
    assert!(c.ports[0].is_published());
    assert_eq!(c.ports_summary(), "8080->80/tcp");
}

#[test]
fn a_nonsense_timestamp_falls_back_to_the_epoch() {
    let mut raw = summary();
    raw.created = Some(i64::MAX);
    assert_eq!(container(raw).unwrap().created.secs, 0);
}

#[test]
fn maps_the_image_fields_the_table_shows() {
    let img = image(image_summary());
    assert_eq!(img.id.short(), "5d0da3dc9764");
    assert_eq!(img.name_label(), "nginx:latest");
    assert_eq!(img.size, ByteSize(2_910_000_000));
    assert_eq!(img.created.secs, 1_700_000_000);
    assert_eq!(img.repo_digests, vec!["nginx@sha256:abc".to_owned()]);
}

#[test]
fn uncomputed_counters_become_none_rather_than_minus_one() {
    let img = image(image_summary());
    assert_eq!(img.containers, None);
    assert_eq!(img.shared_size, None);
    assert_eq!(img.is_in_use(), None);
}

#[test]
fn computed_counters_are_kept() {
    let mut raw = image_summary();
    raw.containers = 2;
    raw.shared_size = 1_000_000;
    let img = image(raw);
    assert_eq!(img.containers, Some(2));
    assert_eq!(img.shared_size, Some(ByteSize(1_000_000)));
    assert_eq!(img.is_in_use(), Some(true));
}

#[test]
fn the_none_placeholder_tag_is_dropped_so_the_image_reads_as_dangling() {
    let mut raw = image_summary();
    raw.repo_tags = vec!["<none>:<none>".to_owned()];
    let img = image(raw);
    assert!(img.is_dangling());
    assert_eq!(img.name_label(), "<none>");
}

#[test]
fn multiple_tags_survive_in_order() {
    let mut raw = image_summary();
    raw.repo_tags = vec!["nginx:latest".to_owned(), "nginx:1.27".to_owned()];
    let img = image(raw);
    assert_eq!(img.repo_tags.len(), 2);
    assert_eq!(img.primary_ref(), Some(&ImageRef::parse("nginx:latest")));
    assert_eq!(img.extra_tag_count(), 1);
}

#[test]
fn a_negative_size_clamps_to_zero_instead_of_wrapping() {
    let mut raw = image_summary();
    raw.size = -1;
    assert_eq!(image(raw).size, ByteSize(0));
}

#[test]
fn ports_sort_by_container_port_then_protocol_and_keep_distinct_hosts() {
    let mut raw = summary();
    raw.ports = Some(vec![
        PortSummary {
            ip: Some("::".to_owned()),
            private_port: 53,
            public_port: Some(5353),
            typ: Some(ApiPortType::Udp),
        },
        PortSummary {
            ip: Some("0.0.0.0".to_owned()),
            private_port: 53,
            public_port: Some(5353),
            typ: Some(ApiPortType::Udp),
        },
        PortSummary {
            ip: None,
            private_port: 53,
            public_port: None,
            typ: Some(ApiPortType::Tcp),
        },
        PortSummary {
            ip: None,
            private_port: 22,
            public_port: None,
            typ: Some(ApiPortType::Sctp),
        },
    ]);
    let c = container(raw).unwrap();
    assert_eq!(
        c.ports_summary(),
        "22/sctp, 53/tcp, :::5353->53/udp, 0.0.0.0:5353->53/udp"
    );
}

#[test]
fn labels_and_absent_fields_default_to_empty() {
    let mut labels = BTreeMap::new();
    labels.insert("app".to_owned(), "web".to_owned());
    let raw = ContainerSummary {
        id: Some("abc".to_owned()),
        names: None,
        image: None,
        image_id: None,
        command: None,
        created: None,
        state: None,
        status: None,
        ports: None,
        labels: Some(labels.clone()),
    };
    let c = container(raw).unwrap();
    assert!(c.names.is_empty());
    assert_eq!(c.image, "");
    assert_eq!(c.command, "");
    assert_eq!(c.created.secs, 0);
    assert_eq!(c.labels, labels);
    assert!(c.ports.is_empty());
    assert_eq!(c.display_name(), "abc");
}

#[test]
fn counters_timestamps_and_placeholders_on_their_own() {
    assert_eq!(computed(-1), None);
    assert_eq!(computed(0), Some(0));
    assert_eq!(timestamp(86_400).secs, 86_400);
    assert_eq!(timestamp(i64::MIN).secs, 0);
    assert!(is_placeholder("<none>@<none>"));
    assert!(!is_placeholder("nginx@sha256:abc"));
    let mut raw = image_summary();
    raw.repo_digests = vec!["<none>@<none>".to_owned(), "a@sha256:1".to_owned()];
    assert_eq!(image(raw).repo_digests, vec!["a@sha256:1".to_owned()]);
}

#[test]
fn host_addresses_are_kept_in_their_canonical_spelling() {
    let mut raw = summary();
    raw.ports = Some(vec![
        PortSummary {
            ip: Some("0:0:0:0:0:0:0:1".to_owned()),
            private_port: 80,
            public_port: Some(8080),
            typ: None,
        },
        PortSummary {
            ip: Some("127.0.0.1".to_owned()),
            private_port: 81,
            public_port: Some(8081),
            typ: None,
        },
    ]);
    let c = container(raw).unwrap();
    assert_eq!(c.ports[0].host_ip.as_deref(), Some("::1"));
    assert_eq!(c.ports_summary(), "::1:8080->80/tcp, 127.0.0.1:8081->81/tcp");
}
