use std::collections::BTreeMap;

use jikura::app::search::{
    container_matches, digest_ref_matches, fuzzy_matches, id_matches, image_matches,
    is_subsequence,
};
use jikura::domain::{
    ByteSize, Container, ContainerId, ContainerState, Image, ImageId, ImageRef, Timestamp,
};

#[test]
fn matches_case_insensitive_subsequences_including_unicode() {
    assert!(fuzzy_matches("nginx:latest", "NGX"));
    assert!(fuzzy_matches("répertoire", "RÉP"));
    assert!(fuzzy_matches("anything", ""));
    assert!(!fuzzy_matches("nginx", "xgn"));
    assert!(!fuzzy_matches("web", "ww"));
    assert!(!fuzzy_matches("", "a"));
}

#[test]
fn ids_require_a_contiguous_prefix_with_or_without_the_algorithm() {
    for id in [
        "6d336809823dfg97dwoin12cjbiw",
        "sha256:6d336809823dfg97dwoin12cjbiw",
    ] {
        for query in ["", "6d33", "6D33", "6d336809823dfg97dwoin12cjbiw"] {
            assert!(id_matches(id, query), "{id}: {query}");
        }
        for query in ["dfg97", "6c33", "6d38", "6d336809823dfg97dwoin12cjbiwx"] {
            assert!(!id_matches(id, query), "{id}: {query}");
        }
    }
    assert!(id_matches("sha256:6d336809823", "sha256:6d33"));
    assert!(!id_matches("sha256:6d336809823", "sha256:6d38"));
}

#[test]
fn repository_digests_do_not_allow_fuzzy_matches_inside_the_digest() {
    let reference = "registry/nginx@sha256:6d336809823dfg97dwoin12cjbiw";
    assert!(digest_ref_matches(reference, "NGX"));
    assert!(digest_ref_matches(reference, "6d33"));
    assert!(digest_ref_matches(reference, "registry/nginx@sha256:6d33"));
    assert!(!digest_ref_matches(reference, "dfg97"));
    assert!(!digest_ref_matches(reference, "6d38"));
}

fn container(name: &str, image: &str) -> Container {
    Container {
        id: ContainerId::from("aaaa000000001111".to_owned()),
        names: vec![name.to_owned()],
        image: image.to_owned(),
        image_id: ImageId::from("sha256:bbbb000000002222".to_owned()),
        command: "nginx".to_owned(),
        created: Timestamp::unix_epoch(),
        state: ContainerState::Running,
        status_text: "Up".to_owned(),
        ports: Vec::new(),
        labels: BTreeMap::new(),
    }
}

#[test]
fn a_container_matches_by_id_name_image_or_image_id() {
    let c = container("web-frontend", "docker.io/library/nginx:latest");
    assert!(container_matches(&c, "aaaa"));
    assert!(container_matches(&c, "WBF"));
    assert!(container_matches(&c, "ngnx"));
    assert!(container_matches(&c, "bbbb"));
    assert!(container_matches(&c, "sha256:bbbb"));
    assert!(!container_matches(&c, "zzz"));
    assert!(!container_matches(&c, "1111"));
}

#[test]
fn a_raw_image_id_in_the_image_field_matches_only_by_prefix() {
    let c = container("db", "sha256:cccc000000003333");
    assert!(container_matches(&c, "cccc"));
    assert!(!container_matches(&c, "c3333"));
}

#[test]
fn an_image_matches_by_id_tag_or_digest() {
    let img = Image {
        id: ImageId::from("sha256:dddd000000004444".to_owned()),
        repo_tags: vec![ImageRef::parse("registry/app:1.2")],
        repo_digests: vec!["registry/app@sha256:eeee000000005555".to_owned()],
        created: Timestamp::unix_epoch(),
        size: ByteSize(1),
        shared_size: None,
        containers: None,
        labels: BTreeMap::new(),
    };
    assert!(image_matches(&img, "dddd"));
    assert!(image_matches(&img, "ap12"));
    assert!(image_matches(&img, "eeee"));
    assert!(!image_matches(&img, "5555"));
}

#[test]
fn a_subsequence_may_have_gaps_but_keeps_its_order() {
    assert!(is_subsequence("ngx", "nginx"));
    assert!(is_subsequence("", "anything"));
    assert!(is_subsequence("web", "web"));
    assert!(!is_subsequence("xgn", "nginx"));
    assert!(!is_subsequence("nginxx", "nginx"));
    // The test itself is exact: case folding is fuzzy matching's business.
    assert!(!is_subsequence("N", "nginx"));
    assert!(is_subsequence("好", "你好"));
}
