use std::collections::BTreeMap;

use jikura::app::{Action, App, EngineEvent, Modal, Msg, Tab, Toast};
use jikura::domain::{
    ActionKind, ByteSize, Container, ContainerId, ContainerState, Image, ImageId, ImageRef,
    PortMapping, Protocol, Severity, Target, Timestamp,
};
use jikura::engine::{EngineError, EngineFlavor, EngineInfo};
use jikura::ui::view::{
    banner, confirm_keys, container_rows, containers_title, empty_note, footer, help_lines,
    image_rows, images_title, key_hints, menu_lines, menu_title,
};

fn container(name: &str, id: &str, state: ContainerState) -> Container {
    Container {
        id: ContainerId::from(id.to_owned()),
        names: vec![name.to_owned()],
        image: "nginx:latest".to_owned(),
        image_id: ImageId::from("sha256:5d0da3dc976460b7".to_owned()),
        command: "nginx".to_owned(),
        created: Timestamp::unix_epoch(),
        state,
        status_text: "Up 2 hours".to_owned(),
        ports: vec![PortMapping {
            host_ip: None,
            host_port: Some(8080),
            container_port: 80,
            protocol: Protocol::Tcp,
        }],
        labels: BTreeMap::new(),
    }
}

fn image(tags: &[&str], containers: Option<i64>) -> Image {
    Image {
        id: ImageId::from("sha256:cccc000000003333".to_owned()),
        repo_tags: tags.iter().map(|t| ImageRef::parse(t)).collect(),
        repo_digests: Vec::new(),
        created: Timestamp::unix_epoch(),
        size: ByteSize(20_440_000),
        shared_size: None,
        containers,
        labels: BTreeMap::new(),
    }
}

fn app() -> App {
    let mut app = App::new(true);
    app.update(Msg::Engine(EngineEvent::Info(Ok(EngineInfo {
        flavor: EngineFlavor::Podman,
        version: "5.6.2".to_owned(),
        api_version: "1.52".to_owned(),
    }))), now());
    app.update(Msg::Engine(EngineEvent::Containers(Ok(vec![
        container("web", "aaaa000000001111", ContainerState::Running),
        container("db", "bbbb000000002222", ContainerState::Exited),
    ]))), now());
    app.update(Msg::Engine(EngineEvent::Images(Ok(vec![image(
        &["nginx:latest"],
        Some(0),
    )]))), now());
    app
}

#[test]
fn container_rows_show_names_states_and_ports() {
    let app = app();
    let rows = container_rows(&app);
    assert_eq!(rows.len(), 2);
    assert_eq!(rows[0].name, "web");
    assert_eq!(rows[0].image, "nginx:latest");
    assert_eq!(rows[0].state, "running");
    assert_eq!(rows[0].severity, Severity::Good);
    assert_eq!(rows[0].status, "Up 2 hours");
    assert_eq!(rows[0].ports, "8080->80/tcp");
    assert_eq!(rows[1].state, "exited");
}

#[test]
fn the_banner_names_the_engine_that_answered() {
    let app = app();
    assert_eq!(banner(&app.engine), "podman 5.6.2 (API 1.52)");
    assert_eq!(banner(&None), "connecting...");
}

#[test]
fn pane_titles_count_rows_and_name_the_filter() {
    let mut app = app();
    assert_eq!(containers_title(&app), " containers (2, all) ");
    assert_eq!(images_title(&app), " images (1) ");
    app.update(Msg::Action(Action::ToggleAll), now());
    assert_eq!(containers_title(&app), " containers (2, running) ");
}

#[test]
fn image_rows_show_tags_ids_and_usage() {
    let app = app();
    let rows = image_rows(&app);
    assert_eq!(rows.len(), 1);
    assert_eq!(rows[0].name, "nginx:latest");
    assert_eq!(rows[0].id, "cccc00000000");
    assert_eq!(rows[0].size, ByteSize(20_440_000));
    assert_eq!(rows[0].created, "1970-01-01");
    assert_eq!(rows[0].used_by, "0");
    assert_eq!(rows[0].status, "");
}

#[test]
fn extra_tags_are_counted_and_a_tagless_image_reads_as_dangling() {
    let mut app = App::new(false);
    app.update(Msg::Engine(EngineEvent::Images(Ok(vec![
        image(&["nginx:latest", "nginx:1.27", "web:prod"], None),
        image(&[], Some(3)),
    ]))), now());
    let rows = image_rows(&app);
    assert_eq!(rows[0].name, "nginx:latest (+2)");
    assert_eq!(rows[0].used_by, "-");
    assert_eq!(rows[1].name, "<none>");
    assert_eq!(rows[1].used_by, "3");
    assert_eq!(rows[1].status, "dangling");
}

#[test]
fn a_row_with_an_action_in_flight_says_what_it_is_doing() {
    let mut app = app();
    app.inflight.insert(
        Target::Container(ContainerId::from("aaaa000000001111".to_owned())),
        ActionKind::Stop,
    );
    app.inflight.insert(
        Target::Image(ImageId::from("sha256:cccc000000003333".to_owned())),
        ActionKind::RemoveImage { force: false },
    );
    let rows = container_rows(&app);
    assert_eq!(rows[0].state, "stopping...");
    assert_eq!(rows[0].severity, Severity::Warn);
    assert_eq!(rows[1].state, "exited");
    assert_eq!(image_rows(&app)[0].status, "removing...");
}

#[test]
fn the_footer_prefers_the_latest_message_then_a_failure_then_the_hints() {
    let mut app = app();
    let f = footer(&app);
    assert_eq!(f.text, key_hints());
    assert_eq!(f.severity, None);

    app.update(Msg::Engine(EngineEvent::Containers(Err(
        EngineError::Unreachable {
            endpoint: "unix:///run/x.sock".to_owned(),
            detail: "refused".to_owned(),
        },
    ))), now());
    let f = footer(&app);
    assert!(f.text.contains("unix:///run/x.sock"), "{}", f.text);
    assert_eq!(f.severity, Some(Severity::Bad));
    // The rows stay on screen while the failure is reported.
    assert_eq!(container_rows(&app).len(), 2);

    app.toasts.push(Toast {
        text: "Stop web: done".to_owned(),
        severity: Severity::Good,
        at: Timestamp::unix_epoch(),
    });
    let f = footer(&app);
    assert_eq!(f.text, "Stop web: done");
    assert_eq!(f.severity, Some(Severity::Good));
}

#[test]
fn an_empty_pane_has_no_rows_and_a_zero_count() {
    let mut app = App::new(false);
    app.update(Msg::Engine(EngineEvent::Containers(Ok(Vec::new()))), now());
    assert!(container_rows(&app).is_empty());
    assert_eq!(containers_title(&app), " containers (0, running) ");
}

#[test]
fn the_action_menu_marks_the_cursor_and_names_its_target() {
    let mut app = app();
    app.update(Msg::Action(Action::OpenActionMenu), now());
    match &app.modal {
        Some(Modal::ActionMenu {
            target,
            options,
            cursor,
        }) => {
            let lines = menu_lines(options, *cursor);
            assert_eq!(lines.len(), options.len());
            assert_eq!(lines[0], "> Stop");
            assert!(lines[1..].iter().all(|l| l.starts_with("  ")));
            assert!(lines.iter().any(|l| l == "  Restart"));
            assert!(lines.iter().any(|l| l == "  Enter"));
            assert_eq!(menu_title(&app, target), " web ");
        }
        other => panic!("expected the action menu, got {other:?}"),
    }
}

#[test]
fn the_created_column_is_the_utc_calendar_date() {
    let mut app = App::new(false);
    let mut img = image(&["nginx:latest"], None);
    img.created = Timestamp::from_secs(1_700_000_000);
    let mut odd = image(&["odd:1"], None);
    odd.created = Timestamp {
        secs: i64::MAX,
        nanos: 0,
    };
    app.update(Msg::Engine(EngineEvent::Images(Ok(vec![img, odd]))), now());
    let rows = image_rows(&app);
    assert_eq!(rows[0].created, "2023-11-14");
    assert_eq!(rows[1].created, "");
}

/// Everything the container pane writes, row by row.
fn container_pane(app: &App) -> String {
    container_rows(app)
        .into_iter()
        .map(|r| [r.name, r.image, r.state, r.status, r.ports].join(" "))
        .collect::<Vec<_>>()
        .join("\n")
}

#[test]
fn the_container_pane_shows_names_states_and_ports() {
    let output = container_pane(&app());
    assert!(output.contains("web"), "missing container name:\n{output}");
    assert!(output.contains("running"), "missing state:\n{output}");
    assert!(output.contains("exited"));
    assert!(output.contains("8080->80/tcp"), "missing ports:\n{output}");
    assert!(output.contains("nginx:latest"));
}

#[test]
fn the_header_names_the_engine_that_answered() {
    let output = banner(&app().engine);
    assert!(output.contains("podman"), "missing engine flavour:\n{output}");
    assert!(output.contains("5.6.2"));
}

#[test]
fn both_tabs_are_offered_and_the_active_one_is_shown() {
    assert_eq!(Tab::Containers.title(), "Containers");
    assert_eq!(Tab::Images.title(), "Images");
    let mut app = app();
    assert_eq!(app.tab, Tab::Containers);
    app.update(Msg::Action(Action::NextTab), now());
    assert_eq!(app.tab, Tab::Images);
}

#[test]
fn a_row_with_an_action_in_flight_says_so() {
    let mut app = app();
    app.inflight.insert(
        Target::Container(ContainerId::from("aaaa000000001111".to_owned())),
        ActionKind::Stop,
    );
    let output = container_pane(&app);
    assert!(output.contains("stopping"), "no busy marker:\n{output}");
}

#[test]
fn an_empty_pane_says_it_is_empty_rather_than_looking_broken() {
    let mut app = App::new(false);
    app.update(Msg::Engine(EngineEvent::Containers(Ok(Vec::new()))), now());
    assert!(app.containers.is_empty());
    assert!(container_rows(&app).is_empty());
    assert!(
        empty_note(app.tab).to_lowercase().contains("no containers"),
        "no empty-state message"
    );
    assert_eq!(empty_note(Tab::Images), "no images");
}

#[test]
fn a_failed_refresh_is_reported_without_hiding_the_rows() {
    let mut app = app();
    app.update(Msg::Engine(EngineEvent::Containers(Err(
        EngineError::Unreachable {
            endpoint: "unix:///run/x.sock".to_owned(),
            detail: "refused".to_owned(),
        },
    ))), now());
    let output = container_pane(&app);
    assert!(output.contains("web"), "rows disappeared:\n{output}");
    let reported = footer(&app).text;
    assert!(
        reported.contains("unix:///run/x.sock"),
        "failure not reported:\n{reported}"
    );
}

#[test]
fn the_action_menu_lists_what_is_offered() {
    let mut app = app();
    app.update(Msg::Action(Action::OpenActionMenu), now());
    let (target, options, cursor) = match &app.modal {
        Some(Modal::ActionMenu {
            target,
            options,
            cursor,
        }) => (target, options, *cursor),
        other => panic!("menu not open: {other:?}"),
    };
    let output = menu_lines(options, cursor).join("\n");
    assert!(output.contains("Stop"), "menu not drawn:\n{output}");
    assert!(output.contains("Restart"));
    assert!(output.contains("Enter"));
    let title = menu_title(&app, target);
    assert!(title.contains("web"), "menu should name its target:\n{title}");
}

#[test]
fn a_confirmation_shows_the_prompt_and_the_keys_to_answer_it() {
    let mut app = app();
    app.modal = Some(Modal::Confirm {
        action: ActionKind::RemoveContainer { force: true },
        target: Target::Container(ContainerId::from("aaaa000000001111".to_owned())),
        prompt: "Remove (force) web?".to_owned(),
    });
    match &app.modal {
        Some(Modal::Confirm { prompt, .. }) => assert_eq!(prompt, "Remove (force) web?"),
        other => panic!("no confirmation: {other:?}"),
    }
    assert!(confirm_keys().to_lowercase().contains("enter"), "no answer keys");
}

#[test]
fn help_lists_the_bindings() {
    let mut app = app();
    app.update(Msg::Action(Action::ToggleHelp), now());
    assert_eq!(app.modal, Some(Modal::Help));
    let output = help_lines().join("\n");
    assert!(output.contains("quit"), "no help text:\n{output}");
    assert!(output.contains("refresh"));
}

#[test]
fn the_footer_shows_the_latest_message() {
    let mut app = app();
    app.toasts.push(Toast {
        text: "Stop web: done".to_owned(),
        severity: Severity::Good,
        at: Timestamp::unix_epoch(),
    });
    let output = footer(&app).text;
    assert!(output.contains("Stop web: done"), "toast missing:\n{output}");
}

fn now() -> Timestamp {
    Timestamp::from_secs(1_700_000_000)
}
