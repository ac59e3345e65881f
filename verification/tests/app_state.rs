use std::collections::BTreeMap;

use jikura::app::{Action, App, Command, EngineEvent, LoadState, Modal, Msg, Tab, Toast};
use jikura::domain::{
    ActionKind, ByteSize, Container, ContainerId, ContainerState, Image, ImageId, Severity,
    Target, Timestamp,
};
use jikura::engine::{EngineError, EngineFlavor, EngineInfo};

fn container(name: &str, id: &str, state: ContainerState) -> Container {
    Container {
        id: ContainerId::from(id.to_owned()),
        names: vec![name.to_owned()],
        image: "nginx:latest".to_owned(),
        image_id: ImageId::from("sha256:5d0da3dc976460b7".to_owned()),
        command: "nginx".to_owned(),
        created: Timestamp::unix_epoch(),
        state,
        status_text: "Up 2 hours".to_owned(),
        ports: Vec::new(),
        labels: BTreeMap::new(),
    }
}

fn image(id: &str, containers: Option<i64>) -> Image {
    Image {
        id: ImageId::from(id.to_owned()),
        repo_tags: Vec::new(),
        repo_digests: Vec::new(),
        created: Timestamp::unix_epoch(),
        size: ByteSize(0),
        shared_size: None,
        containers,
        labels: BTreeMap::new(),
    }
}

/// An app with one running and one stopped container, and one image.
fn loaded_app() -> App {
    let mut app = App::new(true);
    app.update(Msg::Engine(EngineEvent::Containers(Ok(vec![
        container("web", "aaaa000000001111", ContainerState::Running),
        container("db", "bbbb000000002222", ContainerState::Exited),
    ]))), now());
    app.update(Msg::Engine(EngineEvent::Images(Ok(vec![image(
        "sha256:cccc000000003333",
        Some(0),
    )]))), now());
    app
}

fn act(app: &mut App, action: Action) -> Vec<Command> {
    app.update(Msg::Action(action), now())
}

fn now() -> Timestamp {
    let now = chrono::Utc::now();
    Timestamp {
        secs: now.timestamp(),
        nanos: now.timestamp_subsec_nanos(),
    }
}

#[test]
fn startup_loads_the_engine_banner_and_both_panes() {
    let app = App::new(false);
    assert_eq!(
        app.startup(),
        vec![
            Command::LoadInfo,
            Command::LoadContainers { all: false },
            Command::LoadImages { all: false },
        ]
    );
}

#[test]
fn a_successful_load_fills_the_pane_and_selects_the_first_row() {
    let app = loaded_app();
    assert_eq!(app.containers.len(), 2);
    assert!(matches!(app.containers.load, LoadState::Loaded { .. }));
    assert_eq!(
        app.containers.selected_item().unwrap().display_name(),
        "web"
    );
}

#[test]
fn a_failed_load_keeps_the_rows_and_reports_it_once() {
    let mut app = loaded_app();
    app.update(Msg::Engine(EngineEvent::Containers(Err(
        EngineError::Unreachable {
            endpoint: "unix:///run/x.sock".to_owned(),
            detail: "refused".to_owned(),
        },
    ))), now());
    assert_eq!(app.containers.len(), 2, "rows must stay on screen");
    assert!(matches!(app.containers.load, LoadState::Failed { .. }));
    assert_eq!(app.toasts.len(), 1);
    assert_eq!(app.toasts[0].severity, Severity::Bad);
    assert!(app.toasts[0].text.contains("unix:///run/x.sock"));
}

#[test]
fn the_cursor_moves_within_the_active_pane_only() {
    let mut app = loaded_app();
    act(&mut app, Action::NextItem);
    assert_eq!(app.containers.selected(), Some(1));
    assert_eq!(app.images.selected(), Some(0), "images pane untouched");
}

#[test]
fn switching_tabs_moves_the_cursor_in_the_other_pane_instead() {
    let mut app = loaded_app();
    act(&mut app, Action::NextTab);
    assert_eq!(app.tab, Tab::Images);
    act(&mut app, Action::NextItem);
    assert_eq!(app.containers.selected(), Some(0), "containers untouched");
}

#[test]
fn switching_to_a_never_loaded_pane_asks_for_its_data() {
    let mut app = App::new(false);
    let commands = act(&mut app, Action::NextTab);
    assert_eq!(commands, vec![Command::LoadImages { all: false }]);
}

#[test]
fn refresh_reloads_only_the_active_pane() {
    let mut app = loaded_app();
    assert_eq!(
        act(&mut app, Action::Refresh),
        vec![Command::LoadContainers { all: true }]
    );
    act(&mut app, Action::NextTab);
    assert_eq!(
        act(&mut app, Action::Refresh),
        vec![Command::LoadImages { all: true }]
    );
}

#[test]
fn toggling_all_reloads_containers_with_the_new_filter() {
    let mut app = App::new(false);
    let commands = act(&mut app, Action::ToggleAll);
    assert!(app.show_all);
    assert_eq!(commands, vec![Command::LoadContainers { all: true }]);
}

#[test]
fn the_action_menu_offers_only_what_the_state_permits() {
    let mut app = loaded_app();
    act(&mut app, Action::OpenActionMenu);
    match app.modal.as_ref().expect("menu should open") {
        Modal::ActionMenu { options, .. } => {
            assert!(options.contains(&ActionKind::Stop), "running: can stop");
            assert!(options.contains(&ActionKind::Pause));
            assert!(
                !options.contains(&ActionKind::Start),
                "running: cannot start"
            );
            assert!(!options.contains(&ActionKind::Unpause));
        }
        other => panic!("expected an action menu, got {other:?}"),
    }
}

#[test]
fn the_menu_for_a_stopped_container_offers_start_and_plain_removal() {
    let mut app = loaded_app();
    act(&mut app, Action::NextItem); // the exited one
    act(&mut app, Action::OpenActionMenu);
    match app.modal.as_ref().unwrap() {
        Modal::ActionMenu { options, .. } => {
            assert!(options.contains(&ActionKind::Start));
            assert!(options.contains(&ActionKind::RemoveContainer { force: false }));
            assert!(!options.contains(&ActionKind::Stop));
            assert!(!options.contains(&ActionKind::Enter));
        }
        other => panic!("expected an action menu, got {other:?}"),
    }
}

#[test]
fn entering_uses_the_selected_full_id_without_confirmation() {
    let mut app = loaded_app();
    let target = app.selected_target().unwrap();
    act(&mut app, Action::OpenActionMenu);
    let position = app
        .available_actions()
        .iter()
        .position(|action| *action == ActionKind::Enter)
        .unwrap();
    for _ in 0..position {
        act(&mut app, Action::NextItem);
    }
    assert_eq!(
        act(&mut app, Action::Select),
        vec![Command::Perform {
            action: ActionKind::Enter,
            target: target.clone(),
        }]
    );
    assert!(app.modal.is_none());
    assert_eq!(app.inflight.get(&target), Some(&ActionKind::Enter));
}

#[test]
fn entering_is_refused_if_the_container_stops_while_the_menu_is_open() {
    let mut app = loaded_app();
    act(&mut app, Action::OpenActionMenu);
    let position = app
        .available_actions()
        .iter()
        .position(|action| *action == ActionKind::Enter)
        .unwrap();
    for _ in 0..position {
        act(&mut app, Action::NextItem);
    }
    app.update(Msg::Engine(EngineEvent::Containers(Ok(vec![container(
        "web",
        "aaaa000000001111",
        ContainerState::Exited,
    )]))), now());
    assert!(act(&mut app, Action::Select).is_empty());
    assert!(app.inflight.is_empty());
    assert!(app.toasts.last().unwrap().text.contains("running"));
}

#[test]
fn the_cursor_keys_drive_the_menu_while_it_is_open() {
    let mut app = loaded_app();
    act(&mut app, Action::OpenActionMenu);
    act(&mut app, Action::NextItem);
    match app.modal.as_ref().unwrap() {
        Modal::ActionMenu { cursor, .. } => assert_eq!(*cursor, 1),
        other => panic!("expected an action menu, got {other:?}"),
    }
    assert_eq!(
        app.containers.selected(),
        Some(0),
        "the table cursor must not move while a menu is open"
    );
}

#[test]
fn a_harmless_action_runs_straight_away_and_marks_the_row_busy() {
    let mut app = loaded_app();
    let target = app.selected_target().unwrap();
    act(&mut app, Action::OpenActionMenu);
    // Stop is first in the menu for a running container.
    let commands = act(&mut app, Action::Select);
    assert_eq!(
        commands,
        vec![Command::Perform {
            action: ActionKind::Stop,
            target: target.clone()
        }]
    );
    assert_eq!(app.inflight.get(&target), Some(&ActionKind::Stop));
    assert!(app.modal.is_none(), "menu closes once the action is sent");
}

#[test]
fn a_destructive_action_asks_first_and_sends_nothing_yet() {
    let mut app = loaded_app();
    act(&mut app, Action::NextItem); // exited container: removable
    act(&mut app, Action::OpenActionMenu);
    // Walk to the plain Remove entry.
    let removal = ActionKind::RemoveContainer { force: false };
    let position = app
        .available_actions()
        .iter()
        .position(|a| *a == removal)
        .expect("removal offered");
    for _ in 0..position {
        act(&mut app, Action::NextItem);
    }
    let commands = act(&mut app, Action::Select);
    assert!(commands.is_empty(), "nothing runs before confirmation");
    assert!(matches!(
        app.modal,
        Some(Modal::Confirm { action, .. }) if action == removal
    ));
    assert!(app.inflight.is_empty());
}

#[test]
fn confirming_sends_the_action_and_declining_sends_nothing() {
    let mut app = loaded_app();
    let target = Target::Container(ContainerId::from("bbbb000000002222".to_owned()));
    app.modal = Some(Modal::Confirm {
        action: ActionKind::RemoveContainer { force: false },
        target: target.clone(),
        prompt: "Remove db?".to_owned(),
    });
    let commands = act(&mut app, Action::Select);
    assert_eq!(
        commands,
        vec![Command::Perform {
            action: ActionKind::RemoveContainer { force: false },
            target: target.clone()
        }]
    );
    assert!(app.modal.is_none());

    let mut app = loaded_app();
    app.modal = Some(Modal::Confirm {
        action: ActionKind::RemoveContainer { force: false },
        target,
        prompt: "Remove db?".to_owned(),
    });
    assert!(act(&mut app, Action::Dismiss).is_empty());
    assert!(app.modal.is_none());
    assert!(app.inflight.is_empty());
}

#[test]
fn a_second_action_on_a_busy_row_is_refused_with_an_explanation() {
    let mut app = loaded_app();
    let target = app.selected_target().unwrap();
    app.inflight.insert(target, ActionKind::Stop);
    let commands = act(&mut app, Action::OpenActionMenu);
    assert!(commands.is_empty());
    assert!(app.modal.is_none());
    assert_eq!(app.toasts.len(), 1);
    assert!(app.toasts[0].text.contains("stopping"));
}

#[test]
fn a_finished_action_clears_the_marker_reports_it_and_reloads() {
    let mut app = loaded_app();
    let target = app.selected_target().unwrap();
    app.inflight.insert(target.clone(), ActionKind::Stop);
    let commands = app.update(Msg::Engine(EngineEvent::ActionDone {
        action: ActionKind::Stop,
        target,
        result: Ok(()),
    }), now());
    assert!(app.inflight.is_empty());
    assert_eq!(commands, vec![Command::LoadContainers { all: true }]);
    assert_eq!(app.toasts[0].severity, Severity::Good);
}

#[test]
fn a_failed_action_reports_the_engines_reason_and_still_reloads() {
    let mut app = loaded_app();
    let target = app.selected_target().unwrap();
    app.inflight.insert(target.clone(), ActionKind::Stop);
    let commands = app.update(Msg::Engine(EngineEvent::ActionDone {
        action: ActionKind::Stop,
        target,
        result: Err(EngineError::Conflict {
            message: "container is paused".to_owned(),
        }),
    }), now());
    assert!(app.inflight.is_empty());
    assert_eq!(commands, vec![Command::LoadContainers { all: true }]);
    assert_eq!(app.toasts[0].severity, Severity::Bad);
    assert!(app.toasts[0].text.contains("container is paused"));
}

#[test]
fn an_already_in_that_state_reply_is_information_not_an_error() {
    let mut app = loaded_app();
    let target = app.selected_target().unwrap();
    app.inflight.insert(target.clone(), ActionKind::Start);
    app.update(Msg::Engine(EngineEvent::ActionDone {
        action: ActionKind::Start,
        target,
        result: Err(EngineError::NotModified),
    }), now());
    assert_eq!(app.toasts[0].severity, Severity::Neutral);
}

#[test]
fn an_image_in_use_may_only_be_force_removed() {
    let mut app = loaded_app();
    app.update(Msg::Engine(EngineEvent::Images(Ok(vec![image(
        "sha256:cccc000000003333",
        Some(2),
    )]))), now());
    act(&mut app, Action::NextTab);
    let options = app.available_actions();
    assert_eq!(options, vec![ActionKind::RemoveImage { force: true }]);
}

#[test]
fn an_unused_image_offers_plain_removal_too() {
    let mut app = loaded_app();
    act(&mut app, Action::NextTab);
    assert_eq!(
        app.available_actions(),
        vec![
            ActionKind::RemoveImage { force: false },
            ActionKind::RemoveImage { force: true },
        ]
    );
}

#[test]
fn acting_on_an_empty_pane_does_nothing() {
    let mut app = App::new(true);
    assert!(act(&mut app, Action::OpenActionMenu).is_empty());
    assert!(app.modal.is_none());
    assert_eq!(app.selected_target(), None);
}

#[test]
fn escape_closes_a_modal_and_quit_only_bites_once_nothing_is_open() {
    let mut app = loaded_app();
    act(&mut app, Action::ToggleHelp);
    assert_eq!(app.modal, Some(Modal::Help));
    act(&mut app, Action::Quit);
    assert!(!app.should_quit, "quit closes the modal first");
    assert!(app.modal.is_none());
    act(&mut app, Action::Quit);
    assert!(app.should_quit);
}

#[test]
fn a_tick_refreshes_the_active_pane_and_expires_old_toasts() {
    let mut app = loaded_app();
    let now = now();
    app.toasts.push(Toast {
        text: "old".to_owned(),
        severity: Severity::Neutral,
        at: Timestamp {
            secs: now.secs - 5,
            nanos: now.nanos,
        },
    });
    app.toasts.push(Toast {
        text: "fresh".to_owned(),
        severity: Severity::Neutral,
        at: now,
    });
    let commands = app.update(Msg::Tick, now);
    assert_eq!(commands, vec![Command::LoadContainers { all: true }]);
    assert_eq!(app.toasts.len(), 1);
    assert_eq!(app.toasts[0].text, "fresh");
}

#[test]
fn the_engine_banner_is_remembered_and_a_failure_to_read_it_is_reported() {
    let mut app = App::new(false);
    app.update(Msg::Engine(EngineEvent::Info(Ok(EngineInfo {
        flavor: EngineFlavor::Podman,
        version: "5.6.2".to_owned(),
        api_version: "1.52".to_owned(),
    }))), now());
    assert_eq!(app.engine.as_ref().unwrap().version, "5.6.2");

    app.update(Msg::Engine(EngineEvent::Info(Err(
        EngineError::Unreachable {
            endpoint: "unix:///run/x.sock".to_owned(),
            detail: "refused".to_owned(),
        },
    ))), now());
    assert_eq!(app.toasts.last().unwrap().severity, Severity::Bad);
}

#[test]
fn toast_texts_name_the_row_and_the_action() {
    let t0 = Timestamp::from_secs(100);
    let mut app = App::new(true);
    app.update(
        Msg::Engine(EngineEvent::Containers(Ok(vec![container(
            "web",
            "aaaa000000001111",
            ContainerState::Running,
        )]))),
        t0,
    );
    let target = app.selected_target().unwrap();
    app.update(
        Msg::Engine(EngineEvent::ActionDone {
            action: ActionKind::Stop,
            target: target.clone(),
            result: Ok(()),
        }),
        t0,
    );
    assert_eq!(app.toasts[0].text, "Stop web: done");
    assert_eq!(app.toasts[0].at, t0);
    app.update(
        Msg::Engine(EngineEvent::ActionDone {
            action: ActionKind::Start,
            target: target.clone(),
            result: Err(EngineError::NotModified),
        }),
        t0,
    );
    assert_eq!(app.toasts[1].text, "web is already in that state");
    app.update(
        Msg::Engine(EngineEvent::ActionDone {
            action: ActionKind::Kill,
            target: Target::Container(ContainerId::from("ffff00000000ffff".to_owned())),
            result: Err(EngineError::Api {
                status: 500,
                message: "boom".to_owned(),
            }),
        }),
        t0,
    );
    assert_eq!(app.toasts[2].text, "Kill: engine returned 500: boom");
    app.inflight.insert(target, ActionKind::Pause);
    app.update(Msg::Action(Action::OpenActionMenu), t0);
    assert_eq!(app.toasts[3].text, "already pausing web");
}

#[test]
fn a_destructive_prompt_names_the_row() {
    let mut app = loaded_app();
    act(&mut app, Action::NextItem);
    act(&mut app, Action::OpenActionMenu);
    let position = app
        .available_actions()
        .iter()
        .position(|a| *a == ActionKind::RemoveContainer { force: true })
        .unwrap();
    for _ in 0..position {
        act(&mut app, Action::NextItem);
    }
    act(&mut app, Action::Select);
    match app.modal.as_ref().unwrap() {
        Modal::Confirm { prompt, .. } => assert_eq!(prompt, "Remove (force) db?"),
        other => panic!("expected a confirmation, got {other:?}"),
    }
}

#[test]
fn the_menu_cursor_wraps_both_ways() {
    let mut app = loaded_app();
    act(&mut app, Action::OpenActionMenu);
    let len = app.available_actions().len();
    act(&mut app, Action::PrevItem);
    match app.modal.as_ref().unwrap() {
        Modal::ActionMenu { cursor, .. } => assert_eq!(*cursor, len - 1),
        other => panic!("expected an action menu, got {other:?}"),
    }
    act(&mut app, Action::NextItem);
    match app.modal.as_ref().unwrap() {
        Modal::ActionMenu { cursor, .. } => assert_eq!(*cursor, 0),
        other => panic!("expected an action menu, got {other:?}"),
    }
}

#[test]
fn a_label_falls_back_to_the_short_id_once_the_row_is_gone() {
    let app = loaded_app();
    let gone = Target::Container(ContainerId::from("eeee00000000eeee1234".to_owned()));
    assert_eq!(app.label_for(&gone), "eeee00000000");
    let img = Target::Image(ImageId::from("sha256:cccc000000003333".to_owned()));
    assert_eq!(app.label_for(&img), "<none>");
}
