use vstd::prelude::*;
use vstd::string::*;

use super::inflight::Inflight;
use super::list::Keyed;
use super::list::{
    has_key, is_first_with_key, lemma_position_is, position_of_key, selection_after_replace,
    next_selection, previous_selection, LoadState, ResourceList,
};
use super::message::{Action, Command, EngineEvent, Msg};
use crate::domain::container::display_name_text;
use crate::domain::ids::{id_hex, SHORT_ID_BYTES};
use crate::domain::image::name_label_text;
use crate::domain::{
    ActionKind, Container, ContainerState, Image, Severity, Target, TargetView, Timestamp,
};
use crate::engine::{error_text, EngineError, EngineErrorView, EngineInfo};
use crate::text::{owned, prefix_within_bytes};

verus! {

/// How long a toast stays on screen, in seconds.
pub const TOAST_TTL_SECS: i64 = 5;

#[derive(Debug, Clone, Copy, PartialEq, Eq, Structural)]
pub enum Tab {
    Containers,
    Images,
}

impl Default for Tab {
    fn default() -> (r: Tab)
        ensures
            r == Tab::Containers,
    {
        Tab::Containers
    }
}

impl Tab {
    pub open spec fn title_text(self) -> Seq<char> {
        match self {
            Tab::Containers => "Containers"@,
            Tab::Images => "Images"@,
        }
    }

    /// The other tab: with two tabs, next and previous are the same move.
    pub open spec fn other(self) -> Tab {
        match self {
            Tab::Containers => Tab::Images,
            Tab::Images => Tab::Containers,
        }
    }

    pub fn title(&self) -> (r: &'static str)
        ensures
            r@ == self.title_text(),
    {
        match self {
            Tab::Containers => "Containers",
            Tab::Images => "Images",
        }
    }

    pub fn next(self) -> (r: Tab)
        ensures
            r == self.other(),
    {
        match self {
            Tab::Containers => Tab::Images,
            Tab::Images => Tab::Containers,
        }
    }
}

/// A transient message in the corner.
#[derive(Debug, PartialEq, Eq)]
pub struct Toast {
    pub text: String,
    pub severity: Severity,
    pub at: Timestamp,
}

impl Toast {
    /// At least the toast lifetime has passed since it was raised.
    pub open spec fn expired(self, now: Timestamp) -> bool {
        now.total_nanos() - self.at.total_nanos() >= TOAST_TTL_SECS * 1_000_000_000
    }

    pub fn is_expired(&self, now: Timestamp) -> (r: bool)
        ensures
            r == self.expired(now),
    {
        now.at_least_secs_after(self.at, TOAST_TTL_SECS)
    }
}

impl Clone for Toast {
    fn clone(&self) -> (r: Self)
        ensures
            r == *self,
    {
        Toast { text: self.text.clone(), severity: self.severity, at: self.at }
    }
}

/// What is covering the table, if anything.
#[derive(Debug, Clone, PartialEq, Eq)]
pub enum Modal {
    ActionMenu { target: Target, options: Vec<ActionKind>, cursor: usize },
    Confirm { action: ActionKind, target: Target, prompt: String },
    Help,
}

/// The whole of jikura's state. `update` is the only thing that mutates it,
/// and it performs no I/O -- it returns `Command`s for the runtime to run.
#[derive(Debug)]
pub struct App {
    pub tab: Tab,
    pub containers: ResourceList<Container>,
    pub images: ResourceList<Image>,
    /// Include stopped containers (the `-a` of `docker ps`).
    pub show_all: bool,
    pub engine: Option<EngineInfo>,
    pub modal: Option<Modal>,
    pub toasts: Vec<Toast>,
    /// Actions the engine has not answered yet, keyed by target so a row can
    /// show "stopping..." and refuse a second request.
    pub inflight: Inflight,
    pub should_quit: bool,
}

/// The row under a list's cursor.
pub open spec fn item_under_cursor<T>(l: ResourceList<T>) -> Option<T> {
    match l.selected {
        Some(i) => if i < l.items@.len() {
            Some(l.items@[i as int])
        } else {
            None
        },
        None => None,
    }
}

/// The container menu in its fixed order, before filtering by state.
pub open spec fn menu_order() -> Seq<ActionKind> {
    seq![
        ActionKind::Start,
        ActionKind::Stop,
        ActionKind::Restart,
        ActionKind::Pause,
        ActionKind::Unpause,
        ActionKind::Enter,
        ActionKind::Kill,
        ActionKind::RemoveContainer { force: false },
        ActionKind::RemoveContainer { force: true },
    ]
}

/// The menu for a container in state `s`: the fixed order, kept where `s` permits.
pub open spec fn container_menu(s: ContainerState) -> Seq<ActionKind> {
    menu_order().filter(|a: ActionKind| s.permits(a))
}

/// The menu for an image used by `containers` containers. The engine refuses a
/// plain removal while a container uses the image, so only force is offered then.
pub open spec fn image_menu(containers: Option<i64>) -> Seq<ActionKind> {
    if containers matches Some(n) && n > 0 {
        seq![ActionKind::RemoveImage { force: true }]
    } else {
        seq![ActionKind::RemoveImage { force: false }, ActionKind::RemoveImage { force: true }]
    }
}

/// `new` is `old` with one toast appended.
pub open spec fn adds_toast(
    old: Seq<Toast>,
    new: Seq<Toast>,
    text: Seq<char>,
    severity: Severity,
    at: Timestamp,
) -> bool {
    &&& new.len() == old.len() + 1
    &&& new.drop_last() == old
    &&& new.last().text@ == text
    &&& new.last().severity == severity
    &&& new.last().at == at
}

/// The menu cursor after a cursor key, when the menu has entries.
pub open spec fn moved_cursor(cursor: usize, len: nat, a: Action) -> usize {
    match a {
        Action::NextItem => ((cursor + 1) % (len as int)) as usize,
        Action::PrevItem => ((cursor + len - 1) % (len as int)) as usize,
        Action::First => 0,
        _ => (len - 1) as usize,
    }
}

impl App {
    /// The target under the cursor in the active tab.
    pub open spec fn target_under_cursor(self) -> Option<Target> {
        match self.tab {
            Tab::Containers => match item_under_cursor(self.containers) {
                Some(c) => Some(Target::Container(c.id)),
                None => None,
            },
            Tab::Images => match item_under_cursor(self.images) {
                Some(i) => Some(Target::Image(i.id)),
                None => None,
            },
        }
    }

    /// The actions offered for the row under the cursor.
    pub open spec fn offered(self) -> Seq<ActionKind> {
        match self.tab {
            Tab::Containers => match item_under_cursor(self.containers) {
                Some(c) => container_menu(c.state),
                None => seq![],
            },
            Tab::Images => match item_under_cursor(self.images) {
                Some(i) => image_menu(i.containers),
                None => seq![],
            },
        }
    }

    /// A human name for a target: the first listed row with its ID, or its
    /// short ID when no row has it any more.
    pub open spec fn label_text(self, t: TargetView) -> Seq<char> {
        match t {
            TargetView::Container(id) => if has_key(self.containers.items@, id) {
                display_name_text(
                    self.containers.items@[position_of_key(self.containers.items@, id)]@,
                )
            } else {
                prefix_within_bytes(id, SHORT_ID_BYTES as int)
            },
            TargetView::Image(id) => if has_key(self.images.items@, id) {
                name_label_text(self.images.items@[position_of_key(self.images.items@, id)]@)
            } else {
                prefix_within_bytes(id_hex(id), SHORT_ID_BYTES as int)
            },
        }
    }

    /// The command that reloads the active pane with the current filter.
    pub open spec fn reloads(self) -> Seq<Command> {
        match self.tab {
            Tab::Containers => seq![Command::LoadContainers { all: self.show_all }],
            Tab::Images => seq![Command::LoadImages { all: self.show_all }],
        }
    }

    /// Whether the active pane has never been loaded.
    pub open spec fn active_never_loaded(self) -> bool {
        match self.tab {
            Tab::Containers => self.containers.load is Never,
            Tab::Images => self.images.load is Never,
        }
    }

    /// Whether a listed running container has the ID of `t`.
    pub open spec fn can_enter(self, t: TargetView) -> bool {
        exists|j: int|
            0 <= j < self.containers.items@.len() && t == TargetView::Container(
                #[trigger] self.containers.items@[j].id@,
            ) && self.containers.items@[j].state == ContainerState::Running
    }

    /// The menu cursor leaves room for the cursor arithmetic.
    pub open spec fn cursor_in_bounds(self) -> bool {
        match self.modal {
            Some(Modal::ActionMenu { options, cursor, .. }) => cursor + options@.len()
                <= usize::MAX,
            _ => true,
        }
    }

    /// The app with the cursor of the active pane moved by `a`.
    pub open spec fn with_cursor_moved(self, a: Action) -> App {
        match self.tab {
            Tab::Containers => App {
                containers: ResourceList {
                    selected: moved_selection(self.containers.selected, self.containers.items@.len(), a),
                    ..self.containers
                },
                ..self
            },
            Tab::Images => App {
                images: ResourceList {
                    selected: moved_selection(self.images.selected, self.images.items@.len(), a),
                    ..self.images
                },
                ..self
            },
        }
    }
}

/// A list cursor after a cursor key.
pub open spec fn moved_selection(sel: Option<usize>, len: nat, a: Action) -> Option<usize> {
    match a {
        Action::NextItem => next_selection(sel, len),
        Action::PrevItem => previous_selection(sel, len),
        Action::First => if len == 0 {
            None
        } else {
            Some(0usize)
        },
        _ => if len == 0 {
            None
        } else {
            Some((len - 1) as usize)
        },
    }
}

/// Sending `action` on `target` from state `base`: refused with a warning when
/// entering a container that is not listed as running, otherwise recorded as
/// in flight and handed to the runtime.
pub open spec fn dispatch_outcome(
    base: App,
    new: App,
    action: ActionKind,
    target: Target,
    now: Timestamp,
    cmds: Seq<Command>,
) -> bool {
    if action == ActionKind::Enter && !base.can_enter(target@) {
        &&& cmds.len() == 0
        &&& new == App { toasts: new.toasts, ..base }
        &&& adds_toast(
            base.toasts@,
            new.toasts@,
            "Enter requires a running container"@,
            Severity::Warn,
            now,
        )
    } else {
        &&& cmds == seq![Command::Perform { action, target }]
        &&& new == App { inflight: new.inflight, ..base }
        &&& new.inflight@ == base.inflight@.insert(target@, action)
    }
}

/// Opening the action menu on the row under the cursor.
pub open spec fn open_menu_outcome(old: App, new: App, now: Timestamp, cmds: Seq<Command>) -> bool {
    &&& cmds.len() == 0
    &&& match old.target_under_cursor() {
        None => new == old,
        Some(t) => if old.inflight@.contains_key(t@) {
            &&& new == App { toasts: new.toasts, ..old }
            &&& adds_toast(
                old.toasts@,
                new.toasts@,
                "already "@ + old.inflight@[t@].participle_text() + " "@ + old.label_text(t@),
                Severity::Warn,
                now,
            )
        } else if old.offered().len() == 0 {
            &&& new == App { toasts: new.toasts, ..old }
            &&& adds_toast(
                old.toasts@,
                new.toasts@,
                "no actions available for "@ + old.label_text(t@),
                Severity::Neutral,
                now,
            )
        } else {
            &&& new == App { modal: new.modal, ..old }
            &&& new.modal matches Some(Modal::ActionMenu { target, options, cursor })
            &&& target == t
            &&& options@ == old.offered()
            &&& cursor == 0
        },
    }
}

/// Answering the open modal with Select.
pub open spec fn select_outcome(old: App, new: App, now: Timestamp, cmds: Seq<Command>) -> bool {
    let closed = App { modal: None, ..old };
    match old.modal {
        Some(Modal::ActionMenu { target, options, cursor }) => if cursor >= options@.len() {
            cmds.len() == 0 && new == closed
        } else {
            let chosen = options@[cursor as int];
            if chosen.destructive() {
                &&& cmds.len() == 0
                &&& new == App { modal: new.modal, ..old }
                &&& new.modal matches Some(Modal::Confirm { action, target: asked, prompt })
                &&& action == chosen
                &&& asked == target
                &&& prompt@ == chosen.label_text() + " "@ + old.label_text(target@) + "?"@
            } else {
                dispatch_outcome(closed, new, chosen, target, now, cmds)
            }
        },
        Some(Modal::Confirm { action, target, .. }) => dispatch_outcome(
            closed,
            new,
            action,
            target,
            now,
            cmds,
        ),
        _ => cmds.len() == 0 && new == closed,
    }
}

/// A key pressed while a modal is open.
pub open spec fn modal_action_outcome(
    old: App,
    new: App,
    a: Action,
    now: Timestamp,
    cmds: Seq<Command>,
) -> bool {
    match a {
        Action::Dismiss | Action::Quit | Action::ToggleHelp => cmds.len() == 0 && new == App {
            modal: None,
            ..old
        },
        Action::NextItem | Action::PrevItem | Action::First | Action::Last => {
            &&& cmds.len() == 0
            &&& match old.modal {
                Some(Modal::ActionMenu { target, options, cursor }) => if options@.len() > 0 {
                    &&& new == App { modal: new.modal, ..old }
                    &&& new.modal matches Some(
                        Modal::ActionMenu { target: t2, options: o2, cursor: c2 },
                    )
                    &&& t2 == target
                    &&& o2 == options
                    &&& c2 == moved_cursor(cursor, options@.len(), a)
                } else {
                    new == old
                },
                _ => new == old,
            }
        },
        Action::Select => select_outcome(old, new, now, cmds),
        _ => cmds.len() == 0 && new == old,
    }
}

/// A key pressed while nothing covers the table.
pub open spec fn table_action_outcome(
    old: App,
    new: App,
    a: Action,
    now: Timestamp,
    cmds: Seq<Command>,
) -> bool {
    match a {
        Action::NextItem | Action::PrevItem | Action::First | Action::Last => cmds.len() == 0
            && new == old.with_cursor_moved(a),
        Action::NextTab | Action::PrevTab => {
            let switched = App { tab: old.tab.other(), ..old };
            &&& new == switched
            &&& cmds == if switched.active_never_loaded() {
                switched.reloads()
            } else {
                seq![]
            }
        },
        Action::ToggleAll => {
            let toggled = App { show_all: !old.show_all, ..old };
            new == toggled && cmds == toggled.reloads()
        },
        Action::Refresh => new == old && cmds == old.reloads(),
        Action::OpenActionMenu | Action::Select => open_menu_outcome(old, new, now, cmds),
        Action::ToggleHelp => cmds.len() == 0 && new == App { modal: Some(Modal::Help), ..old },
        Action::Dismiss => cmds.len() == 0 && new == old,
        Action::Quit => cmds.len() == 0 && new == App { should_quit: true, ..old },
    }
}

/// A user action: the open modal, if any, takes it first.
pub open spec fn action_outcome(
    old: App,
    new: App,
    a: Action,
    now: Timestamp,
    cmds: Seq<Command>,
) -> bool {
    if old.modal is Some {
        modal_action_outcome(old, new, a, now, cmds)
    } else {
        table_action_outcome(old, new, a, now, cmds)
    }
}

/// The toast that reports a finished action.
pub open spec fn action_done_toast(
    action: ActionKind,
    name: Seq<char>,
    result: Result<(), EngineError>,
) -> (Seq<char>, Severity) {
    match result {
        Ok(()) => (action.label_text() + " "@ + name + ": done"@, Severity::Good),
        Err(err) => match err@ {
            EngineErrorView::NotModified => (name + " is already in that state"@, Severity::Neutral),
            _ => (action.label_text() + ": "@ + error_text(err@), Severity::Bad),
        },
    }
}

/// A background result arriving.
pub open spec fn engine_outcome(
    old: App,
    new: App,
    e: EngineEvent,
    now: Timestamp,
    cmds: Seq<Command>,
) -> bool {
    match e {
        EngineEvent::Info(Ok(info)) => cmds.len() == 0 && new == App { engine: Some(info), ..old },
        EngineEvent::Info(Err(err)) => {
            &&& cmds.len() == 0
            &&& new == App { toasts: new.toasts, ..old }
            &&& adds_toast(old.toasts@, new.toasts@, error_text(err@), Severity::Bad, now)
        },
        EngineEvent::Containers(Ok(items)) => {
            &&& cmds.len() == 0
            &&& new == App {
                containers: ResourceList {
                    items: items,
                    selected: selection_after_replace(
                        old.containers.items@,
                        old.containers.selected,
                        items@,
                    ),
                    load: LoadState::Loaded { at: now },
                },
                ..old
            }
        },
        EngineEvent::Containers(Err(err)) => {
            &&& cmds.len() == 0
            &&& new == App { containers: new.containers, toasts: new.toasts, ..old }
            &&& new.containers.items == old.containers.items
            &&& new.containers.selected == old.containers.selected
            &&& new.containers.load matches LoadState::Failed { message }
            &&& message@ == error_text(err@)
            &&& adds_toast(old.toasts@, new.toasts@, error_text(err@), Severity::Bad, now)
        },
        EngineEvent::Images(Ok(items)) => {
            &&& cmds.len() == 0
            &&& new == App {
                images: ResourceList {
                    items: items,
                    selected: selection_after_replace(
                        old.images.items@,
                        old.images.selected,
                        items@,
                    ),
                    load: LoadState::Loaded { at: now },
                },
                ..old
            }
        },
        EngineEvent::Images(Err(err)) => {
            &&& cmds.len() == 0
            &&& new == App { images: new.images, toasts: new.toasts, ..old }
            &&& new.images.items == old.images.items
            &&& new.images.selected == old.images.selected
            &&& new.images.load matches LoadState::Failed { message }
            &&& message@ == error_text(err@)
            &&& adds_toast(old.toasts@, new.toasts@, error_text(err@), Severity::Bad, now)
        },
        EngineEvent::ActionDone { action, target, result } => {
            let (text, severity) = action_done_toast(action, old.label_text(target@), result);
            &&& new == App { inflight: new.inflight, toasts: new.toasts, ..old }
            &&& new.inflight@ == old.inflight@.remove(target@)
            &&& adds_toast(old.toasts@, new.toasts@, text, severity, now)
            &&& cmds == if action is RemoveImage {
                seq![Command::LoadImages { all: old.show_all }]
            } else {
                seq![Command::LoadContainers { all: old.show_all }]
            }
        },
    }
}

/// The refresh interval elapsing: expired toasts go, the active pane reloads.
pub open spec fn tick_outcome(old: App, new: App, now: Timestamp, cmds: Seq<Command>) -> bool {
    &&& new == App { toasts: new.toasts, ..old }
    &&& new.toasts@ == old.toasts@.filter(|t: Toast| !t.expired(now))
    &&& cmds == old.reloads()
}

/// Everything `update` can do with a message.
pub open spec fn update_outcome(
    old: App,
    new: App,
    msg: Msg,
    now: Timestamp,
    cmds: Seq<Command>,
) -> bool {
    match msg {
        Msg::Tick => tick_outcome(old, new, now, cmds),
        Msg::Action(a) => action_outcome(old, new, a, now, cmds),
        Msg::Engine(e) => engine_outcome(old, new, e, now, cmds),
    }
}

impl App {
    pub fn new(show_all: bool) -> (r: App)
        ensures
            r.tab == Tab::Containers,
            r.containers.items@.len() == 0,
            r.containers.selected is None,
            r.containers.load is Never,
            r.images.items@.len() == 0,
            r.images.selected is None,
            r.images.load is Never,
            r.show_all == show_all,
            r.engine is None,
            r.modal is None,
            r.toasts@.len() == 0,
            r.inflight@ == Map::<TargetView, ActionKind>::empty(),
            !r.should_quit,
    {
        App {
            tab: Tab::Containers,
            containers: ResourceList::new(),
            images: ResourceList::new(),
            show_all,
            engine: None,
            modal: None,
            toasts: Vec::new(),
            inflight: Inflight::new(),
            should_quit: false,
        }
    }

    /// What to load before the first frame.
    pub fn startup(&self) -> (r: Vec<Command>)
        ensures
            r@ == seq![
                Command::LoadInfo,
                Command::LoadContainers { all: self.show_all },
                Command::LoadImages { all: self.show_all },
            ],
    {
        let r = vec![
            Command::LoadInfo,
            Command::LoadContainers { all: self.show_all },
            Command::LoadImages { all: self.show_all },
        ];
        assert(r@ =~= seq![
            Command::LoadInfo,
            Command::LoadContainers { all: self.show_all },
            Command::LoadImages { all: self.show_all },
        ]);
        r
    }

    /// The target under the cursor in the active tab.
    pub fn selected_target(&self) -> (r: Option<Target>)
        ensures
            r == self.target_under_cursor(),
    {
        match self.tab {
            Tab::Containers => match self.containers.selected_item() {
                Some(c) => Some(Target::Container(c.id.clone())),
                None => None,
            },
            Tab::Images => match self.images.selected_item() {
                Some(i) => Some(Target::Image(i.id.clone())),
                None => None,
            },
        }
    }

    /// Actions offered for the selected row, filtered by what its state
    /// permits. Menu order is fixed so muscle memory works; only membership varies.
    pub fn available_actions(&self) -> (r: Vec<ActionKind>)
        ensures
            r@ == self.offered(),
    {
        match self.tab {
            Tab::Containers => {
                let container = match self.containers.selected_item() {
                    Some(c) => c,
                    None => {
                        return Vec::new();
                    },
                };
                let order = vec![
                    ActionKind::Start,
                    ActionKind::Stop,
                    ActionKind::Restart,
                    ActionKind::Pause,
                    ActionKind::Unpause,
                    ActionKind::Enter,
                    ActionKind::Kill,
                    ActionKind::RemoveContainer { force: false },
                    ActionKind::RemoveContainer { force: true },
                ];
                assert(order@ =~= menu_order());
                let state = container.state;
                let ghost pred = |a: ActionKind| state.permits(a);
                let mut r: Vec<ActionKind> = Vec::new();
                let mut i: usize = 0;
                while i < order.len()
                    invariant
                        i <= order@.len(),
                        order@ == menu_order(),
                        pred == (|a: ActionKind| state.permits(a)),
                        r@ == order@.take(i as int).filter(pred),
                    decreases order@.len() - i,
                {
                    proof {
                        order@.take(i as int).lemma_filter_push(order@[i as int], pred);
                        assert(order@.take(i as int).push(order@[i as int]) =~= order@.take(
                            i + 1,
                        ));
                    }
                    if state.allows(order[i]) {
                        r.push(order[i]);
                    }
                    i = i + 1;
                }
                assert(order@.take(order@.len() as int) =~= order@);
                r
            },
            Tab::Images => {
                let image = match self.images.selected_item() {
                    Some(i) => i,
                    None => {
                        return Vec::new();
                    },
                };
                let in_use = match image.is_in_use() {
                    Some(b) => b,
                    None => false,
                };
                if in_use {
                    let r = vec![ActionKind::RemoveImage { force: true }];
                    assert(r@ =~= image_menu(image.containers));
                    r
                } else {
                    let r = vec![
                        ActionKind::RemoveImage { force: false },
                        ActionKind::RemoveImage { force: true },
                    ];
                    assert(r@ =~= image_menu(image.containers));
                    r
                }
            },
        }
    }

    /// Drops toasts that have been on screen for the toast lifetime.
    pub fn prune_toasts(&mut self, now: Timestamp)
        ensures
            *final(self) == (App { toasts: final(self).toasts, ..*old(self) }),
            final(self).toasts@ == old(self).toasts@.filter(|t: Toast| !t.expired(now)),
    {
        let ghost pred = |t: Toast| !t.expired(now);
        let mut kept: Vec<Toast> = Vec::new();
        let mut i: usize = 0;
        while i < self.toasts.len()
            invariant
                i <= self.toasts@.len(),
                pred == (|t: Toast| !t.expired(now)),
                kept@ == self.toasts@.take(i as int).filter(pred),
            decreases self.toasts@.len() - i,
        {
            proof {
                self.toasts@.take(i as int).lemma_filter_push(self.toasts@[i as int], pred);
                assert(self.toasts@.take(i as int).push(self.toasts@[i as int])
                    =~= self.toasts@.take(i + 1));
            }
            if !self.toasts[i].is_expired(now) {
                kept.push(self.toasts[i].clone());
            }
            i = i + 1;
        }
        assert(self.toasts@.take(self.toasts@.len() as int) =~= self.toasts@);
        self.toasts = kept;
    }

    /// Handles one message that arrived at the time `now`; `now` stamps any
    /// toast it raises and any load it records. The caller reads the clock.
    pub fn update(&mut self, msg: Msg, now: Timestamp) -> (cmds: Vec<Command>)
        requires
            old(self).cursor_in_bounds(),
        ensures
            update_outcome(*old(self), *final(self), msg, now, cmds@),
    {
        match msg {
            Msg::Tick => {
                self.prune_toasts(now);
                self.reload_active()
            },
            Msg::Action(action) => self.on_action(action, now),
            Msg::Engine(event) => self.on_engine(event, now),
        }
    }


    fn on_action(&mut self, action: Action, now: Timestamp) -> (cmds: Vec<Command>)
        requires
            old(self).cursor_in_bounds(),
        ensures
            action_outcome(*old(self), *final(self), action, now, cmds@),
    {
        if self.modal.is_some() {
            return self.on_action_in_modal(action, now);
        }
        match action {
            Action::NextItem => {
                match self.tab {
                    Tab::Containers => self.containers.select_next(),
                    Tab::Images => self.images.select_next(),
                }
                Vec::new()
            },
            Action::PrevItem => {
                match self.tab {
                    Tab::Containers => self.containers.select_previous(),
                    Tab::Images => self.images.select_previous(),
                }
                Vec::new()
            },
            Action::First => {
                match self.tab {
                    Tab::Containers => self.containers.select_first(),
                    Tab::Images => self.images.select_first(),
                }
                Vec::new()
            },
            Action::Last => {
                match self.tab {
                    Tab::Containers => self.containers.select_last(),
                    Tab::Images => self.images.select_last(),
                }
                Vec::new()
            },
            Action::NextTab | Action::PrevTab => {
                self.tab = self.tab.next();
                self.load_if_never()
            },
            Action::ToggleAll => {
                self.show_all = !self.show_all;
                self.reload_active()
            },
            Action::Refresh => self.reload_active(),
            Action::OpenActionMenu | Action::Select => self.open_action_menu(now),
            Action::ToggleHelp => {
                self.modal = Some(Modal::Help);
                Vec::new()
            },
            Action::Dismiss => Vec::new(),
            Action::Quit => {
                self.should_quit = true;
                Vec::new()
            },
        }
    }

    fn on_action_in_modal(&mut self, action: Action, now: Timestamp) -> (cmds: Vec<Command>)
        requires
            old(self).cursor_in_bounds(),
            old(self).modal is Some,
        ensures
            modal_action_outcome(*old(self), *final(self), action, now, cmds@),
    {
        match action {
            // Quit closes what is open first, so it never exits by surprise.
            Action::Dismiss | Action::Quit | Action::ToggleHelp => {
                self.modal = None;
                Vec::new()
            },
            Action::NextItem | Action::PrevItem | Action::First | Action::Last => {
                let modal = self.modal.take();
                match modal {
                    Some(Modal::ActionMenu { target, options, cursor }) => {
                        let len = options.len();
                        let cursor = if len > 0 {
                            match action {
                                Action::NextItem => (cursor + 1) % len,
                                Action::PrevItem => (cursor + len - 1) % len,
                                Action::First => 0,
                                _ => len - 1,
                            }
                        } else {
                            cursor
                        };
                        self.modal = Some(Modal::ActionMenu { target, options, cursor });
                    },
                    other => {
                        self.modal = other;
                    },
                }
                Vec::new()
            },
            Action::Select => self.activate_modal(now),
            _ => Vec::new(),
        }
    }

    fn activate_modal(&mut self, now: Timestamp) -> (cmds: Vec<Command>)
        ensures
            select_outcome(*old(self), *final(self), now, cmds@),
    {
        let modal = self.modal.take();
        match modal {
            Some(Modal::ActionMenu { target, options, cursor }) => {
                if cursor >= options.len() {
                    return Vec::new();
                }
                let chosen = options[cursor];
                if chosen.is_destructive() {
                    let mut prompt = owned(chosen.label());
                    prompt.append(" ");
                    let name = self.label_for(&target);
                    prompt.append(name.as_str());
                    prompt.append("?");
                    self.modal = Some(Modal::Confirm { action: chosen, target, prompt });
                    Vec::new()
                } else {
                    self.dispatch(chosen, target, now)
                }
            },
            Some(Modal::Confirm { action, target, .. }) => self.dispatch(action, target, now),
            _ => Vec::new(),
        }
    }

    fn dispatch(&mut self, action: ActionKind, target: Target, now: Timestamp) -> (cmds: Vec<
        Command,
    >)
        ensures
            dispatch_outcome(*old(self), *final(self), action, target, now, cmds@),
    {
        if action == ActionKind::Enter && !self.running_container_has(&target) {
            self.toast(owned("Enter requires a running container"), Severity::Warn, now);
            return Vec::new();
        }
        let recorded = target.clone();
        self.inflight.insert(recorded, action);
        let r = vec![Command::Perform { action, target }];
        assert(r@ =~= seq![Command::Perform { action, target }]);
        r
    }

    fn running_container_has(&self, target: &Target) -> (r: bool)
        ensures
            r == self.can_enter(target@),
    {
        let mut j: usize = 0;
        while j < self.containers.items.len()
            invariant
                j <= self.containers.items@.len(),
                forall|q: int|
                    0 <= q < j ==> !(target@ == TargetView::Container(
                        #[trigger] self.containers.items@[q].id@,
                    ) && self.containers.items@[q].state == ContainerState::Running),
            decreases self.containers.items@.len() - j,
        {
            let c = &self.containers.items[j];
            let same = match target {
                Target::Container(id) => c.id == *id,
                Target::Image(_) => false,
            };
            if same && c.state.is_running() {
                return true;
            }
            j = j + 1;
        }
        false
    }

    fn open_action_menu(&mut self, now: Timestamp) -> (cmds: Vec<Command>)
        ensures
            open_menu_outcome(*old(self), *final(self), now, cmds@),
    {
        let target = match self.selected_target() {
            Some(t) => t,
            None => {
                return Vec::new();
            },
        };
        match self.inflight.get(&target) {
            Some(busy) => {
                let mut text = owned("already ");
                text.append(busy.present_participle());
                text.append(" ");
                let name = self.label_for(&target);
                text.append(name.as_str());
                self.toast(text, Severity::Warn, now);
                return Vec::new();
            },
            None => {},
        }
        let options = self.available_actions();
        if options.len() == 0 {
            let mut text = owned("no actions available for ");
            let name = self.label_for(&target);
            text.append(name.as_str());
            self.toast(text, Severity::Neutral, now);
            return Vec::new();
        }
        self.modal = Some(Modal::ActionMenu { target, options, cursor: 0 });
        Vec::new()
    }

    fn on_engine(&mut self, event: EngineEvent, now: Timestamp) -> (cmds: Vec<Command>)
        ensures
            engine_outcome(*old(self), *final(self), event, now, cmds@),
    {
        match event {
            EngineEvent::Info(Ok(info)) => {
                self.engine = Some(info);
                Vec::new()
            },
            EngineEvent::Info(Err(err)) => {
                self.toast(err.to_string(), Severity::Bad, now);
                Vec::new()
            },
            EngineEvent::Containers(Ok(items)) => {
                self.containers.replace(items, now);
                Vec::new()
            },
            EngineEvent::Containers(Err(err)) => {
                self.containers.fail(err.to_string());
                self.toast(err.to_string(), Severity::Bad, now);
                Vec::new()
            },
            EngineEvent::Images(Ok(items)) => {
                self.images.replace(items, now);
                Vec::new()
            },
            EngineEvent::Images(Err(err)) => {
                self.images.fail(err.to_string());
                self.toast(err.to_string(), Severity::Bad, now);
                Vec::new()
            },
            EngineEvent::ActionDone { action, target, result } => {
                self.inflight.remove(&target);
                let name = self.label_for(&target);
                match result {
                    Ok(()) => {
                        let mut text = owned(action.label());
                        text.append(" ");
                        text.append(name.as_str());
                        text.append(": done");
                        self.toast(text, Severity::Good, now);
                    },
                    // 304: the engine considers the request already satisfied.
                    Err(EngineError::NotModified) => {
                        let mut text = name;
                        text.append(" is already in that state");
                        self.toast(text, Severity::Neutral, now);
                    },
                    Err(err) => {
                        let mut text = owned(action.label());
                        text.append(": ");
                        let detail = err.to_string();
                        text.append(detail.as_str());
                        self.toast(text, Severity::Bad, now);
                    },
                }
                // Reload regardless: a failure often means the state moved anyway.
                if action.targets_image() {
                    let r = vec![Command::LoadImages { all: self.show_all }];
                    assert(r@ =~= seq![Command::LoadImages { all: self.show_all }]);
                    r
                } else {
                    let r = vec![Command::LoadContainers { all: self.show_all }];
                    assert(r@ =~= seq![Command::LoadContainers { all: self.show_all }]);
                    r
                }
            },
        }
    }

    fn reload_active(&self) -> (cmds: Vec<Command>)
        ensures
            cmds@ == self.reloads(),
    {
        let r = match self.tab {
            Tab::Containers => vec![Command::LoadContainers { all: self.show_all }],
            Tab::Images => vec![Command::LoadImages { all: self.show_all }],
        };
        assert(r@ =~= self.reloads());
        r
    }

    /// Loads a pane the first time it is looked at, and not again.
    fn load_if_never(&self) -> (cmds: Vec<Command>)
        ensures
            cmds@ == if self.active_never_loaded() {
                self.reloads()
            } else {
                seq![]
            },
    {
        let never = match self.tab {
            Tab::Containers => match self.containers.load {
                LoadState::Never => true,
                _ => false,
            },
            Tab::Images => match self.images.load {
                LoadState::Never => true,
                _ => false,
            },
        };
        if never {
            self.reload_active()
        } else {
            let r = Vec::new();
            assert(r@ =~= Seq::<Command>::empty());
            r
        }
    }

    /// A human name for a target, falling back to its short ID if the row has
    /// since disappeared from the list.
    pub fn label_for(&self, target: &Target) -> (r: String)
        ensures
            r@ == self.label_text(target@),
    {
        match target {
            Target::Container(id) => {
                let mut j: usize = 0;
                while j < self.containers.items.len()
                    invariant
                        j <= self.containers.items@.len(),
                        target@ == TargetView::Container(id@),
                        forall|q: int|
                            0 <= q < j ==> #[trigger] self.containers.items@[q].id@ != id@,
                    decreases self.containers.items@.len() - j,
                {
                    if self.containers.items[j].id == *id {
                        proof {
                            assert forall|q: int| 0 <= q < j implies #[trigger] self.containers.items@[q].key() != id@ by {
                                assert(self.containers.items@[q].id@ != id@);
                            }
                            assert(is_first_with_key(self.containers.items@, id@, j as int));
                            lemma_position_is(self.containers.items@, id@, j as int);
                        }
                        let r = owned(self.containers.items[j].display_name());
                        assert(r@ == display_name_text(self.containers.items@[j as int]@));
                        assert(has_key(self.containers.items@, id@));
                        assert(position_of_key(self.containers.items@, id@) == j);
                        assert(target@ == TargetView::Container(id@));
                        return r;
                    }
                    j = j + 1;
                }
                owned(id.short())
            },
            Target::Image(id) => {
                let mut j: usize = 0;
                while j < self.images.items.len()
                    invariant
                        j <= self.images.items@.len(),
                        target@ == TargetView::Image(id@),
                        forall|q: int| 0 <= q < j ==> #[trigger] self.images.items@[q].id@ != id@,
                    decreases self.images.items@.len() - j,
                {
                    if self.images.items[j].id == *id {
                        proof {
                            assert forall|q: int| 0 <= q < j implies #[trigger] self.images.items@[q].key() != id@ by {
                                assert(self.images.items@[q].id@ != id@);
                            }
                            assert(is_first_with_key(self.images.items@, id@, j as int));
                            lemma_position_is(self.images.items@, id@, j as int);
                        }
                        let r = self.images.items[j].name_label();
                        assert(r@ == name_label_text(self.images.items@[j as int]@));
                        assert(target@ == TargetView::Image(id@));
                        return r;
                    }
                    j = j + 1;
                }
                owned(id.short())
            },
        }
    }

    fn toast(&mut self, text: String, severity: Severity, now: Timestamp)
        ensures
            *final(self) == (App { toasts: final(self).toasts, ..*old(self) }),
            adds_toast(old(self).toasts@, final(self).toasts@, text@, severity, now),
    {
        let ghost before = self.toasts@;
        self.toasts.push(Toast { text, severity, at: now });
        assert(self.toasts@.drop_last() =~= before);
    }
}

} // verus!
