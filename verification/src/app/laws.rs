//! What holds of every step of the application, whatever the message.
use vstd::prelude::*;

use super::message::{Action, Command, EngineEvent, Msg};
use super::state::{
    action_outcome, adds_toast, dispatch_outcome, engine_outcome, modal_action_outcome,
    moved_cursor, open_menu_outcome, select_outcome, table_action_outcome, tick_outcome,
    update_outcome, App, Modal, Tab,
};
use super::list::{lemma_cursor_moves_stay_on_rows, lemma_replace_follows_the_item, ResourceList};
use crate::domain::{ActionKind, Timestamp};

verus! {

/// Every `Perform` command that `update` hands out is recorded as in flight
/// for its target, with its action: a row is marked busy before its request
/// leaves.
pub proof fn lemma_performed_actions_are_in_flight(
    old: App,
    new: App,
    msg: Msg,
    now: Timestamp,
    cmds: Seq<Command>,
)
    requires
        update_outcome(old, new, msg, now, cmds),
    ensures
        forall|i: int|
            0 <= i < cmds.len() ==> (#[trigger] cmds[i] matches Command::Perform { action, target }
                ==> new.inflight@.contains_key(target@) && new.inflight@[target@] == action),
{
}

/// Quit closes whatever is open first, so it never exits by surprise; with
/// nothing open it quits. Nothing else ever sets `should_quit`.
pub proof fn lemma_quit_only_bites_with_nothing_open(
    old: App,
    new: App,
    msg: Msg,
    now: Timestamp,
    cmds: Seq<Command>,
)
    requires
        update_outcome(old, new, msg, now, cmds),
    ensures
        (msg matches Msg::Action(a) && a == Action::Quit && old.modal is Some) ==> (new.modal is None
            && new.should_quit == old.should_quit),
        (msg matches Msg::Action(a) && a == Action::Quit && old.modal is None) ==> new.should_quit,
        new.should_quit != old.should_quit ==> (msg matches Msg::Action(a) && a == Action::Quit
            && old.modal is None),
{
}

/// Choosing a destructive action in the menu sends nothing and records
/// nothing: it asks for confirmation first.
pub proof fn lemma_destructive_actions_ask_first(
    old: App,
    new: App,
    now: Timestamp,
    cmds: Seq<Command>,
)
    requires
        update_outcome(old, new, Msg::Action(Action::Select), now, cmds),
        old.modal matches Some(Modal::ActionMenu { options, cursor, .. }) && cursor < options@.len()
            && options@[cursor as int].destructive(),
    ensures
        cmds.len() == 0,
        new.inflight == old.inflight,
        old.modal matches Some(Modal::ActionMenu { options, cursor, .. }) && new.modal matches Some(
            Modal::Confirm { action, .. },
        ) && action == options@[cursor as int],
{
}

/// A row with an action in flight refuses a second one: opening its menu
/// sends nothing, opens nothing, and explains why with a warning.
pub proof fn lemma_busy_rows_refuse_a_second_action(
    old: App,
    new: App,
    a: Action,
    now: Timestamp,
    cmds: Seq<Command>,
)
    requires
        update_outcome(old, new, Msg::Action(a), now, cmds),
        a == Action::OpenActionMenu || a == Action::Select,
        old.modal is None,
        old.target_under_cursor() matches Some(t) && old.inflight@.contains_key(t@),
    ensures
        cmds.len() == 0,
        new.modal is None,
        new.inflight == old.inflight,
        new.toasts@.len() == old.toasts@.len() + 1,
        new.toasts@.last().severity == crate::domain::Severity::Warn,
{
}

/// A finished action clears its target's in-flight marker and always reloads
/// exactly the pane it acted on, whether it succeeded or not.
pub proof fn lemma_finished_actions_clear_and_reload(
    old: App,
    new: App,
    action: ActionKind,
    target: crate::domain::Target,
    result: Result<(), crate::engine::EngineError>,
    now: Timestamp,
    cmds: Seq<Command>,
)
    requires
        update_outcome(
            old,
            new,
            Msg::Engine(EngineEvent::ActionDone { action, target, result }),
            now,
            cmds,
        ),
    ensures
        !new.inflight@.contains_key(target@),
        cmds.len() == 1,
        cmds[0] == if action is RemoveImage {
            Command::LoadImages { all: old.show_all }
        } else {
            Command::LoadContainers { all: old.show_all }
        },
        new.toasts@.len() == old.toasts@.len() + 1,
{
}

/// A failed refresh keeps the rows and the cursor on screen.
pub proof fn lemma_failed_loads_keep_the_rows(
    old: App,
    new: App,
    e: EngineEvent,
    now: Timestamp,
    cmds: Seq<Command>,
)
    requires
        update_outcome(old, new, Msg::Engine(e), now, cmds),
    ensures
        (e matches EngineEvent::Containers(r) && r is Err) ==> (new.containers.items
            == old.containers.items && new.containers.selected == old.containers.selected
            && new.containers.load is Failed),
        (e matches EngineEvent::Images(r) && r is Err) ==> (new.images.items == old.images.items
            && new.images.selected == old.images.selected && new.images.load is Failed),
{
}

/// The menu cursor keys keep the cursor on an entry of the menu.
pub proof fn lemma_menu_cursor_stays_in_the_menu(cursor: usize, len: nat, a: Action)
    requires
        0 < len,
        cursor < len,
        cursor + len <= usize::MAX,
        a == Action::NextItem || a == Action::PrevItem || a == Action::First || a == Action::Last,
    ensures
        moved_cursor(cursor, len, a) < len,
{
    let l = len as int;
    if a == Action::NextItem {
        assert(((cursor + 1) % l) < l) by (nonlinear_arith)
            requires
                l > 0,
        ;
    } else if a == Action::PrevItem {
        assert(((cursor + l - 1) % l) < l) by (nonlinear_arith)
            requires
                l > 0,
        ;
    }
}

/// Nothing but an answered or chosen action touches the in-flight markers:
/// ticks, loads and cursor moves leave them as they were.
pub proof fn lemma_in_flight_changes_only_by_dispatch_or_reply(
    old: App,
    new: App,
    msg: Msg,
    now: Timestamp,
    cmds: Seq<Command>,
)
    requires
        update_outcome(old, new, msg, now, cmds),
        !(msg matches Msg::Action(a) && a == Action::Select),
        !(msg is Engine && msg->Engine_0 is ActionDone),
    ensures
        new.inflight == old.inflight,
{
}

/// An open action menu has its cursor on one of its entries.
pub open spec fn menu_cursor_on_an_entry(app: App) -> bool {
    app.modal matches Some(Modal::ActionMenu { options, cursor, .. }) ==> cursor < options@.len()
}

/// Every update keeps an open action menu's cursor on one of its entries:
/// the menu opens on its first entry (and never empty), the cursor keys move
/// within it, and nothing else changes it.
pub proof fn lemma_menu_cursor_stays_on_an_entry(
    old: App,
    new: App,
    msg: Msg,
    now: Timestamp,
    cmds: Seq<Command>,
)
    requires
        update_outcome(old, new, msg, now, cmds),
        old.cursor_in_bounds(),
        menu_cursor_on_an_entry(old),
    ensures
        menu_cursor_on_an_entry(new),
{
    if let Msg::Action(a) = msg {
        if old.modal is Some {
            if let Some(Modal::ActionMenu { options, cursor, .. }) = old.modal {
                if (a == Action::NextItem || a == Action::PrevItem || a == Action::First || a
                    == Action::Last) && options@.len() > 0 {
                    lemma_menu_cursor_stays_in_the_menu(cursor, options@.len(), a);
                }
            }
        }
    }
}

/// A pane's cursor is on one of its rows, and only an empty pane has none.
pub open spec fn cursor_on_a_row<T>(l: ResourceList<T>) -> bool {
    match l.selected {
        Some(i) => i < l.items@.len(),
        None => l.items@.len() == 0,
    }
}

/// Every update keeps each pane's cursor on one of its rows, with no cursor
/// only in an empty pane: loads place it, failed loads keep it, and the
/// cursor keys move it within the rows.
pub proof fn lemma_pane_cursors_stay_on_rows(
    old: App,
    new: App,
    msg: Msg,
    now: Timestamp,
    cmds: Seq<Command>,
)
    requires
        update_outcome(old, new, msg, now, cmds),
        cursor_on_a_row(old.containers),
        cursor_on_a_row(old.images),
    ensures
        cursor_on_a_row(new.containers),
        cursor_on_a_row(new.images),
{
    // A vector's length fits in `usize`.
    assert(old.containers.items@.len() == old.containers.items.len());
    assert(old.images.items@.len() == old.images.items.len());
    if old.containers.items@.len() > 0 {
        lemma_cursor_moves_stay_on_rows(old.containers.selected, old.containers.items@.len());
    }
    if old.images.items@.len() > 0 {
        lemma_cursor_moves_stay_on_rows(old.images.selected, old.images.items@.len());
    }
    match msg {
        Msg::Engine(EngineEvent::Containers(Ok(items))) => {
            assert(items@.len() == items.len());
            lemma_replace_follows_the_item(old.containers.items@, old.containers.selected, items@);
        },
        Msg::Engine(EngineEvent::Images(Ok(items))) => {
            assert(items@.len() == items.len());
            lemma_replace_follows_the_item(old.images.items@, old.images.selected, items@);
        },
        _ => {},
    }
}

/// Choosing the highlighted menu entry (`Select` while the action menu is
/// open). A destructive one (`is_destructive`: a removal) sends nothing,
/// leaves the in-flight markers alone and asks `"<label> <target>?"`, with the
/// action's `label` and the target's `label_for`. Any other closes the menu
/// and is dispatched: sent as one `Perform` and marked in flight -- except
/// entering a container that is not listed as running, which is refused and
/// sends and marks nothing.
pub proof fn lemma_choosing_from_the_menu(old: App, new: App, now: Timestamp, cmds: Seq<Command>)
    requires
        update_outcome(old, new, Msg::Action(Action::Select), now, cmds),
        old.modal matches Some(Modal::ActionMenu { options, cursor, .. }) && cursor < options@.len(),
    ensures
        old.modal matches Some(Modal::ActionMenu { target, options, cursor }) && {
            let chosen = options@[cursor as int];
            if chosen.destructive() {
                &&& cmds.len() == 0
                &&& new.inflight == old.inflight
                &&& new.modal matches Some(Modal::Confirm { action, target: asked, prompt })
                &&& action == chosen
                &&& asked == target
                &&& prompt@ == chosen.label_text() + " "@ + old.label_text(target@) + "?"@
            } else if chosen == ActionKind::Enter && !old.can_enter(target@) {
                &&& new.modal is None
                &&& cmds.len() == 0
                &&& new.inflight == old.inflight
            } else {
                &&& new.modal is None
                &&& cmds == seq![Command::Perform { action: chosen, target }]
                &&& new.inflight@ == old.inflight@.insert(target@, chosen)
            }
        },
{
}

/// The cursor of the pane shown.
pub open spec fn shown_cursor(app: App) -> Option<usize> {
    match app.tab {
        Tab::Containers => app.containers.selected,
        Tab::Images => app.images.selected,
    }
}

/// How many rows the pane shown has.
pub open spec fn shown_rows(app: App) -> nat {
    match app.tab {
        Tab::Containers => app.containers.items@.len(),
        Tab::Images => app.images.items@.len(),
    }
}

/// The cursor keys on the table, with nothing open: `g` (First) puts the
/// cursor on the first row and `G` (Last) on the last; `j` (NextItem) moves to
/// the next row, from the last row (or from nowhere) to the first; `k`
/// (PrevItem) moves to the previous row, from the first row (or from nowhere)
/// to the last. In an empty pane `g` and `G` leave no cursor and `j`/`k` change
/// nothing. Nothing is sent, the rows stay as they were, and only the pane
/// shown moves.
pub proof fn lemma_cursor_keys_on_the_table(
    old: App,
    new: App,
    a: Action,
    now: Timestamp,
    cmds: Seq<Command>,
)
    requires
        update_outcome(old, new, Msg::Action(a), now, cmds),
        old.modal is None,
        a == Action::First || a == Action::Last || a == Action::NextItem || a == Action::PrevItem,
    ensures
        cmds.len() == 0,
        new.tab == old.tab,
        new.containers.items == old.containers.items,
        new.images.items == old.images.items,
        old.tab == Tab::Containers ==> new.images.selected == old.images.selected,
        old.tab == Tab::Images ==> new.containers.selected == old.containers.selected,
        ({
            let len = shown_rows(old);
            let sel = shown_cursor(old);
            let moved = shown_cursor(new);
            &&& len == 0 && (a == Action::First || a == Action::Last) ==> moved is None
            &&& len == 0 && (a == Action::NextItem || a == Action::PrevItem) ==> moved == sel
            &&& len > 0 && a == Action::First ==> moved == Some(0usize)
            &&& len > 0 && a == Action::Last ==> moved == Some((len - 1) as usize)
            &&& len > 0 && a == Action::NextItem ==> moved == match sel {
                Some(i) => if i + 1 < len {
                    Some((i + 1) as usize)
                } else {
                    Some(0usize)
                },
                None => Some(0usize),
            }
            &&& len > 0 && a == Action::PrevItem ==> moved == match sel {
                Some(i) => if i == 0 {
                    Some((len - 1) as usize)
                } else {
                    Some((i - 1) as usize)
                },
                None => Some((len - 1) as usize),
            }
        }),
{
}

} // verus!
