//! The text of each part of the screen, worked out from the app state. The
//! drawing code lays these out; it decides nothing about what they say.
use vstd::prelude::*;
use vstd::string::*;

use crate::app::{App, LoadState, Tab};
use crate::domain::container::{display_name_text, image_label_text, ports_text, ContainerView};
use crate::domain::ids::{id_hex, SHORT_ID_BYTES};
use crate::domain::image::{name_label_text, ref_text, ImageView};
use crate::domain::time::{calendar_date, chrono_represents, utc_calendar_date};
use crate::domain::{
    ActionKind, ByteSize, Severity, Target, TargetView, Timestamp,
};
use crate::engine::EngineInfo;
use crate::text::{decimal, decimal_text, owned, prefix_within_bytes, signed_decimal, signed_decimal_text};

verus! {

/// Shown in the footer when there is nothing more urgent to say.
pub open spec fn key_hints_text() -> Seq<char> {
    "j/k move | tab switch pane | x actions | a all | r refresh | ? help | q quit"@
}

/// The footer's standing text: the key bindings in one line.
pub fn key_hints() -> (r: &'static str)
    ensures
        r@ == key_hints_text(),
{
    "j/k move | tab switch pane | x actions | a all | r refresh | ? help | q quit"
}

/// The header's engine banner.
pub open spec fn banner_text(engine: Option<EngineInfo>) -> Seq<char> {
    match engine {
        Some(info) => info.flavor.text() + " "@ + info.version@ + " (API "@ + info.api_version@
            + ")"@,
        None => "connecting..."@,
    }
}

/// Names the engine that answered -- docker and podman are easy to confuse
/// when one socket is bind-mounted at the other's path -- or says that no
/// answer has come yet.
pub fn banner(engine: &Option<EngineInfo>) -> (r: String)
    ensures
        r@ == banner_text(*engine),
{
    match engine {
        Some(info) => {
            let mut out = owned(info.flavor.as_str());
            out.append(" ");
            out.append(info.version.as_str());
            out.append(" (API ");
            out.append(info.api_version.as_str());
            out.append(")");
            out
        },
        None => owned("connecting..."),
    }
}

/// The container pane's title: how many rows, and which filter is on.
pub open spec fn containers_title_text(count: nat, show_all: bool) -> Seq<char> {
    " containers ("@ + decimal(count) + ", "@ + (if show_all {
        "all"@
    } else {
        "running"@
    }) + ") "@
}

/// The image pane's title: how many rows.
pub open spec fn images_title_text(count: nat) -> Seq<char> {
    " images ("@ + decimal(count) + ") "@
}

/// Title of the container pane.
pub fn containers_title(app: &App) -> (r: String)
    ensures
        r@ == containers_title_text(app.containers.items@.len(), app.show_all),
{
    let mut out = owned(" containers (");
    let count = decimal_text(app.containers.items.len() as u64);
    out.append(count.as_str());
    out.append(", ");
    if app.show_all {
        out.append("all");
    } else {
        out.append("running");
    }
    out.append(") ");
    out
}

/// Title of the image pane.
pub fn images_title(app: &App) -> (r: String)
    ensures
        r@ == images_title_text(app.images.items@.len()),
{
    let mut out = owned(" images (");
    let count = decimal_text(app.images.items.len() as u64);
    out.append(count.as_str());
    out.append(") ");
    out
}

/// The action in flight for `t`, if any.
pub open spec fn busy_with(app: App, t: TargetView) -> Option<ActionKind> {
    if app.inflight@.contains_key(t) {
        Some(app.inflight@[t])
    } else {
        None
    }
}

/// What a row in the middle of an action says in place of its state.
pub open spec fn busy_text(a: ActionKind) -> Seq<char> {
    a.participle_text() + "..."@
}

/// The cells of one container row.
#[derive(Debug)]
pub struct ContainerRow {
    pub name: String,
    pub image: String,
    pub state: String,
    /// The colour of the state cell.
    pub severity: Severity,
    pub status: String,
    pub ports: String,
}

/// The abstract value of a [`ContainerRow`].
pub struct ContainerRowView {
    pub name: Seq<char>,
    pub image: Seq<char>,
    pub state: Seq<char>,
    pub severity: Severity,
    pub status: Seq<char>,
    pub ports: Seq<char>,
}

impl View for ContainerRow {
    type V = ContainerRowView;

    open spec fn view(&self) -> ContainerRowView {
        ContainerRowView {
            name: self.name@,
            image: self.image@,
            state: self.state@,
            severity: self.severity,
            status: self.status@,
            ports: self.ports@,
        }
    }
}

/// The row a container shows. A row mid-action says what it is doing rather
/// than a stale state.
pub open spec fn container_row_of(c: ContainerView, busy: Option<ActionKind>) -> ContainerRowView {
    ContainerRowView {
        name: display_name_text(c),
        image: image_label_text(c.image),
        state: match busy {
            Some(a) => busy_text(a),
            None => c.state.text(),
        },
        severity: match busy {
            Some(_) => Severity::Warn,
            None => c.state.severity_of(),
        },
        status: c.status_text,
        ports: ports_text(c.ports),
    }
}

fn busy_cell(action: &ActionKind) -> (r: String)
    ensures
        r@ == busy_text(*action),
{
    let mut out = owned(action.present_participle());
    out.append("...");
    out
}

/// The rows of the container pane, one per listed container, in list order.
pub fn container_rows(app: &App) -> (r: Vec<ContainerRow>)
    ensures
        r@.len() == app.containers.items@.len(),
        forall|i: int|
            0 <= i < r@.len() ==> #[trigger] r@[i]@ == container_row_of(
                app.containers.items@[i]@,
                busy_with(*app, TargetView::Container(app.containers.items@[i].id@)),
            ),
{
    let mut rows: Vec<ContainerRow> = Vec::new();
    let mut i: usize = 0;
    while i < app.containers.items.len()
        invariant
            i <= app.containers.items@.len(),
            rows@.len() == i,
            forall|j: int|
                0 <= j < i ==> #[trigger] rows@[j]@ == container_row_of(
                    app.containers.items@[j]@,
                    busy_with(*app, TargetView::Container(app.containers.items@[j].id@)),
                ),
        decreases app.containers.items@.len() - i,
    {
        let c = &app.containers.items[i];
        let target = Target::Container(c.id.clone());
        let (state, severity) = match app.inflight.get(&target) {
            Some(action) => (busy_cell(action), Severity::Warn),
            None => (owned(c.state.as_str()), c.state.severity()),
        };
        let row = ContainerRow {
            name: owned(c.display_name()),
            image: owned(c.image_label()),
            state,
            severity,
            status: c.status_text.clone(),
            ports: c.ports_summary(),
        };
        rows.push(row);
        i = i + 1;
    }
    rows
}

/// The cells of one image row. The size is kept as a value: how it reads is
/// decimal rounding done where the table is drawn.
#[derive(Debug)]
pub struct ImageRow {
    pub name: String,
    pub id: String,
    pub size: ByteSize,
    pub created: String,
    pub used_by: String,
    pub status: String,
}

/// The abstract value of an [`ImageRow`].
pub struct ImageRowView {
    pub name: Seq<char>,
    pub id: Seq<char>,
    pub size: ByteSize,
    pub created: Seq<char>,
    pub used_by: Seq<char>,
    pub status: Seq<char>,
}

impl View for ImageRow {
    type V = ImageRowView;

    open spec fn view(&self) -> ImageRowView {
        ImageRowView {
            name: self.name@,
            id: self.id@,
            size: self.size,
            created: self.created@,
            used_by: self.used_by@,
            status: self.status@,
        }
    }
}

/// The name cell: the primary tag, and how many more tags there are.
pub open spec fn image_name_cell(i: ImageView) -> Seq<char> {
    if i.repo_tags.len() > 1 {
        name_label_text(i) + " (+"@ + decimal((i.repo_tags.len() - 1) as nat) + ")"@
    } else {
        name_label_text(i)
    }
}

/// The CREATED cell: the UTC calendar date, or nothing for an instant chrono
/// cannot represent.
pub open spec fn created_cell(t: Timestamp) -> Seq<char> {
    if t.nanos < 1_000_000_000 && chrono_represents(t.secs) {
        utc_calendar_date(t.secs, t.nanos)
    } else {
        ""@
    }
}

fn created_text(t: Timestamp) -> (r: String)
    ensures
        r@ == created_cell(t),
{
    if t.nanos < 1_000_000_000 {
        match calendar_date(t.secs, t.nanos) {
            Some(text) => text,
            None => owned(""),
        }
    } else {
        owned("")
    }
}

/// The row an image shows.
pub open spec fn image_row_of(i: ImageView, busy: Option<ActionKind>) -> ImageRowView {
    ImageRowView {
        name: image_name_cell(i),
        id: prefix_within_bytes(id_hex(i.id), SHORT_ID_BYTES as int),
        size: i.size,
        created: created_cell(i.created),
        used_by: match i.containers {
            Some(count) => signed_decimal(count as int),
            None => "-"@,
        },
        status: match busy {
            Some(a) => busy_text(a),
            None => if i.repo_tags.len() == 0 {
                "dangling"@
            } else {
                ""@
            },
        },
    }
}

/// The rows of the image pane, one per listed image, in list order.
pub fn image_rows(app: &App) -> (r: Vec<ImageRow>)
    ensures
        r@.len() == app.images.items@.len(),
        forall|i: int|
            0 <= i < r@.len() ==> #[trigger] r@[i]@ == image_row_of(
                app.images.items@[i]@,
                busy_with(*app, TargetView::Image(app.images.items@[i].id@)),
            ),
{
    let mut rows: Vec<ImageRow> = Vec::new();
    let mut i: usize = 0;
    while i < app.images.items.len()
        invariant
            i <= app.images.items@.len(),
            rows@.len() == i,
            forall|j: int|
                0 <= j < i ==> #[trigger] rows@[j]@ == image_row_of(
                    app.images.items@[j]@,
                    busy_with(*app, TargetView::Image(app.images.items@[j].id@)),
                ),
        decreases app.images.items@.len() - i,
    {
        let img = &app.images.items[i];
        let target = Target::Image(img.id.clone());
        let mut name = img.name_label();
        let extra = img.extra_tag_count();
        if extra > 0 {
            name.append(" (+");
            let count = decimal_text(extra as u64);
            name.append(count.as_str());
            name.append(")");
        }
        let used_by = match img.containers {
            Some(count) => signed_decimal_text(count),
            None => owned("-"),
        };
        let status = match app.inflight.get(&target) {
            Some(action) => busy_cell(action),
            None => if img.is_dangling() {
                owned("dangling")
            } else {
                owned("")
            },
        };
        let row = ImageRow {
            name,
            id: owned(img.id.short()),
            size: img.size,
            created: created_text(img.created),
            used_by,
            status,
        };
        rows.push(row);
        i = i + 1;
    }
    rows
}

/// What the footer says, and in which colour (`None`: dimmed).
#[derive(Debug)]
pub struct Footer {
    pub text: String,
    pub severity: Option<Severity>,
}

/// The footer: the latest message wins, then a standing load failure of the
/// active pane, then the key hints.
pub open spec fn footer_of(app: App) -> (Seq<char>, Option<Severity>) {
    let load = match app.tab {
        Tab::Containers => app.containers.load,
        Tab::Images => app.images.load,
    };
    if app.toasts@.len() > 0 {
        (app.toasts@.last().text@, Some(app.toasts@.last().severity))
    } else {
        match load {
            LoadState::Failed { message } => (message@, Some(Severity::Bad)),
            _ => (key_hints_text(), None),
        }
    }
}

/// The footer line.
pub fn footer(app: &App) -> (r: Footer)
    ensures
        (r.text@, r.severity) == footer_of(*app),
{
    let load = match app.tab {
        Tab::Containers => &app.containers.load,
        Tab::Images => &app.images.load,
    };
    let n = app.toasts.len();
    if n > 0 {
        let toast = &app.toasts[n - 1];
        Footer { text: toast.text.clone(), severity: Some(toast.severity) }
    } else {
        match load {
            LoadState::Failed { message } => Footer {
                text: message.clone(),
                severity: Some(Severity::Bad),
            },
            _ => Footer { text: owned(key_hints()), severity: None },
        }
    }
}

/// One line of the action menu: the cursor mark, then the action's label.
pub open spec fn menu_line(a: ActionKind, at_cursor: bool) -> Seq<char> {
    (if at_cursor {
        ">"@
    } else {
        " "@
    }) + " "@ + a.label_text()
}

/// The lines of the action menu, one per option, the one under the cursor
/// marked.
pub fn menu_lines(options: &Vec<ActionKind>, cursor: usize) -> (r: Vec<String>)
    ensures
        r@.len() == options@.len(),
        forall|i: int| 0 <= i < r@.len() ==> #[trigger] r@[i]@ == menu_line(options@[i], i == cursor),
{
    let mut lines: Vec<String> = Vec::new();
    let mut i: usize = 0;
    while i < options.len()
        invariant
            i <= options@.len(),
            lines@.len() == i,
            forall|j: int|
                0 <= j < i ==> #[trigger] lines@[j]@ == menu_line(options@[j], j == cursor),
        decreases options@.len() - i,
    {
        let mut line = if i == cursor {
            owned(">")
        } else {
            owned(" ")
        };
        line.append(" ");
        line.append(options[i].label());
        lines.push(line);
        i = i + 1;
    }
    lines
}

/// The action menu's title: the target it acts on.
pub fn menu_title(app: &App, target: &Target) -> (r: String)
    ensures
        r@ == " "@ + app.label_text(target@) + " "@,
{
    let mut out = owned(" ");
    let label = app.label_for(target);
    out.append(label.as_str());
    out.append(" ");
    out
}

/// What an empty pane says, so that it reads as empty rather than broken.
pub open spec fn empty_note_text(tab: Tab) -> Seq<char> {
    match tab {
        Tab::Containers => "no containers"@,
        Tab::Images => "no images"@,
    }
}

/// The note shown in place of the table of an empty pane.
pub fn empty_note(tab: Tab) -> (r: &'static str)
    ensures
        r@ == empty_note_text(tab),
{
    match tab {
        Tab::Containers => "no containers",
        Tab::Images => "no images",
    }
}

/// How to answer a confirmation.
pub fn confirm_keys() -> (r: &'static str)
    ensures
        r@ == "enter = yes    esc = no"@,
{
    "enter = yes    esc = no"
}

/// The help text: one line per binding.
pub open spec fn help_text() -> Seq<Seq<char>> {
    seq![
        "j / down      move down"@,
        "k / up        move up"@,
        "g / G         first / last row"@,
        "tab           switch pane"@,
        "x / enter     actions for the row"@,
        "a             show all (stopped too)"@,
        "r             refresh now"@,
        "esc           close"@,
        "q / ctrl-c    quit"@,
    ]
}

/// The lines of the help popup.
pub fn help_lines() -> (r: Vec<&'static str>)
    ensures
        r@.len() == help_text().len(),
        forall|i: int| 0 <= i < r@.len() ==> #[trigger] r@[i]@ == help_text()[i],
{
    let r = vec![
        "j / down      move down",
        "k / up        move up",
        "g / G         first / last row",
        "tab           switch pane",
        "x / enter     actions for the row",
        "a             show all (stopped too)",
        "r             refresh now",
        "esc           close",
        "q / ctrl-c    quit",
    ];
    r
}

/// An image's name cell hints at its other tags: with two or more tags it is
/// the first tag followed by ` (+n)`, `n` counting the other tags; with one tag
/// it is that tag; with none it is `<none>`. Every other cell is unaffected by
/// how many tags there are.
pub proof fn lemma_name_cell_counts_the_other_tags(i: ImageView, busy: Option<ActionKind>)
    ensures
        i.repo_tags.len() >= 2 ==> image_row_of(i, busy).name == ref_text(i.repo_tags[0])
            + " (+"@ + decimal((i.repo_tags.len() - 1) as nat) + ")"@,
        i.repo_tags.len() == 1 ==> image_row_of(i, busy).name == ref_text(i.repo_tags[0]),
        i.repo_tags.len() == 0 ==> image_row_of(i, busy).name == "<none>"@,
{
}

} // verus!
