use vstd::prelude::*;
use vstd::string::*;
use vstd::utf8::*;

use super::ids::{id_hex, ContainerId, ImageId, SHORT_ID_BYTES};
use crate::text::prefix_within_bytes;

verus! {

/// The abstract value of a [`Target`]: which kind of object, and its full ID.
pub enum TargetView {
    Container(Seq<char>),
    Image(Seq<char>),
}

impl TargetView {
    /// The reference sent to the API: the full ID.
    pub open spec fn reference(self) -> Seq<char> {
        match self {
            TargetView::Container(id) => id,
            TargetView::Image(id) => id,
        }
    }

    /// The short form used in messages.
    pub open spec fn short_text(self) -> Seq<char> {
        match self {
            TargetView::Container(id) => prefix_within_bytes(id, SHORT_ID_BYTES as int),
            TargetView::Image(id) => prefix_within_bytes(id_hex(id), SHORT_ID_BYTES as int),
        }
    }
}

/// What an action acts on. Carries the full ID, never a name: names are not
/// unique and can change under us between a refresh and a keypress.
#[derive(Debug, Hash)]
pub enum Target {
    Container(ContainerId),
    Image(ImageId),
}

impl View for Target {
    type V = TargetView;

    open spec fn view(&self) -> TargetView {
        match self {
            Target::Container(id) => TargetView::Container(id@),
            Target::Image(id) => TargetView::Image(id@),
        }
    }
}

impl Target {
    /// The reference to send to the API.
    pub fn as_str(&self) -> (r: &str)
        ensures
            r@ == self@.reference(),
    {
        match self {
            Target::Container(id) => id.as_str(),
            Target::Image(id) => id.as_str(),
        }
    }

    /// Short form for messages.
    pub fn short(&self) -> (r: &str)
        ensures
            r@ == self@.short_text(),
    {
        match self {
            Target::Container(id) => id.short(),
            Target::Image(id) => id.short(),
        }
    }
}

impl Clone for Target {
    fn clone(&self) -> (r: Self)
        ensures
            r == *self,
    {
        match self {
            Target::Container(id) => Target::Container(id.clone()),
            Target::Image(id) => Target::Image(id.clone()),
        }
    }
}

impl PartialEq for Target {
    fn eq(&self, other: &Self) -> (r: bool) {
        match (self, other) {
            (Target::Container(a), Target::Container(b)) => a == b,
            (Target::Image(a), Target::Image(b)) => a == b,
            _ => false,
        }
    }
}

impl vstd::std_specs::cmp::PartialEqSpecImpl for Target {
    open spec fn obeys_eq_spec() -> bool {
        true
    }

    open spec fn eq_spec(&self, other: &Target) -> bool {
        self@ == other@
    }
}

impl Eq for Target {

}

/// An engine operation jikura can ask for. Lives in `domain` rather than `app`
/// because both the engine port and `ContainerState::allows` speak it.
#[derive(Debug, Clone, Copy, PartialEq, Eq, Hash, Structural)]
pub enum ActionKind {
    Start,
    Stop,
    Restart,
    Kill,
    Pause,
    Unpause,
    Enter,
    /// `force` also removes a running container (API: `?force=1`).
    RemoveContainer { force: bool },
    RemoveImage { force: bool },
}

/// Every action, in the canonical order used for test matrices and menus.
pub open spec fn all_action_kinds() -> Seq<ActionKind> {
    seq![
        ActionKind::Start,
        ActionKind::Stop,
        ActionKind::Restart,
        ActionKind::Kill,
        ActionKind::Pause,
        ActionKind::Unpause,
        ActionKind::Enter,
        ActionKind::RemoveContainer { force: false },
        ActionKind::RemoveContainer { force: true },
        ActionKind::RemoveImage { force: false },
        ActionKind::RemoveImage { force: true },
    ]
}

impl ActionKind {
    /// The menu label.
    pub open spec fn label_text(self) -> Seq<char> {
        match self {
            ActionKind::Start => "Start"@,
            ActionKind::Stop => "Stop"@,
            ActionKind::Restart => "Restart"@,
            ActionKind::Kill => "Kill"@,
            ActionKind::Pause => "Pause"@,
            ActionKind::Unpause => "Unpause"@,
            ActionKind::Enter => "Enter"@,
            ActionKind::RemoveContainer { force } | ActionKind::RemoveImage { force } => if force {
                "Remove (force)"@
            } else {
                "Remove"@
            },
        }
    }

    /// Whether the action loses data: the removals. These ask first.
    pub open spec fn destructive(self) -> bool {
        self is RemoveContainer || self is RemoveImage
    }

    /// The present participle for the in-flight indicator ("stopping...").
    pub open spec fn participle_text(self) -> Seq<char> {
        match self {
            ActionKind::Start => "starting"@,
            ActionKind::Stop => "stopping"@,
            ActionKind::Restart => "restarting"@,
            ActionKind::Kill => "killing"@,
            ActionKind::Pause => "pausing"@,
            ActionKind::Unpause => "unpausing"@,
            ActionKind::Enter => "entering"@,
            ActionKind::RemoveContainer { .. } | ActionKind::RemoveImage { .. } => "removing"@,
        }
    }

    /// Every variant, for exhaustive test matrices and the action menu.
    pub fn all() -> (r: Vec<ActionKind>)
        ensures
            r@ == all_action_kinds(),
    {
        let r = vec![
            ActionKind::Start,
            ActionKind::Stop,
            ActionKind::Restart,
            ActionKind::Kill,
            ActionKind::Pause,
            ActionKind::Unpause,
            ActionKind::Enter,
            ActionKind::RemoveContainer { force: false },
            ActionKind::RemoveContainer { force: true },
            ActionKind::RemoveImage { force: false },
            ActionKind::RemoveImage { force: true },
        ];
        assert(r@ =~= all_action_kinds());
        r
    }

    /// Menu label.
    pub fn label(&self) -> (r: &'static str)
        ensures
            r@ == self.label_text(),
    {
        match self {
            ActionKind::Start => "Start",
            ActionKind::Stop => "Stop",
            ActionKind::Restart => "Restart",
            ActionKind::Kill => "Kill",
            ActionKind::Pause => "Pause",
            ActionKind::Unpause => "Unpause",
            ActionKind::Enter => "Enter",
            ActionKind::RemoveContainer { force } | ActionKind::RemoveImage { force } => {
                if *force {
                    "Remove (force)"
                } else {
                    "Remove"
                }
            },
        }
    }

    /// Present tense, for the in-flight indicator ("stopping...").
    pub fn present_participle(&self) -> (r: &'static str)
        ensures
            r@ == self.participle_text(),
    {
        match self {
            ActionKind::Start => "starting",
            ActionKind::Stop => "stopping",
            ActionKind::Restart => "restarting",
            ActionKind::Kill => "killing",
            ActionKind::Pause => "pausing",
            ActionKind::Unpause => "unpausing",
            ActionKind::Enter => "entering",
            ActionKind::RemoveContainer { .. } | ActionKind::RemoveImage { .. } => "removing",
        }
    }

    /// Irreversible, so the UI demands a confirmation first.
    pub fn is_destructive(&self) -> (r: bool)
        ensures
            r == self.destructive(),
    {
        match self {
            ActionKind::RemoveContainer { .. } | ActionKind::RemoveImage { .. } => true,
            _ => false,
        }
    }

    /// Whether this acts on an image rather than a container.
    pub fn targets_image(&self) -> (r: bool)
        ensures
            r == (*self is RemoveImage),
    {
        match self {
            ActionKind::RemoveImage { .. } => true,
            _ => false,
        }
    }
}

} // verus!
