//! The engine's vocabulary: which engine answered, what went wrong, and how
//! list entries become domain values. The calls themselves are made by the
//! program around this library; they hand their answers in as plain values.
pub mod map;

use vstd::prelude::*;
use vstd::string::*;

use crate::domain::{ActionKind, Target, TargetView};
use crate::text::{
    ascii_lower, contains_ascii_folded, decimal, decimal_text, has_infix, opt_text, owned, texts,
};

verus! {

/// Which engine answered, for the status bar and for quirk handling.
#[derive(Debug, Clone, Copy, PartialEq, Eq, Structural)]
pub enum EngineFlavor {
    Docker,
    Podman,
    Unknown,
}

impl EngineFlavor {
    pub open spec fn text(self) -> Seq<char> {
        match self {
            EngineFlavor::Docker => "docker"@,
            EngineFlavor::Podman => "podman"@,
            EngineFlavor::Unknown => "engine"@,
        }
    }

    pub fn as_str(&self) -> (r: &'static str)
        ensures
            r@ == self.text(),
    {
        match self {
            EngineFlavor::Docker => "docker",
            EngineFlavor::Podman => "podman",
            EngineFlavor::Unknown => "engine",
        }
    }

    pub fn to_string(&self) -> (r: String)
        ensures
            r@ == self.text(),
    {
        owned(self.as_str())
    }
}

/// The status-bar summary of the engine.
#[derive(Debug, Clone, PartialEq, Eq)]
pub struct EngineInfo {
    pub flavor: EngineFlavor,
    pub version: String,
    pub api_version: String,
}

/// The abstract value of an [`EngineError`].
pub enum EngineErrorView {
    Unreachable { endpoint: Seq<char>, detail: Seq<char> },
    PermissionDenied { endpoint: Seq<char>, detail: Seq<char> },
    NotFound { message: Seq<char> },
    Conflict { message: Seq<char> },
    NotModified,
    Api { status: u16, message: Seq<char> },
    Decode { message: Seq<char> },
    Other { message: Seq<char> },
}

/// Failures the UI has to explain to a human. Deliberately coarse: each variant
/// maps to a different thing the user might do about it.
#[derive(Debug, Clone, PartialEq, Eq)]
pub enum EngineError {
    Unreachable { endpoint: String, detail: String },
    PermissionDenied { endpoint: String, detail: String },
    NotFound { message: String },
    Conflict { message: String },
    NotModified,
    Api { status: u16, message: String },
    Decode { message: String },
    Other { message: String },
}

impl View for EngineError {
    type V = EngineErrorView;

    open spec fn view(&self) -> EngineErrorView {
        match self {
            EngineError::Unreachable { endpoint, detail } => EngineErrorView::Unreachable {
                endpoint: endpoint@,
                detail: detail@,
            },
            EngineError::PermissionDenied { endpoint, detail } => {
                EngineErrorView::PermissionDenied { endpoint: endpoint@, detail: detail@ }
            },
            EngineError::NotFound { message } => EngineErrorView::NotFound { message: message@ },
            EngineError::Conflict { message } => EngineErrorView::Conflict { message: message@ },
            EngineError::NotModified => EngineErrorView::NotModified,
            EngineError::Api { status, message } => EngineErrorView::Api {
                status: *status,
                message: message@,
            },
            EngineError::Decode { message } => EngineErrorView::Decode { message: message@ },
            EngineError::Other { message } => EngineErrorView::Other { message: message@ },
        }
    }
}

/// The human-readable text of an error.
pub open spec fn error_text(e: EngineErrorView) -> Seq<char> {
    match e {
        EngineErrorView::Unreachable { endpoint, detail } => "cannot reach a container engine at "@
            + endpoint + ": "@ + detail,
        EngineErrorView::PermissionDenied { endpoint, detail } => "permission denied at "@
            + endpoint + ": "@ + detail,
        EngineErrorView::NotFound { message } => message,
        EngineErrorView::Conflict { message } => message,
        EngineErrorView::NotModified => "already in that state"@,
        EngineErrorView::Api { status, message } => "engine returned "@ + decimal(status as nat)
            + ": "@ + message,
        EngineErrorView::Decode { message } => "could not read the engine's reply ("@ + message
            + "); docker/podman API version skew?"@,
        EngineErrorView::Other { message } => message,
    }
}

impl EngineError {
    /// Whether retrying the same call unchanged could plausibly succeed.
    /// Drives whether the UI keeps polling or waits for the user.
    pub fn is_transient(&self) -> (r: bool)
        ensures
            r == match self@ {
                EngineErrorView::Unreachable { .. } => true,
                EngineErrorView::Api { status, .. } => 500 <= status <= 599,
                _ => false,
            },
    {
        match self {
            EngineError::Unreachable { .. } => true,
            EngineError::Api { status, .. } => 500 <= *status && *status <= 599,
            _ => false,
        }
    }

    /// The text shown to the user.
    pub fn to_string(&self) -> (r: String)
        ensures
            r@ == error_text(self@),
    {
        match self {
            EngineError::Unreachable { endpoint, detail } => {
                let mut out = owned("cannot reach a container engine at ");
                out.append(endpoint.as_str());
                out.append(": ");
                out.append(detail.as_str());
                out
            },
            EngineError::PermissionDenied { endpoint, detail } => {
                let mut out = owned("permission denied at ");
                out.append(endpoint.as_str());
                out.append(": ");
                out.append(detail.as_str());
                out
            },
            EngineError::NotFound { message } => owned(message.as_str()),
            EngineError::Conflict { message } => owned(message.as_str()),
            EngineError::NotModified => owned("already in that state"),
            EngineError::Api { status, message } => {
                let mut out = owned("engine returned ");
                let code = decimal_text(*status as u64);
                out.append(code.as_str());
                out.append(": ");
                out.append(message.as_str());
                out
            },
            EngineError::Decode { message } => {
                let mut out = owned("could not read the engine's reply (");
                out.append(message.as_str());
                out.append("); docker/podman API version skew?");
                out
            },
            EngineError::Other { message } => owned(message.as_str()),
        }
    }
}

/// A failed engine call, as the client library reported it, in plain values.
#[derive(Debug, PartialEq, Eq)]
pub enum EngineFailure {
    /// The engine answered with an HTTP error status.
    ServerError { status_code: u16, message: String },
    /// The reply's JSON did not fit the expected shape.
    JsonData { message: String },
    /// The reply could not be (de)serialised at all.
    JsonSerde { message: String },
    /// The transport failed; `permission_denied` when the OS refused access.
    Io { permission_denied: bool, detail: String },
    /// The HTTP layer failed.
    Hyper { detail: String },
    /// No socket exists at `path`.
    SocketNotFound { path: String },
    /// Anything else, with its own description.
    Other { message: String },
}

/// The abstract value of an [`EngineFailure`].
pub enum EngineFailureView {
    ServerError { status_code: u16, message: Seq<char> },
    JsonData { message: Seq<char> },
    JsonSerde { message: Seq<char> },
    Io { permission_denied: bool, detail: Seq<char> },
    Hyper { detail: Seq<char> },
    SocketNotFound { path: Seq<char> },
    Other { message: Seq<char> },
}

impl View for EngineFailure {
    type V = EngineFailureView;

    open spec fn view(&self) -> EngineFailureView {
        match self {
            EngineFailure::ServerError { status_code, message } => {
                EngineFailureView::ServerError { status_code: *status_code, message: message@ }
            },
            EngineFailure::JsonData { message } => EngineFailureView::JsonData {
                message: message@,
            },
            EngineFailure::JsonSerde { message } => EngineFailureView::JsonSerde {
                message: message@,
            },
            EngineFailure::Io { permission_denied, detail } => EngineFailureView::Io {
                permission_denied: *permission_denied,
                detail: detail@,
            },
            EngineFailure::Hyper { detail } => EngineFailureView::Hyper { detail: detail@ },
            EngineFailure::SocketNotFound { path } => EngineFailureView::SocketNotFound {
                path: path@,
            },
            EngineFailure::Other { message } => EngineFailureView::Other { message: message@ },
        }
    }
}

/// How a failure is explained to the user; `endpoint` is where jikura looked.
pub open spec fn classification(f: EngineFailureView, endpoint: Seq<char>) -> EngineErrorView {
    match f {
        EngineFailureView::ServerError { status_code, message } => if status_code == 304 {
            EngineErrorView::NotModified
        } else if status_code == 401 || status_code == 403 {
            EngineErrorView::PermissionDenied { endpoint: endpoint, detail: message }
        } else if status_code == 404 {
            EngineErrorView::NotFound { message }
        } else if status_code == 409 {
            EngineErrorView::Conflict { message }
        } else {
            EngineErrorView::Api { status: status_code, message }
        },
        EngineFailureView::JsonData { message } => EngineErrorView::Decode { message },
        EngineFailureView::JsonSerde { message } => EngineErrorView::Decode { message },
        EngineFailureView::Io { permission_denied, detail } => if permission_denied {
            EngineErrorView::PermissionDenied { endpoint: endpoint, detail: detail }
        } else {
            EngineErrorView::Unreachable { endpoint: endpoint, detail: detail }
        },
        EngineFailureView::Hyper { detail } => EngineErrorView::Unreachable {
            endpoint: endpoint,
            detail: detail,
        },
        EngineFailureView::SocketNotFound { path } => EngineErrorView::Unreachable {
            endpoint: endpoint,
            detail: "no socket at "@ + path,
        },
        EngineFailureView::Other { message } => EngineErrorView::Other { message },
    }
}

/// Translates a failed engine call into something a user can act on.
/// `endpoint` is the DOCKER_HOST jikura was pointed at -- the single most
/// useful detail when the socket is missing or unreadable.
pub fn classify(err: EngineFailure, endpoint: &str) -> (r: EngineError)
    ensures
        r@ == classification(err@, endpoint@),
{
    match err {
        EngineFailure::ServerError { status_code, message } => {
            if status_code == 304 {
                EngineError::NotModified
            } else if status_code == 401 || status_code == 403 {
                EngineError::PermissionDenied { endpoint: owned(endpoint), detail: message }
            } else if status_code == 404 {
                EngineError::NotFound { message }
            } else if status_code == 409 {
                EngineError::Conflict { message }
            } else {
                EngineError::Api { status: status_code, message }
            }
        },
        // One unexpected field fails the whole response: worth naming as skew.
        EngineFailure::JsonData { message } => EngineError::Decode { message },
        EngineFailure::JsonSerde { message } => EngineError::Decode { message },
        EngineFailure::Io { permission_denied, detail } => {
            if permission_denied {
                EngineError::PermissionDenied { endpoint: owned(endpoint), detail }
            } else {
                EngineError::Unreachable { endpoint: owned(endpoint), detail }
            }
        },
        EngineFailure::Hyper { detail } => EngineError::Unreachable {
            endpoint: owned(endpoint),
            detail,
        },
        EngineFailure::SocketNotFound { path } => {
            let mut detail = owned("no socket at ");
            detail.append(path.as_str());
            EngineError::Unreachable { endpoint: owned(endpoint), detail }
        },
        EngineFailure::Other { message } => EngineError::Other { message },
    }
}

/// Only an unreachable engine or a server-side (5xx) failure is worth retrying;
/// a refusal the engine made on purpose (304, 401/403, 404, 409) never is.
pub proof fn lemma_only_reachability_failures_are_transient(
    f: EngineFailureView,
    endpoint: Seq<char>,
)
    ensures
        (f matches EngineFailureView::ServerError { status_code, .. } && (status_code == 304
            || status_code == 401 || status_code == 403 || status_code == 404 || status_code
            == 409)) ==> !(classification(f, endpoint) is Unreachable || (classification(
            f,
            endpoint,
        ) matches EngineErrorView::Api { status, .. } && 500 <= status <= 599)),
        (f is Io || f is Hyper || f is SocketNotFound) ==> (classification(f, endpoint)
            is Unreachable || classification(f, endpoint) is PermissionDenied),
{
}

/// What the engine says about itself on `/version`, in plain values.
#[derive(Debug, PartialEq, Eq, Default)]
pub struct VersionReport {
    pub version: Option<String>,
    pub api_version: Option<String>,
    /// Names of the components listed, when the engine lists any.
    pub components: Option<Vec<String>>,
    /// The platform name, when the engine gives one.
    pub platform: Option<String>,
}

/// `name` mentions `word`, ignoring ASCII case.
pub open spec fn mentions(name: Seq<char>, word: Seq<char>) -> bool {
    has_infix(ascii_lower(name), ascii_lower(word))
}

/// Some listed component's name mentions `word`.
pub open spec fn some_component_mentions(components: Option<Seq<Seq<char>>>, word: Seq<char>) -> bool {
    match components {
        Some(names) => exists|i: int| 0 <= i < names.len() && mentions(#[trigger] names[i], word),
        None => false,
    }
}

/// The platform name mentions `word`.
pub open spec fn platform_mentions(platform: Option<Seq<char>>, word: Seq<char>) -> bool {
    match platform {
        Some(name) => mentions(name, word),
        None => false,
    }
}

/// Which engine a version report announces. Podman wins a tie: its compat
/// endpoint can mention docker.
pub open spec fn announced_flavor(
    components: Option<Seq<Seq<char>>>,
    platform: Option<Seq<char>>,
) -> EngineFlavor {
    let podman = some_component_mentions(components, "podman"@) || platform_mentions(
        platform,
        "podman"@,
    );
    let docker = platform_mentions(platform, "docker"@) || some_component_mentions(
        components,
        "docker engine"@,
    );
    if podman {
        EngineFlavor::Podman
    } else if docker {
        EngineFlavor::Docker
    } else {
        EngineFlavor::Unknown
    }
}

/// Which engine a report names: podman whenever any listed component's name,
/// or the platform name, contains `podman` (ignoring ASCII case), wherever in
/// the list that component stands; otherwise docker whenever the platform name
/// contains `docker` or any component's name contains `docker engine`;
/// otherwise unknown.
pub proof fn lemma_flavor_reads_every_component(
    components: Option<Seq<Seq<char>>>,
    platform: Option<Seq<char>>,
)
    ensures
        ({
            let any_component = |w: Seq<char>|
                components matches Some(names) && exists|i: int|
                    0 <= i < names.len() && has_infix(
                        ascii_lower(#[trigger] names[i]),
                        ascii_lower(w),
                    );
            let platform_has = |w: Seq<char>|
                platform matches Some(p) && has_infix(ascii_lower(p), ascii_lower(w));
            let podman = any_component("podman"@) || platform_has("podman"@);
            let docker = platform_has("docker"@) || any_component("docker engine"@);
            &&& (announced_flavor(components, platform) == EngineFlavor::Podman <==> podman)
            &&& (announced_flavor(components, platform) == EngineFlavor::Docker <==> !podman
                && docker)
            &&& (announced_flavor(components, platform) == EngineFlavor::Unknown <==> !podman
                && !docker)
        }),
{
}

/// The component names of a report, as character sequences.
pub open spec fn component_texts(c: Option<Vec<String>>) -> Option<Seq<Seq<char>>> {
    match c {
        Some(v) => Some(texts(v@)),
        None => None,
    }
}

/// `o`'s text, or `unknown` when absent.
pub open spec fn text_or_unknown(o: Option<Seq<char>>) -> Seq<char> {
    match o {
        Some(t) => t,
        None => "unknown"@,
    }
}

fn any_component_mentions(components: &Option<Vec<String>>, word: &str) -> (r: bool)
    ensures
        r == some_component_mentions(component_texts(*components), word@),
{
    match components {
        Some(names) => {
            let mut i: usize = 0;
            while i < names.len()
                invariant
                    i <= names.len(),
                    component_texts(*components) == Some(texts(names@)),
                    forall|k: int|
                        0 <= k < i ==> !mentions(#[trigger] texts(names@)[k], word@),
                decreases names.len() - i,
            {
                assert(texts(names@)[i as int] == names@[i as int]@);
                if contains_ascii_folded(names[i].as_str(), word) {
                    assert(mentions(component_texts(*components)->0[i as int], word@));
                    return true;
                }
                i = i + 1;
            }
            false
        },
        None => false,
    }
}

fn platform_mentions_word(platform: &Option<String>, word: &str) -> (r: bool)
    ensures
        r == platform_mentions(opt_text(*platform), word@),
{
    match platform {
        Some(name) => contains_ascii_folded(name.as_str(), word),
        None => false,
    }
}

fn text_or_unknown_owned(o: Option<String>) -> (r: String)
    ensures
        r@ == text_or_unknown(opt_text(o)),
{
    match o {
        Some(t) => t,
        None => owned("unknown"),
    }
}

/// Reads a `/version` report into the status-bar summary. Podman announces
/// itself in its components, docker in its platform name.
pub fn engine_info(version: VersionReport) -> (r: EngineInfo)
    ensures
        r.flavor == announced_flavor(component_texts(version.components), opt_text(version.platform)),
        r.version@ == text_or_unknown(opt_text(version.version)),
        r.api_version@ == text_or_unknown(opt_text(version.api_version)),
{
    let announces_podman = any_component_mentions(&version.components, "podman")
        || platform_mentions_word(&version.platform, "podman");
    let announces_docker = platform_mentions_word(&version.platform, "docker")
        || any_component_mentions(&version.components, "docker engine");
    let flavor = if announces_podman {
        EngineFlavor::Podman
    } else if announces_docker {
        EngineFlavor::Docker
    } else {
        EngineFlavor::Unknown
    };
    EngineInfo {
        flavor,
        version: text_or_unknown_owned(version.version),
        api_version: text_or_unknown_owned(version.api_version),
    }
}


/// An engine call that carries out an action on its target.
#[derive(Debug, Clone, Copy, PartialEq, Eq, Structural)]
pub enum Operation {
    StartContainer,
    StopContainer,
    RestartContainer,
    KillContainer,
    PauseContainer,
    UnpauseContainer,
    RemoveContainer { force: bool },
    RemoveImage { force: bool },
}

/// The engine call for an action on a target; `None` for a pairing the engine
/// has no call for (an image action on a container or the reverse, and
/// entering, which is not an engine call).
pub open spec fn operation_of(action: ActionKind, target: TargetView) -> Option<Operation> {
    match (action, target) {
        (ActionKind::Start, TargetView::Container(_)) => Some(Operation::StartContainer),
        (ActionKind::Stop, TargetView::Container(_)) => Some(Operation::StopContainer),
        (ActionKind::Restart, TargetView::Container(_)) => Some(Operation::RestartContainer),
        (ActionKind::Kill, TargetView::Container(_)) => Some(Operation::KillContainer),
        (ActionKind::Pause, TargetView::Container(_)) => Some(Operation::PauseContainer),
        (ActionKind::Unpause, TargetView::Container(_)) => Some(Operation::UnpauseContainer),
        (ActionKind::RemoveContainer { force }, TargetView::Container(_)) => Some(
            Operation::RemoveContainer { force },
        ),
        (ActionKind::RemoveImage { force }, TargetView::Image(_)) => Some(
            Operation::RemoveImage { force },
        ),
        _ => None,
    }
}

/// Why an action does not apply to a target.
pub open spec fn mismatch_text(action: ActionKind, target: TargetView) -> Seq<char> {
    action.label_text() + " does not apply to "@ + match target {
        TargetView::Container(_) => "a container"@,
        TargetView::Image(_) => "an image"@,
    }
}

/// Each action is carried out by its own engine call, on the kind of target it
/// is for: start, stop, restart, kill, pause and unpause a container through
/// the call of the same name, removals pass their `force` through, and
/// entering, an image action on a container or a container action on an image
/// has no engine call.
pub proof fn lemma_each_action_has_its_own_call(action: ActionKind, target: TargetView)
    ensures
        target is Container ==> {
            &&& (action == ActionKind::Start <==> operation_of(action, target) == Some(
                Operation::StartContainer,
            ))
            &&& (action == ActionKind::Stop <==> operation_of(action, target) == Some(
                Operation::StopContainer,
            ))
            &&& (action == ActionKind::Restart <==> operation_of(action, target) == Some(
                Operation::RestartContainer,
            ))
            &&& (action == ActionKind::Kill <==> operation_of(action, target) == Some(
                Operation::KillContainer,
            ))
            &&& (action == ActionKind::Pause <==> operation_of(action, target) == Some(
                Operation::PauseContainer,
            ))
            &&& (action == ActionKind::Unpause <==> operation_of(action, target) == Some(
                Operation::UnpauseContainer,
            ))
            &&& forall|force: bool|
                action == (ActionKind::RemoveContainer { force }) <==> #[trigger] operation_of(
                    action,
                    target,
                ) == Some(Operation::RemoveContainer { force })
            &&& (action == ActionKind::Enter || action is RemoveImage) <==> operation_of(
                action,
                target,
            ) is None
        },
        target is Image ==> (forall|force: bool|
            action == (ActionKind::RemoveImage { force }) <==> #[trigger] operation_of(
                action,
                target,
            ) == Some(Operation::RemoveImage { force })) && (!(action is RemoveImage)
            <==> operation_of(action, target) is None),
{
}

/// Picks the engine call that performs `action` on `target`. The UI never
/// offers a mismatched pairing, but the types permit one; it is refused with
/// an explanation rather than sent.
pub fn operation_for(action: ActionKind, target: &Target) -> (r: Result<Operation, EngineError>)
    ensures
        match operation_of(action, target@) {
            Some(op) => r == Ok::<Operation, EngineError>(op),
            None => r matches Err(e) && e@ == EngineErrorView::Other {
                message: mismatch_text(action, target@),
            },
        },
{
    match (action, target) {
        (ActionKind::Start, Target::Container(_)) => Ok(Operation::StartContainer),
        (ActionKind::Stop, Target::Container(_)) => Ok(Operation::StopContainer),
        (ActionKind::Restart, Target::Container(_)) => Ok(Operation::RestartContainer),
        (ActionKind::Kill, Target::Container(_)) => Ok(Operation::KillContainer),
        (ActionKind::Pause, Target::Container(_)) => Ok(Operation::PauseContainer),
        (ActionKind::Unpause, Target::Container(_)) => Ok(Operation::UnpauseContainer),
        (ActionKind::RemoveContainer { force }, Target::Container(_)) => Ok(
            Operation::RemoveContainer { force },
        ),
        (ActionKind::RemoveImage { force }, Target::Image(_)) => Ok(
            Operation::RemoveImage { force },
        ),
        (action, target) => {
            let mut message = owned(action.label());
            message.append(" does not apply to ");
            match target {
                Target::Container(_) => message.append("a container"),
                Target::Image(_) => message.append("an image"),
            }
            Err(EngineError::Other { message })
        },
    }
}

} // verus!
