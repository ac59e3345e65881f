use std::collections::BTreeMap;

use vstd::prelude::*;
use vstd::string::*;
use vstd::utf8::*;

use super::action::ActionKind;
use super::ids::{id_hex, ContainerId, ImageId, SHORT_ID_BYTES};
use super::time::Timestamp;
use crate::text::{
    ascii_lower, byte_prefix, prefix_within_bytes, decimal, decimal_text, join, joined, opt_text,
    owned, split_first, split_once, text_eq, texts, to_ascii_lowercase, trim, trimmed,
};

verus! {

/// Where a value sits on the "is this fine?" scale. A domain-level stand-in for
/// colour, so `domain` never imports a terminal library; the UI owns the mapping.
#[derive(Debug, Clone, Copy, PartialEq, Eq, Structural)]
pub enum Severity {
    Good,
    Warn,
    Bad,
    Neutral,
}

/// Transport protocol of a published port. The API's port type is exactly these
/// three; an absent or empty value means tcp.
#[derive(Debug, Clone, Copy, PartialEq, Eq, Hash, Structural)]
pub enum Protocol {
    Tcp,
    Udp,
    Sctp,
}

/// A protocol string the engine sent that jikura does not know.
#[derive(Debug, PartialEq, Eq)]
pub struct UnknownProtocol(pub String);

impl Clone for UnknownProtocol {
    fn clone(&self) -> (r: Self)
        ensures
            r == *self,
    {
        UnknownProtocol(self.0.clone())
    }
}

/// What `Protocol::parse` makes of a string: the protocol, or the trimmed,
/// lower-cased spelling it did not know.
pub open spec fn protocol_of(t: Seq<char>) -> Result<Protocol, Seq<char>> {
    let k = ascii_lower(trimmed(t));
    if k == ""@ || k == "tcp"@ {
        Ok(Protocol::Tcp)
    } else if k == "udp"@ {
        Ok(Protocol::Udp)
    } else if k == "sctp"@ {
        Ok(Protocol::Sctp)
    } else {
        Err(k)
    }
}

impl Protocol {
    /// The engine's spelling.
    pub open spec fn text(self) -> Seq<char> {
        match self {
            Protocol::Tcp => "tcp"@,
            Protocol::Udp => "udp"@,
            Protocol::Sctp => "sctp"@,
        }
    }

    /// Position in the protocols' declaration order, the order `derive(Ord)` gives.
    pub open spec fn rank(self) -> u8 {
        match self {
            Protocol::Tcp => 0,
            Protocol::Udp => 1,
            Protocol::Sctp => 2,
        }
    }

    pub fn as_str(&self) -> (r: &'static str)
        ensures
            r@ == self.text(),
    {
        match self {
            Protocol::Tcp => "tcp",
            Protocol::Udp => "udp",
            Protocol::Sctp => "sctp",
        }
    }

    pub fn to_string(&self) -> (r: String)
        ensures
            r@ == self.text(),
    {
        owned(self.as_str())
    }

    /// Numeric form of `rank`.
    pub fn order_index(&self) -> (r: u8)
        ensures
            r == self.rank(),
    {
        match self {
            Protocol::Tcp => 0,
            Protocol::Udp => 1,
            Protocol::Sctp => 2,
        }
    }

    /// Parses the engine's spelling, ignoring case and surrounding white space;
    /// an empty value means tcp.
    pub fn parse(s: &str) -> (r: Result<Protocol, UnknownProtocol>)
        ensures
            match r {
                Ok(p) => protocol_of(s@) == Ok::<Protocol, Seq<char>>(p),
                Err(e) => protocol_of(s@) == Err::<Protocol, Seq<char>>(e.0@),
            },
    {
        let k = to_ascii_lowercase(trim(s));
        if text_eq(k.as_str(), "") || text_eq(k.as_str(), "tcp") {
            Ok(Protocol::Tcp)
        } else if text_eq(k.as_str(), "udp") {
            Ok(Protocol::Udp)
        } else if text_eq(k.as_str(), "sctp") {
            Ok(Protocol::Sctp)
        } else {
            Err(UnknownProtocol(k))
        }
    }
}

impl std::str::FromStr for Protocol {
    type Err = UnknownProtocol;

    fn from_str(s: &str) -> (r: Result<Protocol, UnknownProtocol>)
        ensures
            match r {
                Ok(p) => protocol_of(s@) == Ok::<Protocol, Seq<char>>(p),
                Err(e) => protocol_of(s@) == Err::<Protocol, Seq<char>>(e.0@),
            },
    {
        Protocol::parse(s)
    }
}

impl Default for Protocol {
    fn default() -> (r: Protocol)
        ensures
            r == Protocol::Tcp,
    {
        Protocol::Tcp
    }
}

/// The abstract value of a [`PortMapping`].
pub struct PortMappingView {
    pub host_ip: Option<Seq<char>>,
    pub host_port: Option<u16>,
    pub container_port: u16,
    pub protocol: Protocol,
}

/// Docker-style rendering: `0.0.0.0:8080->80/tcp` when published, `80/tcp`
/// when merely exposed.
pub open spec fn port_text(p: PortMappingView) -> Seq<char> {
    let host = match p.host_port {
        Some(hp) => match p.host_ip {
            Some(ip) => ip + ":"@ + decimal(hp as nat) + "->"@,
            None => decimal(hp as nat) + "->"@,
        },
        None => Seq::<char>::empty(),
    };
    host + decimal(p.container_port as nat) + "/"@ + p.protocol.text()
}

/// One entry from a container's port list.
#[derive(Debug)]
pub struct PortMapping {
    /// The host address in its canonical text form; `None` when the port is
    /// exposed but not published, or when the engine sent no usable address.
    pub host_ip: Option<String>,
    pub host_port: Option<u16>,
    pub container_port: u16,
    pub protocol: Protocol,
}

impl View for PortMapping {
    type V = PortMappingView;

    open spec fn view(&self) -> PortMappingView {
        PortMappingView {
            host_ip: opt_text(self.host_ip),
            host_port: self.host_port,
            container_port: self.container_port,
            protocol: self.protocol,
        }
    }
}

fn same_opt_text(a: &Option<String>, b: &Option<String>) -> (r: bool)
    ensures
        r == (opt_text(*a) == opt_text(*b)),
{
    match (a, b) {
        (Some(x), Some(y)) => text_eq(x.as_str(), y.as_str()),
        (None, None) => true,
        _ => false,
    }
}

impl PartialEq for PortMapping {
    fn eq(&self, other: &Self) -> (r: bool) {
        same_opt_text(&self.host_ip, &other.host_ip) && self.host_port == other.host_port
            && self.container_port == other.container_port && self.protocol == other.protocol
    }
}

impl vstd::std_specs::cmp::PartialEqSpecImpl for PortMapping {
    open spec fn obeys_eq_spec() -> bool {
        true
    }

    open spec fn eq_spec(&self, other: &PortMapping) -> bool {
        self@ == other@
    }
}

impl Eq for PortMapping {

}

impl Clone for PortMapping {
    fn clone(&self) -> (r: Self)
        ensures
            r@ == self@,
    {
        PortMapping {
            host_ip: match &self.host_ip {
                Some(ip) => Some(ip.clone()),
                None => None,
            },
            host_port: self.host_port,
            container_port: self.container_port,
            protocol: self.protocol,
        }
    }
}

impl PortMapping {
    /// True when the port is reachable from the host.
    pub fn is_published(&self) -> (r: bool)
        ensures
            r == (self.host_port is Some),
    {
        self.host_port.is_some()
    }

    /// Docker-style: `0.0.0.0:8080->80/tcp` published, `80/tcp` merely exposed.
    pub fn to_string(&self) -> (r: String)
        ensures
            r@ == port_text(self@),
    {
        let mut out = String::new();
        match self.host_port {
            Some(host_port) => {
                match &self.host_ip {
                    Some(ip) => {
                        out.append(ip.as_str());
                        out.append(":");
                    },
                    None => {},
                }
                let hp = decimal_text(host_port as u64);
                out.append(hp.as_str());
                out.append("->");
            },
            None => {},
        }
        let cp = decimal_text(self.container_port as u64);
        out.append(cp.as_str());
        out.append("/");
        out.append(self.protocol.as_str());
        assert(out@ =~= port_text(self@));
        out
    }
}

/// Lifecycle state of a container.
///
/// Payload-free on purpose: the list endpoint carries neither `StartedAt` nor
/// `ExitCode`, and `Container::status_text` already holds the engine's own
/// human summary. `Unknown` corresponds to the API's empty state value.
#[derive(Debug, Clone, Copy, PartialEq, Eq, Hash, Structural)]
pub enum ContainerState {
    Created,
    Running,
    Paused,
    Restarting,
    Exited,
    Dead,
    Removing,
    Unknown,
}

impl ContainerState {
    /// Canonical engine spelling, matching the API's `State` field.
    pub open spec fn text(self) -> Seq<char> {
        match self {
            ContainerState::Created => "created"@,
            ContainerState::Running => "running"@,
            ContainerState::Paused => "paused"@,
            ContainerState::Restarting => "restarting"@,
            ContainerState::Exited => "exited"@,
            ContainerState::Dead => "dead"@,
            ContainerState::Removing => "removing"@,
            ContainerState::Unknown => "unknown"@,
        }
    }

    /// Running first, then suspended, then stopped.
    pub open spec fn rank(self) -> u8 {
        match self {
            ContainerState::Running => 0,
            ContainerState::Restarting => 1,
            ContainerState::Paused => 2,
            ContainerState::Created => 3,
            ContainerState::Exited => 4,
            ContainerState::Dead => 5,
            ContainerState::Removing => 6,
            ContainerState::Unknown => 7,
        }
    }

    pub open spec fn severity_of(self) -> Severity {
        match self {
            ContainerState::Running => Severity::Good,
            ContainerState::Paused | ContainerState::Restarting | ContainerState::Removing => {
                Severity::Warn
            },
            ContainerState::Dead => Severity::Bad,
            ContainerState::Created | ContainerState::Exited | ContainerState::Unknown => {
                Severity::Neutral
            },
        }
    }

    /// Which actions the action menu offers for a container in this state.
    pub open spec fn permits(self, action: ActionKind) -> bool {
        match (self, action) {
            (_, ActionKind::RemoveImage { .. }) => false,
            (ContainerState::Removing, _) | (ContainerState::Unknown, _) => false,
            (_, ActionKind::RemoveContainer { force: true }) => true,
            (ContainerState::Created, ActionKind::Start) | (
                ContainerState::Exited,
                ActionKind::Start,
            ) => true,
            (ContainerState::Running, ActionKind::Stop)
            | (ContainerState::Running, ActionKind::Kill)
            | (ContainerState::Restarting, ActionKind::Stop)
            | (ContainerState::Restarting, ActionKind::Kill)
            | (ContainerState::Paused, ActionKind::Stop)
            | (ContainerState::Paused, ActionKind::Kill) => true,
            (ContainerState::Created, ActionKind::Restart)
            | (ContainerState::Exited, ActionKind::Restart)
            | (ContainerState::Running, ActionKind::Restart)
            | (ContainerState::Restarting, ActionKind::Restart)
            | (ContainerState::Paused, ActionKind::Restart) => true,
            (ContainerState::Running, ActionKind::Pause) => true,
            (ContainerState::Running, ActionKind::Enter) => true,
            (ContainerState::Paused, ActionKind::Unpause) => true,
            (ContainerState::Created, ActionKind::RemoveContainer { force: false })
            | (ContainerState::Exited, ActionKind::RemoveContainer { force: false })
            | (ContainerState::Dead, ActionKind::RemoveContainer { force: false }) => true,
            _ => false,
        }
    }

    /// Canonical engine spelling, matching the API's `State` field.
    pub fn as_str(&self) -> (r: &'static str)
        ensures
            r@ == self.text(),
    {
        match self {
            ContainerState::Created => "created",
            ContainerState::Running => "running",
            ContainerState::Paused => "paused",
            ContainerState::Restarting => "restarting",
            ContainerState::Exited => "exited",
            ContainerState::Dead => "dead",
            ContainerState::Removing => "removing",
            ContainerState::Unknown => "unknown",
        }
    }

    pub fn to_string(&self) -> (r: String)
        ensures
            r@ == self.text(),
    {
        owned(self.as_str())
    }

    pub fn is_running(&self) -> (r: bool)
        ensures
            r == (*self == ContainerState::Running),
    {
        match self {
            ContainerState::Running => true,
            _ => false,
        }
    }

    /// Has a process at all -- suspended or bouncing included. This is what the
    /// UI means by "up", and what the default filter keeps when --all is off.
    pub fn is_up(&self) -> (r: bool)
        ensures
            r == (*self == ContainerState::Running || *self == ContainerState::Paused || *self
                == ContainerState::Restarting),
    {
        match self {
            ContainerState::Running | ContainerState::Paused | ContainerState::Restarting => true,
            _ => false,
        }
    }

    /// A state the engine is actively moving through: worth re-polling sooner.
    pub fn is_transient(&self) -> (r: bool)
        ensures
            r == (*self == ContainerState::Restarting || *self == ContainerState::Removing),
    {
        match self {
            ContainerState::Restarting | ContainerState::Removing => true,
            _ => false,
        }
    }

    /// Running first, then suspended, then stopped -- a stable table order that
    /// does not reshuffle as `status_text` ticks over.
    pub fn sort_rank(&self) -> (r: u8)
        ensures
            r == self.rank(),
    {
        match self {
            ContainerState::Running => 0,
            ContainerState::Restarting => 1,
            ContainerState::Paused => 2,
            ContainerState::Created => 3,
            ContainerState::Exited => 4,
            ContainerState::Dead => 5,
            ContainerState::Removing => 6,
            ContainerState::Unknown => 7,
        }
    }

    pub fn severity(&self) -> (r: Severity)
        ensures
            r == self.severity_of(),
    {
        match self {
            ContainerState::Running => Severity::Good,
            ContainerState::Paused | ContainerState::Restarting | ContainerState::Removing => {
                Severity::Warn
            },
            ContainerState::Dead => Severity::Bad,
            ContainerState::Created | ContainerState::Exited | ContainerState::Unknown => {
                Severity::Neutral
            },
        }
    }

    /// Advisory only: greys out entries in the action menu. The engine stays the
    /// authority -- an action it rejects still round-trips and reports its error.
    pub fn allows(&self, action: ActionKind) -> (r: bool)
        ensures
            r == self.permits(action),
    {
        match (self, action) {
            (_, ActionKind::RemoveImage { .. }) => false,
            (ContainerState::Removing, _) | (ContainerState::Unknown, _) => false,
            (_, ActionKind::RemoveContainer { force: true }) => true,
            (ContainerState::Created, ActionKind::Start) | (
                ContainerState::Exited,
                ActionKind::Start,
            ) => true,
            (ContainerState::Running, ActionKind::Stop)
            | (ContainerState::Running, ActionKind::Kill)
            | (ContainerState::Restarting, ActionKind::Stop)
            | (ContainerState::Restarting, ActionKind::Kill)
            | (ContainerState::Paused, ActionKind::Stop)
            | (ContainerState::Paused, ActionKind::Kill) => true,
            (ContainerState::Created, ActionKind::Restart)
            | (ContainerState::Exited, ActionKind::Restart)
            | (ContainerState::Running, ActionKind::Restart)
            | (ContainerState::Restarting, ActionKind::Restart)
            | (ContainerState::Paused, ActionKind::Restart) => true,
            (ContainerState::Running, ActionKind::Pause) => true,
            (ContainerState::Running, ActionKind::Enter) => true,
            (ContainerState::Paused, ActionKind::Unpause) => true,
            (ContainerState::Created, ActionKind::RemoveContainer { force: false })
            | (ContainerState::Exited, ActionKind::RemoveContainer { force: false })
            | (ContainerState::Dead, ActionKind::RemoveContainer { force: false }) => true,
            _ => false,
        }
    }
}

/// The rules the action menu follows, whatever the state: an image action is
/// never a container action; a container being removed, or in an unknown state,
/// allows nothing; only a running container can be entered or paused; only a
/// paused one can be unpaused; a created or exited container can be started;
/// one with a process (running, restarting, paused) can be stopped or killed;
/// any state with a container behind it but dead can be restarted; a forced
/// removal is offered whenever anything is; and a plain removal only for a
/// container that has no process.
pub proof fn lemma_action_menu_rules(s: ContainerState, force: bool)
    ensures
        !s.permits(ActionKind::RemoveImage { force }),
        (s == ContainerState::Removing || s == ContainerState::Unknown) ==> forall|
            a: ActionKind,
        | !(#[trigger] s.permits(a)),
        s.permits(ActionKind::Enter) <==> s == ContainerState::Running,
        s.permits(ActionKind::Pause) <==> s == ContainerState::Running,
        s.permits(ActionKind::Unpause) <==> s == ContainerState::Paused,
        s.permits(ActionKind::RemoveContainer { force: true }) <==> !(s == ContainerState::Removing
            || s == ContainerState::Unknown),
        s.permits(ActionKind::RemoveContainer { force: false }) <==> (s == ContainerState::Created
            || s == ContainerState::Exited || s == ContainerState::Dead),
        s.permits(ActionKind::Start) <==> (s == ContainerState::Created || s
            == ContainerState::Exited),
        s.permits(ActionKind::Restart) <==> (s == ContainerState::Created || s
            == ContainerState::Exited || s == ContainerState::Running || s
            == ContainerState::Restarting || s == ContainerState::Paused),
        s.permits(ActionKind::Stop) <==> (s == ContainerState::Running || s
            == ContainerState::Restarting || s == ContainerState::Paused),
        s.permits(ActionKind::Kill) <==> (s == ContainerState::Running || s
            == ContainerState::Restarting || s == ContainerState::Paused),
        forall|a: ActionKind| #[trigger] s.permits(a) ==> s.permits(
            ActionKind::RemoveContainer { force: true },
        ),
{
}

/// `sort_rank` is a strict total order on states: no two states share a rank,
/// a running container sorts first and an unknown one last.
pub proof fn lemma_sort_rank_is_a_strict_order(a: ContainerState, b: ContainerState)
    ensures
        a != b ==> a.rank() != b.rank(),
        ContainerState::Running.rank() <= a.rank() <= ContainerState::Unknown.rank(),
{
}

/// A running container is up; only up containers are running.
pub proof fn lemma_running_is_up(s: ContainerState)
    ensures
        s == ContainerState::Running ==> (s == ContainerState::Running || s
            == ContainerState::Paused || s == ContainerState::Restarting),
{
}

/// Whether an image reference names a digest algorithm rather than a tag.
pub open spec fn is_digest_algorithm_text(alg: Seq<char>) -> bool {
    alg == "sha256"@ || alg == "sha512"@
}

/// The abstract value of a [`Container`], labels aside.
pub struct ContainerView {
    pub id: Seq<char>,
    pub names: Seq<Seq<char>>,
    pub image: Seq<char>,
    pub image_id: Seq<char>,
    pub command: Seq<char>,
    pub created: Timestamp,
    pub state: ContainerState,
    pub status_text: Seq<char>,
    pub ports: Seq<PortMappingView>,
}

/// The views of a sequence of port mappings.
pub open spec fn port_views(ports: Seq<PortMapping>) -> Seq<PortMappingView> {
    ports.map_values(|p: PortMapping| p@)
}

/// A container as the list endpoint describes it.
#[derive(Debug)]
pub struct Container {
    pub id: ContainerId,
    /// Engine-reported names with the historic leading `/` stripped.
    pub names: Vec<String>,
    /// The image reference as given at creation. May be a tag or, if that tag
    /// was since removed, a digest -- so it stays a raw string.
    pub image: String,
    pub image_id: ImageId,
    pub command: String,
    pub created: Timestamp,
    pub state: ContainerState,
    /// The engine's human summary, e.g. `Exited (137) 2 hours ago`.
    pub status_text: String,
    pub ports: Vec<PortMapping>,
    pub labels: BTreeMap<String, String>,
}

impl View for Container {
    type V = ContainerView;

    open spec fn view(&self) -> ContainerView {
        ContainerView {
            id: self.id@,
            names: texts(self.names@),
            image: self.image@,
            image_id: self.image_id@,
            command: self.command@,
            created: self.created,
            state: self.state,
            status_text: self.status_text@,
            ports: port_views(self.ports@),
        }
    }
}

/// The name column: the first name, or the short ID.
pub open spec fn display_name_text(c: ContainerView) -> Seq<char> {
    if c.names.len() > 0 {
        c.names[0]
    } else {
        prefix_within_bytes(c.id, SHORT_ID_BYTES as int)
    }
}

/// The image column: a digest reference shortened to twelve bytes of its hex,
/// anything else verbatim.
pub open spec fn image_label_text(image: Seq<char>) -> Seq<char> {
    match split_first(image, ':') {
        Some((alg, hex)) => if is_digest_algorithm_text(alg) {
            prefix_within_bytes(hex, SHORT_ID_BYTES as int)
        } else {
            image
        },
        None => image,
    }
}

/// The port column: every mapping rendered, joined by `, `.
pub open spec fn ports_text(ports: Seq<PortMappingView>) -> Seq<char> {
    joined(ports.map_values(|p: PortMappingView| port_text(p)), ", "@)
}

impl Container {
    /// First name, falling back to the short ID for an unnamed container.
    pub fn display_name(&self) -> (r: &str)
        ensures
            r@ == display_name_text(self@),
    {
        if self.names.len() > 0 {
            self.names[0].as_str()
        } else {
            self.id.short()
        }
    }

    /// The image column: a digest reference shortened the way `docker ps` does.
    /// A tag is left alone -- only a bare `algorithm:hex` reference is cut down.
    pub fn image_label(&self) -> (r: &str)
        ensures
            r@ == image_label_text(self.image@),
    {
        match split_once(self.image.as_str(), ':') {
            Some((alg, hex)) => {
                if is_digest_algorithm(alg) {
                    byte_prefix(hex, SHORT_ID_BYTES)
                } else {
                    self.image.as_str()
                }
            },
            None => self.image.as_str(),
        }
    }

    /// Comma-separated port list for the table cell.
    pub fn ports_summary(&self) -> (r: String)
        ensures
            r@ == ports_text(self@.ports),
    {
        let mut parts: Vec<String> = Vec::new();
        let mut i: usize = 0;
        while i < self.ports.len()
            invariant
                i <= self.ports.len(),
                parts@.len() == i,
                forall|j: int| 0 <= j < i ==> #[trigger] parts@[j]@ == port_text(
                    self.ports@[j]@,
                ),
            decreases self.ports.len() - i,
        {
            parts.push(self.ports[i].to_string());
            i = i + 1;
        }
        let r = join(&parts, ", ");
        assert(texts(parts@) =~= self@.ports.map_values(|p: PortMappingView| port_text(p)));
        r
    }
}

/// Distinguishes `sha256:abc...` (a digest reference) from `nginx:latest`
/// (a tag) -- both are `name:value` to a naive split.
pub fn is_digest_algorithm(alg: &str) -> (r: bool)
    ensures
        r == is_digest_algorithm_text(alg@),
{
    text_eq(alg, "sha256") || text_eq(alg, "sha512")
}

} // verus!
