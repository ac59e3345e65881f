//! How the engine's list entries become domain values. The entries arrive as
//! plain values, field for field what the list endpoints return.
use std::collections::BTreeMap;

use vstd::prelude::*;
use vstd::string::*;

use crate::domain::container::{port_views, PortMappingView};
use crate::domain::image::{parse_ref, ref_views, ImageRefView};
use crate::domain::time::{chrono_can_represent, chrono_represents};
use crate::domain::{
    ByteSize, Container, ContainerId, ContainerState, Image, ImageId, ImageRef, PortMapping,
    Protocol, Timestamp,
};
use crate::text::{has_prefix, opt_text, owned, starts_with, texts};

verus! {

/// A container state as the list endpoint spells it; `Empty` is the API's
/// empty value.
#[derive(Debug, Clone, Copy, PartialEq, Eq, Structural)]
pub enum ApiContainerState {
    Empty,
    Created,
    Running,
    Paused,
    Restarting,
    Exited,
    Removing,
    Dead,
}

/// A port type as the list endpoint spells it; `Empty` is the API's empty value.
#[derive(Debug, Clone, Copy, PartialEq, Eq, Structural)]
pub enum ApiPortType {
    Empty,
    Tcp,
    Udp,
    Sctp,
}

/// One entry of a container's port list, as the engine reported it.
#[derive(Debug)]
pub struct PortSummary {
    /// The host address as the engine wrote it.
    pub ip: Option<String>,
    pub private_port: u16,
    pub public_port: Option<u16>,
    pub typ: Option<ApiPortType>,
}

/// One entry of the container list, as the engine reported it.
#[derive(Debug)]
pub struct ContainerSummary {
    pub id: Option<String>,
    pub names: Option<Vec<String>>,
    pub image: Option<String>,
    pub image_id: Option<String>,
    pub command: Option<String>,
    pub created: Option<i64>,
    pub state: Option<ApiContainerState>,
    pub status: Option<String>,
    pub ports: Option<Vec<PortSummary>>,
    pub labels: Option<BTreeMap<String, String>>,
}

/// One entry of the image list, as the engine reported it.
#[derive(Debug)]
pub struct ImageSummary {
    pub id: String,
    pub repo_tags: Vec<String>,
    pub repo_digests: Vec<String>,
    pub created: i64,
    pub size: i64,
    pub shared_size: i64,
    pub containers: i64,
    pub labels: BTreeMap<String, String>,
}

/// The domain state for an API state.
pub open spec fn state_of(raw: Option<ApiContainerState>) -> ContainerState {
    match raw {
        Some(ApiContainerState::Created) => ContainerState::Created,
        Some(ApiContainerState::Running) => ContainerState::Running,
        Some(ApiContainerState::Paused) => ContainerState::Paused,
        Some(ApiContainerState::Restarting) => ContainerState::Restarting,
        Some(ApiContainerState::Exited) => ContainerState::Exited,
        Some(ApiContainerState::Removing) => ContainerState::Removing,
        Some(ApiContainerState::Dead) => ContainerState::Dead,
        Some(ApiContainerState::Empty) | None => ContainerState::Unknown,
    }
}

/// The domain protocol for an API port type: absent or empty means tcp.
pub open spec fn protocol_of_type(raw: Option<ApiPortType>) -> Protocol {
    match raw {
        Some(ApiPortType::Udp) => Protocol::Udp,
        Some(ApiPortType::Sctp) => Protocol::Sctp,
        _ => Protocol::Tcp,
    }
}

/// The canonical text of the IP address that `s` spells (as the address type
/// writes itself back out), or `None` when `s` is not an IP address.
pub uninterp spec fn ip_address_text(s: Seq<char>) -> Option<Seq<char>>;

/// Reads `s` with `str::parse::<IpAddr>` and writes the address back out with
/// its `to_string`; `None` when the parse fails. The result depends on `s`
/// alone and is named `ip_address_text(s)`; which texts are addresses, and
/// their canonical spelling, are not restated.
#[verifier::external_body]
pub(crate) fn canonical_ip(s: &str) -> (r: Option<String>)
    ensures
        opt_text(r) == ip_address_text(s@),
{
    match s.parse::<core::net::IpAddr>() {
        Ok(ip) => Some(ip.to_string()),
        Err(_) => None,
    }
}

/// The host address a port entry keeps: its canonical text, and none when the
/// engine sent none or sent something that is not an IP address (the mapping
/// stays published).
pub open spec fn host_ip_of(raw: Option<String>) -> Option<Seq<char>> {
    match raw {
        Some(text) => ip_address_text(text@),
        None => None,
    }
}

/// The mapping a port entry becomes.
pub open spec fn port_of(raw: PortSummary) -> PortMappingView {
    PortMappingView {
        host_ip: host_ip_of(raw.ip),
        host_port: raw.public_port,
        container_port: raw.private_port,
        protocol: protocol_of_type(raw.typ),
    }
}

/// The mappings a port list becomes, in the engine's order.
pub open spec fn ports_of(raw: Seq<PortSummary>) -> Seq<PortMappingView> {
    raw.map_values(|p: PortSummary| port_of(p))
}

/// `a` sorts strictly before `b`: by container port, then protocol.
pub open spec fn port_key_lt(a: PortMappingView, b: PortMappingView) -> bool {
    a.container_port < b.container_port || (a.container_port == b.container_port
        && a.protocol.rank() < b.protocol.rank())
}

/// `a` and `b` have the same sort key.
pub open spec fn same_port_key(a: PortMappingView, b: PortMappingView) -> bool {
    a.container_port == b.container_port && a.protocol == b.protocol
}

/// The entries with the same key as `p`.
pub open spec fn key_class(p: PortMappingView) -> spec_fn(PortMappingView) -> bool {
    |q: PortMappingView| same_port_key(q, p)
}

/// `s` is in key order.
pub open spec fn sorted_by_port(s: Seq<PortMappingView>) -> bool {
    forall|i: int, j: int| 0 <= i < j < s.len() ==> !port_key_lt(#[trigger] s[j], #[trigger] s[i])
}

/// `out` is `inp` sorted stably by key: in key order, and holding for every key
/// exactly the entries of `inp` with that key, in their original order.
pub open spec fn stably_sorted_from(out: Seq<PortMappingView>, inp: Seq<PortMappingView>) -> bool {
    &&& sorted_by_port(out)
    &&& forall|p: PortMappingView|
        #[trigger] out.filter(key_class(p)) == inp.filter(
            key_class(p),
        )
}

/// `s` with runs of equal adjacent entries collapsed to one.
pub open spec fn dedup_adjacent(s: Seq<PortMappingView>) -> Seq<PortMappingView>
    decreases s.len(),
{
    if s.len() <= 1 {
        s
    } else if s.last() == s[s.len() - 2] {
        dedup_adjacent(s.drop_last())
    } else {
        dedup_adjacent(s.drop_last()).push(s.last())
    }
}

/// Number of leading `/` characters of `s`.
pub open spec fn leading_slashes(s: Seq<char>) -> int
    decreases s.len(),
{
    if s.len() > 0 && s[0] == '/' {
        1 + leading_slashes(s.drop_first())
    } else {
        0
    }
}

/// `s` without its leading `/` characters (`trim_start_matches('/')`).
pub open spec fn without_leading_slashes(s: Seq<char>) -> Seq<char> {
    s.skip(leading_slashes(s))
}

/// The names of an entry, each without its historic leading `/`.
pub open spec fn names_of(raw: Option<Vec<String>>) -> Seq<Seq<char>> {
    match raw {
        Some(v) => texts(v@).map_values(|n: Seq<char>| without_leading_slashes(n)),
        None => seq![],
    }
}

/// The text of an optional field, empty when absent.
pub open spec fn text_or_empty(o: Option<String>) -> Seq<char> {
    match o {
        Some(s) => s@,
        None => seq![],
    }
}

/// The instant `secs` after the epoch, or the epoch when chrono cannot
/// represent it.
pub open spec fn instant_or_epoch(secs: i64) -> Timestamp {
    if chrono_represents(secs) {
        Timestamp { secs, nanos: 0 }
    } else {
        Timestamp { secs: 0, nanos: 0 }
    }
}

/// An API counter: `None` for the `-1` (or any negative) the API sends when it
/// did not compute the value.
pub open spec fn counter(v: i64) -> Option<i64> {
    if v >= 0 {
        Some(v)
    } else {
        None
    }
}

/// `<none>:<none>` and `<none>@<none>` are the API's way of saying "untagged".
pub open spec fn placeholder(reference: Seq<char>) -> bool {
    has_prefix(reference, "<none>"@)
}

/// Epoch seconds to a timestamp, clamping nonsense to the epoch rather than
/// dropping a row over a cosmetic field.
pub fn timestamp(secs: i64) -> (t: Timestamp)
    ensures
        t == instant_or_epoch(secs),
{
    if chrono_can_represent(secs) {
        Timestamp::from_secs(secs)
    } else {
        Timestamp::unix_epoch()
    }
}

/// The API sends `-1` for counters it did not compute.
pub fn computed(value: i64) -> (r: Option<i64>)
    ensures
        r == counter(value),
{
    if value >= 0 {
        Some(value)
    } else {
        None
    }
}

/// Whether a tag or digest is the API's untagged placeholder.
pub fn is_placeholder(reference: &str) -> (r: bool)
    ensures
        r == placeholder(reference@),
{
    starts_with(reference, "<none>")
}

fn state(raw: Option<ApiContainerState>) -> (r: ContainerState)
    ensures
        r == state_of(raw),
{
    match raw {
        Some(ApiContainerState::Created) => ContainerState::Created,
        Some(ApiContainerState::Running) => ContainerState::Running,
        Some(ApiContainerState::Paused) => ContainerState::Paused,
        Some(ApiContainerState::Restarting) => ContainerState::Restarting,
        Some(ApiContainerState::Exited) => ContainerState::Exited,
        Some(ApiContainerState::Removing) => ContainerState::Removing,
        Some(ApiContainerState::Dead) => ContainerState::Dead,
        Some(ApiContainerState::Empty) | None => ContainerState::Unknown,
    }
}

fn protocol(raw: Option<ApiPortType>) -> (r: Protocol)
    ensures
        r == protocol_of_type(raw),
{
    match raw {
        Some(ApiPortType::Udp) => Protocol::Udp,
        Some(ApiPortType::Sctp) => Protocol::Sctp,
        _ => Protocol::Tcp,
    }
}

fn port(raw: PortSummary) -> (r: PortMapping)
    ensures
        r@ == port_of(raw),
{
    let host_ip = match &raw.ip {
        Some(text) => canonical_ip(text.as_str()),
        None => None,
    };
    PortMapping {
        host_ip,
        host_port: raw.public_port,
        container_port: raw.private_port,
        protocol: protocol(raw.typ),
    }
}

fn strip_leading_slashes(s: &str) -> (r: String)
    ensures
        r@ == without_leading_slashes(s@),
{
    let n = s.unicode_len();
    let mut i: usize = 0;
    assert(s@.skip(0) =~= s@);
    while i < n && s.get_char(i) == '/'
        invariant
            n == s@.len(),
            i <= n,
            forall|j: int| 0 <= j < i ==> s@[j] == '/',
            leading_slashes(s@) == i + leading_slashes(s@.skip(i as int)),
        decreases n - i,
    {
        proof {
            let rest = s@.skip(i as int);
            assert(rest.drop_first() =~= s@.skip(i + 1));
        }
        i = i + 1;
    }
    proof {
        let rest = s@.skip(i as int);
        if i < n {
            assert(rest[0] == s@[i as int]);
        }
    }
    owned(s.substring_char(i, n))
}

fn port_key_before(a: &PortMapping, b: &PortMapping) -> (r: bool)
    ensures
        r == port_key_lt(a@, b@),
{
    a.container_port < b.container_port || (a.container_port == b.container_port
        && a.protocol.order_index() < b.protocol.order_index())
}

proof fn lemma_no_key_match_filters_to_nothing(s: Seq<PortMappingView>, p: PortMappingView)
    requires
        forall|i: int| 0 <= i < s.len() ==> !same_port_key(#[trigger] s[i], p),
    ensures
        s.filter(key_class(p)) == Seq::<PortMappingView>::empty(),
{
    let f = key_class(p);
    assert forall|i: int| 0 <= i < s.len() implies !f(#[trigger] s[i]) by {}
    assert(s.all(|x: PortMappingView| !f(x)));
    s.lemma_all_neg_filter_empty(f);
    assert(s.filter(f) =~= Seq::<PortMappingView>::empty());
}

/// Inserting `x` after every entry whose key is not above its own keeps a
/// stable sort stable.
proof fn lemma_insert_keeps_stable_sort(
    out: Seq<PortMappingView>,
    inp: Seq<PortMappingView>,
    x: PortMappingView,
    pos: int,
)
    requires
        stably_sorted_from(out, inp),
        0 <= pos <= out.len(),
        forall|k: int| 0 <= k < pos ==> !port_key_lt(x, #[trigger] out[k]),
        forall|k: int| pos <= k < out.len() ==> port_key_lt(x, #[trigger] out[k]),
    ensures
        stably_sorted_from(out.insert(pos, x), inp.push(x)),
{
    let new = out.insert(pos, x);
    let a = out.take(pos);
    let b = out.skip(pos);
    assert(out =~= a + b);
    assert(new =~= a + seq![x] + b);
    assert forall|i: int, j: int| 0 <= i < j < new.len() implies !port_key_lt(
        #[trigger] new[j],
        #[trigger] new[i],
    ) by {
        if j < pos {
            assert(new[i] == out[i] && new[j] == out[j]);
        } else if j == pos {
            assert(new[i] == out[i]);
        } else if i < pos {
            assert(new[i] == out[i] && new[j] == out[j - 1]);
        } else if i == pos {
            assert(new[j] == out[j - 1]);
        } else {
            assert(new[i] == out[i - 1] && new[j] == out[j - 1]);
        }
    }
    assert forall|p: PortMappingView| #[trigger]
        new.filter(key_class(p)) == inp.push(x).filter(
            key_class(p),
        ) by {
        let f = key_class(p);
        assert(out.filter(f) == inp.filter(f));
        Seq::filter_distributes_over_add(a, b, f);
        Seq::filter_distributes_over_add(a + seq![x], b, f);
        Seq::filter_distributes_over_add(a, seq![x], f);
        inp.lemma_filter_push(x, f);
        Seq::<PortMappingView>::empty().lemma_filter_push(x, f);
        assert(seq![x] =~= Seq::<PortMappingView>::empty().push(x));
        assert(Seq::<PortMappingView>::empty().filter(f) =~= Seq::<PortMappingView>::empty());
        if f(x) {
            assert forall|i: int| 0 <= i < b.len() implies !same_port_key(#[trigger] b[i], p) by {
                assert(b[i] == out[pos + i]);
            }
            lemma_no_key_match_filters_to_nothing(b, p);
            assert(new.filter(f) =~= a.filter(f) + seq![x]);
            assert(out.filter(f) =~= a.filter(f));
        } else {
            assert(new.filter(f) =~= a.filter(f) + b.filter(f));
        }
    }
}

/// Sorts by container port then protocol, keeping the engine's order among
/// equal keys.
fn sort_ports(ports: Vec<PortMapping>) -> (r: Vec<PortMapping>)
    ensures
        stably_sorted_from(port_views(r@), port_views(ports@)),
{
    let mut out: Vec<PortMapping> = Vec::new();
    let mut i: usize = 0;
    proof {
        assert(port_views(ports@).take(0) =~= Seq::<PortMappingView>::empty());
        assert forall|p: PortMappingView| #[trigger]
            port_views(out@).filter(key_class(p)) == port_views(
                ports@,
            ).take(0).filter(key_class(p)) by {
            assert(port_views(out@) =~= Seq::<PortMappingView>::empty());
            assert(Seq::<PortMappingView>::empty().filter(
                key_class(p),
            ) =~= Seq::<PortMappingView>::empty());
        }
    }
    while i < ports.len()
        invariant
            i <= ports@.len(),
            stably_sorted_from(port_views(out@), port_views(ports@).take(i as int)),
        decreases ports@.len() - i,
    {
        let x = ports[i].clone();
        let ghost before = port_views(out@);
        let mut pos: usize = 0;
        while pos < out.len() && !port_key_before(&x, &out[pos])
            invariant
                pos <= out@.len(),
                before == port_views(out@),
                sorted_by_port(before),
                forall|k: int| 0 <= k < pos ==> !port_key_lt(x@, #[trigger] before[k]),
            decreases out@.len() - pos,
        {
            assert(before[pos as int] == out@[pos as int]@);
            pos = pos + 1;
        }
        proof {
            if pos < out@.len() {
                assert(before[pos as int] == out@[pos as int]@);
                assert(port_key_lt(x@, before[pos as int]));
            }
            assert forall|k: int| pos <= k < before.len() implies port_key_lt(
                x@,
                #[trigger] before[k],
            ) by {
                if k > pos {
                    assert(!port_key_lt(before[k], before[pos as int]));
                }
            }
            lemma_insert_keeps_stable_sort(
                before,
                port_views(ports@).take(i as int),
                x@,
                pos as int,
            );
            assert(port_views(ports@).take(i as int).push(x@) =~= port_views(ports@).take(
                i + 1,
            ));
        }
        out.insert(pos, x);
        proof {
            assert(port_views(out@) =~= before.insert(pos as int, x@));
        }
        i = i + 1;
    }
    proof {
        assert(port_views(ports@).take(ports@.len() as int) =~= port_views(ports@));
    }
    out
}

/// Drops each entry equal to the one before it.
fn dedup_ports(sorted: Vec<PortMapping>) -> (r: Vec<PortMapping>)
    ensures
        port_views(r@) == dedup_adjacent(port_views(sorted@)),
{
    let ghost s = port_views(sorted@);
    let mut out: Vec<PortMapping> = Vec::new();
    let mut i: usize = 0;
    while i < sorted.len()
        invariant
            i <= sorted@.len(),
            s == port_views(sorted@),
            port_views(out@) == dedup_adjacent(s.take(i as int)),
        decreases sorted@.len() - i,
    {
        let ghost t = s.take(i + 1);
        assert(t.drop_last() =~= s.take(i as int));
        assert(t.last() == sorted@[i as int]@);
        let repeat = i > 0 && sorted[i] == sorted[i - 1];
        if i > 0 {
            assert(t[t.len() - 2] == sorted@[i - 1]@);
        }
        if !repeat {
            let ghost d = port_views(out@);
            out.push(sorted[i].clone());
            assert(port_views(out@) =~= d.push(sorted@[i as int]@));
            if i == 0 {
                assert(port_views(out@) =~= t);
            }
        }
        i = i + 1;
    }
    assert(s.take(sorted@.len() as int) =~= s);
    out
}

/// Maps one list entry. `None` when the entry has no ID: it could not be
/// addressed for any action, so it is dropped rather than failing the refresh.
pub fn container(summary: ContainerSummary) -> (r: Option<Container>)
    ensures
        summary.id is None ==> r is None,
        summary.id matches Some(id) ==> r matches Some(c) && {
            &&& c@.id == id@
            &&& c@.names == names_of(summary.names)
            &&& c@.image == text_or_empty(summary.image)
            &&& c@.image_id == text_or_empty(summary.image_id)
            &&& c@.command == text_or_empty(summary.command)
            &&& c@.created == instant_or_epoch(
                match summary.created {
                    Some(t) => t,
                    None => 0,
                },
            )
            &&& c@.state == state_of(summary.state)
            &&& c@.status_text == text_or_empty(summary.status)
            &&& exists|sorted: Seq<PortMappingView>|
                stably_sorted_from(
                    sorted,
                    match summary.ports {
                        Some(p) => ports_of(p@),
                        None => seq![],
                    },
                ) && c@.ports == dedup_adjacent(sorted)
            &&& summary.labels matches Some(l) ==> c.labels == l
            &&& summary.labels is None ==> c.labels@ == Map::<String, String>::empty()
        },
{
    let id = match summary.id {
        Some(id) => ContainerId::from(id),
        None => {
            return None;
        },
    };
    let raw_ports = match summary.ports {
        Some(p) => p,
        None => Vec::new(),
    };
    let mut mapped: Vec<PortMapping> = Vec::new();
    let mut raw_ports = raw_ports;
    let ghost raw_view = raw_ports@;
    assert(raw_view =~= match summary.ports {
        Some(p) => p@,
        None => Seq::<PortSummary>::empty(),
    });
    // Consume from the back, then restore the engine's order.
    while raw_ports.len() > 0
        invariant
            raw_ports@.len() + mapped@.len() == raw_view.len(),
            raw_ports@ == raw_view.take(raw_ports@.len() as int),
            port_views(mapped@) == ports_of(raw_view.skip(raw_ports@.len() as int)),
        decreases raw_ports@.len(),
    {
        let n = raw_ports.len();
        let last = raw_ports.pop().unwrap();
        assert(last == raw_view[n - 1]);
        let ghost before = port_views(mapped@);
        mapped.insert(0, port(last));
        proof {
            assert(raw_view.skip(n - 1) =~= seq![raw_view[n - 1]] + raw_view.skip(n as int));
            assert(port_views(mapped@) =~= seq![port_of(raw_view[n - 1])] + before);
            assert(ports_of(raw_view.skip(n - 1)) =~= seq![port_of(raw_view[n - 1])] + ports_of(
                raw_view.skip(n as int),
            ));
            assert(raw_ports@ =~= raw_view.take(n - 1));
        }
    }
    assert(raw_view.skip(0) =~= raw_view);
    assert(ports_of(raw_view) =~= match summary.ports {
        Some(p) => ports_of(p@),
        None => seq![],
    });
    // Sorted by the container-side port, not by the derived field order, so a
    // published low port stays above an unpublished high one. Both engines
    // repeat a mapping per address family, hence the dedup.
    let sorted = sort_ports(mapped);
    let ports = dedup_ports(sorted);
    let mut names: Vec<String> = Vec::new();
    match summary.names {
        Some(raw_names) => {
            let mut k: usize = 0;
            while k < raw_names.len()
                invariant
                    k <= raw_names@.len(),
                    texts(names@) == texts(raw_names@).take(k as int).map_values(
                        |n: Seq<char>| without_leading_slashes(n),
                    ),
                decreases raw_names@.len() - k,
            {
                let ghost before = texts(names@);
                names.push(strip_leading_slashes(raw_names[k].as_str()));
                proof {
                    assert(texts(names@) =~= before.push(without_leading_slashes(raw_names@[k as int]@)));
                    assert(texts(raw_names@).take(k + 1) =~= texts(raw_names@).take(k as int).push(
                        raw_names@[k as int]@,
                    ));
                    assert(texts(raw_names@).take(k + 1).map_values(
                        |n: Seq<char>| without_leading_slashes(n),
                    ) =~= texts(raw_names@).take(k as int).map_values(
                        |n: Seq<char>| without_leading_slashes(n),
                    ).push(without_leading_slashes(raw_names@[k as int]@)));
                }
                k = k + 1;
            }
            assert(texts(raw_names@).take(raw_names@.len() as int) =~= texts(raw_names@));
        },
        None => {
            assert(texts(names@) =~= seq![]);
        },
    }
    let image = match summary.image {
        Some(s) => s,
        None => String::new(),
    };
    let image_id = match summary.image_id {
        Some(s) => ImageId::from(s),
        None => ImageId::from(String::new()),
    };
    let command = match summary.command {
        Some(s) => s,
        None => String::new(),
    };
    let created = timestamp(
        match summary.created {
            Some(t) => t,
            None => 0,
        },
    );
    let status_text = match summary.status {
        Some(s) => s,
        None => String::new(),
    };
    let labels = match summary.labels {
        Some(l) => l,
        None => BTreeMap::new(),
    };
    let c = Container {
        id,
        names,
        image,
        image_id,
        command,
        created,
        state: state(summary.state),
        status_text,
        ports,
        labels,
    };
    proof {
        let sorted_view = port_views(sorted@);
        assert(stably_sorted_from(
            sorted_view,
            match summary.ports {
                Some(p) => ports_of(p@),
                None => seq![],
            },
        ));
    }
    Some(c)
}

/// The tags an image keeps: every non-placeholder tag, parsed, in order.
pub open spec fn kept_tags(raw: Seq<String>) -> Seq<ImageRefView> {
    texts(raw).filter(|t: Seq<char>| !placeholder(t)).map_values(|t: Seq<char>| parse_ref(t))
}

/// The digests an image keeps: every non-placeholder digest, in order.
pub open spec fn kept_digests(raw: Seq<String>) -> Seq<Seq<char>> {
    texts(raw).filter(|t: Seq<char>| !placeholder(t))
}

/// Maps one image list entry.
pub fn image(summary: ImageSummary) -> (r: Image)
    ensures
        r@.id == summary.id@,
        r@.repo_tags == kept_tags(summary.repo_tags@),
        r@.repo_digests == kept_digests(summary.repo_digests@),
        r@.created == instant_or_epoch(summary.created),
        r@.size == ByteSize(
            if summary.size >= 0 {
                summary.size as u64
            } else {
                0
            },
        ),
        r@.shared_size == match counter(summary.shared_size) {
            Some(v) => Some(ByteSize(v as u64)),
            None => None::<ByteSize>,
        },
        r@.containers == counter(summary.containers),
        r.labels == summary.labels,
{
    let ghost keep = |t: Seq<char>| !placeholder(t);
    let mut tags: Vec<ImageRef> = Vec::new();
    let mut i: usize = 0;
    while i < summary.repo_tags.len()
        invariant
            i <= summary.repo_tags@.len(),
            keep == (|t: Seq<char>| !placeholder(t)),
            ref_views(tags@) == texts(summary.repo_tags@).take(i as int).filter(keep).map_values(
                |t: Seq<char>| parse_ref(t),
            ),
        decreases summary.repo_tags@.len() - i,
    {
        let ghost all = texts(summary.repo_tags@);
        let ghost before = ref_views(tags@);
        proof {
            all.take(i as int).lemma_filter_push(all[i as int], keep);
            assert(all.take(i as int).push(all[i as int]) =~= all.take(i + 1));
        }
        if !is_placeholder(summary.repo_tags[i].as_str()) {
            tags.push(ImageRef::parse(summary.repo_tags[i].as_str()));
            proof {
                assert(ref_views(tags@) =~= before.push(parse_ref(all[i as int])));
                assert(all.take(i + 1).filter(keep).map_values(|t: Seq<char>| parse_ref(t))
                    =~= all.take(i as int).filter(keep).map_values(|t: Seq<char>| parse_ref(t)).push(
                    parse_ref(all[i as int]),
                ));
            }
        }
        i = i + 1;
    }
    assert(texts(summary.repo_tags@).take(summary.repo_tags@.len() as int) =~= texts(
        summary.repo_tags@,
    ));
    let mut digests: Vec<String> = Vec::new();
    let mut k: usize = 0;
    while k < summary.repo_digests.len()
        invariant
            k <= summary.repo_digests@.len(),
            keep == (|t: Seq<char>| !placeholder(t)),
            texts(digests@) == texts(summary.repo_digests@).take(k as int).filter(keep),
        decreases summary.repo_digests@.len() - k,
    {
        let ghost all = texts(summary.repo_digests@);
        let ghost before = texts(digests@);
        proof {
            all.take(k as int).lemma_filter_push(all[k as int], keep);
            assert(all.take(k as int).push(all[k as int]) =~= all.take(k + 1));
        }
        if !is_placeholder(summary.repo_digests[k].as_str()) {
            digests.push(owned(summary.repo_digests[k].as_str()));
            proof {
                assert(texts(digests@) =~= before.push(all[k as int]));
            }
        }
        k = k + 1;
    }
    assert(texts(summary.repo_digests@).take(summary.repo_digests@.len() as int) =~= texts(
        summary.repo_digests@,
    ));
    let size = if summary.size >= 0 {
        summary.size as u64
    } else {
        0
    };
    let shared_size = match computed(summary.shared_size) {
        Some(v) => Some(ByteSize(v as u64)),
        None => None,
    };
    Image {
        id: ImageId::from(summary.id),
        repo_tags: tags,
        repo_digests: digests,
        created: timestamp(summary.created),
        size: ByteSize(size),
        shared_size,
        containers: computed(summary.containers),
        labels: summary.labels,
    }
}


/// What collapsing runs keeps: a non-empty input gives a non-empty result that
/// ends with the input's last entry, and every kept entry comes from the input
/// at a position no earlier than its own.
proof fn lemma_dedup_draws_from_input(s: Seq<PortMappingView>)
    ensures
        dedup_adjacent(s).len() <= s.len(),
        s.len() > 0 ==> dedup_adjacent(s).len() > 0 && dedup_adjacent(s).last() == s.last(),
        forall|k: int|
            0 <= k < dedup_adjacent(s).len() ==> exists|j: int|
                k <= j < s.len() && #[trigger] dedup_adjacent(s)[k] == s[j],
    decreases s.len(),
{
    if s.len() > 1 {
        let d = s.drop_last();
        lemma_dedup_draws_from_input(d);
        let dd = dedup_adjacent(d);
        assert forall|k: int| 0 <= k < dedup_adjacent(s).len() implies exists|j: int|
            k <= j < s.len() && #[trigger] dedup_adjacent(s)[k] == s[j] by {
            if k < dd.len() {
                let j = choose|j: int| k <= j < d.len() && #[trigger] dd[k] == d[j];
                assert(dedup_adjacent(s)[k] == s[j]);
            } else {
                assert(dedup_adjacent(s)[k] == s[s.len() - 1]);
            }
        }
    }
}

/// The port column is in key order and never shows one mapping twice in a
/// row: collapsing runs of a key-sorted list keeps it sorted and leaves no two
/// equal neighbours. (Both engines repeat a mapping per address family.)
pub proof fn lemma_port_column_is_sorted_without_repeats(s: Seq<PortMappingView>)
    requires
        sorted_by_port(s),
    ensures
        sorted_by_port(dedup_adjacent(s)),
        forall|i: int|
            0 <= i < dedup_adjacent(s).len() - 1 ==> #[trigger] dedup_adjacent(s)[i]
                != dedup_adjacent(s)[i + 1],
    decreases s.len(),
{
    if s.len() > 1 {
        let d = s.drop_last();
        assert(sorted_by_port(d)) by {
            assert forall|i: int, j: int| 0 <= i < j < d.len() implies !port_key_lt(
                #[trigger] d[j],
                #[trigger] d[i],
            ) by {
                assert(d[i] == s[i] && d[j] == s[j]);
            }
        }
        lemma_port_column_is_sorted_without_repeats(d);
        lemma_dedup_draws_from_input(d);
        let dd = dedup_adjacent(d);
        if s.last() != s[s.len() - 2] {
            let r = dedup_adjacent(s);
            assert(r == dd.push(s.last()));
            assert forall|i: int, j: int| 0 <= i < j < r.len() implies !port_key_lt(
                #[trigger] r[j],
                #[trigger] r[i],
            ) by {
                if j < dd.len() {
                    assert(r[i] == dd[i] && r[j] == dd[j]);
                } else {
                    let w = choose|w: int| i <= w < d.len() && #[trigger] dd[i] == d[w];
                    assert(r[i] == s[w]);
                    assert(r[j] == s[s.len() - 1]);
                }
            }
            assert forall|i: int| 0 <= i < r.len() - 1 implies #[trigger] r[i] != r[i + 1] by {
                if i + 1 < dd.len() {
                    assert(r[i] == dd[i] && r[i + 1] == dd[i + 1]);
                } else {
                    assert(r[i] == dd.last());
                    assert(dd.last() == d.last());
                }
            }
        }
    }
}

} // verus!
