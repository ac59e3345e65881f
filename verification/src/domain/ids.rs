use vstd::prelude::*;
use vstd::string::*;
use vstd::utf8::*;

use crate::text::{
    byte_prefix, lemma_ascii_prefix_within_bytes, lemma_first_index_exists, prefix_within_bytes,
    owned, split_first, split_once,
};

verus! {

/// Length of the short IDs `docker ps` and `docker images` print.
pub const SHORT_ID_BYTES: usize = 12;

/// The digest hex of an image ID: everything after the first `:`, or the whole
/// ID when there is no algorithm prefix.
pub open spec fn id_hex(s: Seq<char>) -> Seq<char> {
    match split_first(s, ':') {
        Some((_, hex)) => hex,
        None => s,
    }
}

/// The algorithm prefix of an image ID, when there is one.
pub open spec fn id_algorithm(s: Seq<char>) -> Option<Seq<char>> {
    match split_first(s, ':') {
        Some((alg, _)) => Some(alg),
        None => None,
    }
}

/// Full container ID as reported by the engine (64 hex chars in practice).
/// The field is private: the only way in is `From<String>`, at the engine boundary.
#[derive(Debug, Hash)]
pub struct ContainerId(String);

impl View for ContainerId {
    type V = Seq<char>;

    closed spec fn view(&self) -> Seq<char> {
        self.0@
    }
}

impl ContainerId {
    /// The 12-char prefix docker/podman print in `ps` output; a shorter ID is
    /// returned whole.
    pub fn short(&self) -> (r: &str)
        ensures
            r@ == prefix_within_bytes(self@, SHORT_ID_BYTES as int),
    {
        byte_prefix(self.0.as_str(), SHORT_ID_BYTES)
    }

    pub fn as_str(&self) -> (r: &str)
        ensures
            r@ == self@,
    {
        self.0.as_str()
    }

    /// The full ID, never truncated, so that errors and logs stay unambiguous.
    pub fn to_string(&self) -> (r: String)
        ensures
            r@ == self@,
    {
        owned(self.0.as_str())
    }
}

impl From<String> for ContainerId {
    fn from(s: String) -> (r: Self)
        ensures
            r@ == s@,
    {
        ContainerId(s)
    }
}

impl vstd::std_specs::convert::FromSpecImpl<String> for ContainerId {
    open spec fn obeys_from_spec() -> bool {
        true
    }

    closed spec fn from_spec(s: String) -> ContainerId {
        ContainerId(s)
    }
}

impl Clone for ContainerId {
    fn clone(&self) -> (r: Self)
        ensures
            r == *self,
    {
        ContainerId(self.0.clone())
    }
}

impl PartialEq for ContainerId {
    fn eq(&self, other: &Self) -> (r: bool) {
        self.0 == other.0
    }
}

impl vstd::std_specs::cmp::PartialEqSpecImpl for ContainerId {
    open spec fn obeys_eq_spec() -> bool {
        true
    }

    open spec fn eq_spec(&self, other: &ContainerId) -> bool {
        self@ == other@
    }
}

impl Eq for ContainerId {

}

/// Full image ID as the engine reports it, algorithm-prefixed:
/// `sha256:5d0da3dc9764...`. Stored verbatim, because that is the form the API
/// accepts back for inspect/remove; the prefix is stripped only for display.
#[derive(Debug, Hash)]
pub struct ImageId(String);

impl View for ImageId {
    type V = Seq<char>;

    closed spec fn view(&self) -> Seq<char> {
        self.0@
    }
}

impl ImageId {
    /// The 12 hex chars `docker images` prints under IMAGE ID.
    pub fn short(&self) -> (r: &str)
        ensures
            r@ == prefix_within_bytes(id_hex(self@), SHORT_ID_BYTES as int),
    {
        let hex = self.hex();
        byte_prefix(hex, SHORT_ID_BYTES)
    }

    /// Digest hex with any algorithm prefix removed. Degrades to the whole
    /// string when there is no prefix, so a bare hex ID still displays.
    pub fn hex(&self) -> (r: &str)
        ensures
            r@ == id_hex(self@),
    {
        match split_once(self.0.as_str(), ':') {
            Some((_, hex)) => hex,
            None => self.0.as_str(),
        }
    }

    /// The algorithm, when the ID carries one (`sha256`).
    pub fn algorithm(&self) -> (r: Option<&str>)
        ensures
            match r {
                Some(a) => id_algorithm(self@) == Some(a@),
                None => id_algorithm(self@) is None,
            },
    {
        match split_once(self.0.as_str(), ':') {
            Some((alg, _)) => Some(alg),
            None => None,
        }
    }

    pub fn as_str(&self) -> (r: &str)
        ensures
            r@ == self@,
    {
        self.0.as_str()
    }

    /// The full ID, prefix included, because the API wants it back that way.
    pub fn to_string(&self) -> (r: String)
        ensures
            r@ == self@,
    {
        owned(self.0.as_str())
    }
}

impl From<String> for ImageId {
    fn from(s: String) -> (r: Self)
        ensures
            r@ == s@,
    {
        ImageId(s)
    }
}

impl vstd::std_specs::convert::FromSpecImpl<String> for ImageId {
    open spec fn obeys_from_spec() -> bool {
        true
    }

    closed spec fn from_spec(s: String) -> ImageId {
        ImageId(s)
    }
}

impl Clone for ImageId {
    fn clone(&self) -> (r: Self)
        ensures
            r == *self,
    {
        ImageId(self.0.clone())
    }
}

impl PartialEq for ImageId {
    fn eq(&self, other: &Self) -> (r: bool) {
        self.0 == other.0
    }
}

impl vstd::std_specs::cmp::PartialEqSpecImpl for ImageId {
    open spec fn obeys_eq_spec() -> bool {
        true
    }

    open spec fn eq_spec(&self, other: &ImageId) -> bool {
        self@ == other@
    }
}

impl Eq for ImageId {

}

/// The hex part of an image ID is the ID's tail; for an ASCII ID, the short
/// form is the first twelve characters of that hex part (all of it when it is
/// shorter), so `sha256:5d0da3dc976460b7` shortens to `5d0da3dc9764`.
pub proof fn lemma_ascii_image_ids_shorten_to_twelve_hex_chars(id: Seq<char>)
    requires
        is_ascii_chars(id),
    ensures
        id_hex(id) == id.skip(id.len() - id_hex(id).len()),
        prefix_within_bytes(id_hex(id), SHORT_ID_BYTES as int) == id_hex(id).take(
            if id_hex(id).len() < 12 {
                id_hex(id).len() as int
            } else {
                12
            },
        ),
{
    let hex = id_hex(id);
    if id.contains(':') {
        lemma_first_index_exists(id, ':');
        let i = choose|i: int| crate::text::is_first_index(id, ':', i);
        assert(hex == id.skip(i + 1));
        assert(hex =~= id.skip(id.len() - hex.len()));
    } else {
        assert(hex =~= id.skip(0));
    }
    assert(is_ascii_chars(hex)) by {
        assert forall|j: int| 0 <= j < hex.len() implies '\0' <= #[trigger] hex[j] <= '\u{7f}' by {
            assert(hex[j] == id[id.len() - hex.len() + j]);
        }
    }
    lemma_ascii_prefix_within_bytes(hex, SHORT_ID_BYTES as int);
}

} // verus!
