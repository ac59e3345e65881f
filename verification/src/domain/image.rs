use std::collections::BTreeMap;

use vstd::prelude::*;
use vstd::string::*;

use super::ids::ImageId;
use super::time::Timestamp;
use crate::text::{contains_char, opt_text, owned, rsplit_once, split_last, text_eq, texts};

verus! {

/// A byte count. It renders the way docker/podman render sizes (decimal units,
/// four significant digits); that rendering works in floating point and lives
/// with the user interface.
#[derive(Debug, Clone, Copy, PartialEq, Eq, PartialOrd, Ord, Default, Hash, Structural)]
pub struct ByteSize(pub u64);

/// The abstract value of an [`ImageRef`].
pub struct ImageRefView {
    pub repository: Seq<char>,
    pub tag: Option<Seq<char>>,
}

/// How `ImageRef::parse` splits a repo-tag string: at the last `:`, unless a
/// `/` follows it (then the colon belongs to a registry port).
pub open spec fn parse_ref(s: Seq<char>) -> ImageRefView {
    match split_last(s, ':') {
        Some((repository, tag)) => if !tag.contains('/') {
            ImageRefView { repository: repository, tag: Some(tag) }
        } else {
            ImageRefView { repository: s, tag: None }
        },
        None => ImageRefView { repository: s, tag: None },
    }
}

/// `repository:tag`, or the bare repository when there is no tag.
pub open spec fn ref_text(r: ImageRefView) -> Seq<char> {
    match r.tag {
        Some(tag) => r.repository + ":"@ + tag,
        None => r.repository,
    }
}

/// A `repository[:tag]` reference.
#[derive(Debug)]
pub struct ImageRef {
    pub repository: String,
    pub tag: Option<String>,
}

impl View for ImageRef {
    type V = ImageRefView;

    open spec fn view(&self) -> ImageRefView {
        ImageRefView { repository: self.repository@, tag: opt_text(self.tag) }
    }
}

impl ImageRef {
    /// Splits a repo-tag string. The trailing colon only introduces a tag when
    /// no `/` follows it -- otherwise it is a registry port, as in
    /// `localhost:5000/team/app`.
    pub fn parse(s: &str) -> (r: ImageRef)
        ensures
            r@ == parse_ref(s@),
    {
        match rsplit_once(s, ':') {
            Some((repository, tag)) => {
                if !contains_char(tag, '/') {
                    ImageRef { repository: owned(repository), tag: Some(owned(tag)) }
                } else {
                    ImageRef { repository: owned(s), tag: None }
                }
            },
            None => ImageRef { repository: owned(s), tag: None },
        }
    }

    /// `repository:tag`, or the bare repository.
    pub fn to_string(&self) -> (r: String)
        ensures
            r@ == ref_text(self@),
    {
        match &self.tag {
            Some(tag) => {
                let mut out = owned(self.repository.as_str());
                out.append(":");
                out.append(tag.as_str());
                out
            },
            None => owned(self.repository.as_str()),
        }
    }
}

impl Clone for ImageRef {
    fn clone(&self) -> (r: Self)
        ensures
            r@ == self@,
    {
        ImageRef {
            repository: self.repository.clone(),
            tag: match &self.tag {
                Some(t) => Some(t.clone()),
                None => None,
            },
        }
    }
}

impl PartialEq for ImageRef {
    fn eq(&self, other: &Self) -> (r: bool) {
        text_eq(self.repository.as_str(), other.repository.as_str()) && match (
            &self.tag,
            &other.tag,
        ) {
            (Some(a), Some(b)) => text_eq(a.as_str(), b.as_str()),
            (None, None) => true,
            _ => false,
        }
    }
}

impl vstd::std_specs::cmp::PartialEqSpecImpl for ImageRef {
    open spec fn obeys_eq_spec() -> bool {
        true
    }

    open spec fn eq_spec(&self, other: &ImageRef) -> bool {
        self@ == other@
    }
}

impl Eq for ImageRef {

}

/// Parsing and rendering a reference are inverse: rendering what `parse`
/// made of any string gives back that string.
pub proof fn lemma_parse_then_render_is_identity(s: Seq<char>)
    ensures
        ref_text(parse_ref(s)) == s,
{
    reveal_strlit(":");
    match split_last(s, ':') {
        Some((repository, tag)) => {
            crate::text::lemma_last_index_exists(s, ':');
            let i = choose|i: int| crate::text::is_last_index(s, ':', i);
            if !tag.contains('/') {
                assert(s.take(i) + ":"@ + s.skip(i + 1) =~= s);
            }
        },
        None => {},
    }
}

/// The views of a sequence of image references.
pub open spec fn ref_views(refs: Seq<ImageRef>) -> Seq<ImageRefView> {
    refs.map_values(|r: ImageRef| r@)
}

/// The abstract value of an [`Image`], labels aside.
pub struct ImageView {
    pub id: Seq<char>,
    pub repo_tags: Seq<ImageRefView>,
    pub repo_digests: Seq<Seq<char>>,
    pub created: Timestamp,
    pub size: ByteSize,
    pub shared_size: Option<ByteSize>,
    pub containers: Option<i64>,
}

/// An image as the list endpoint describes it.
#[derive(Debug)]
pub struct Image {
    pub id: ImageId,
    /// Empty for a dangling image. `<none>:<none>` entries are dropped at the
    /// engine boundary rather than carried in here.
    pub repo_tags: Vec<ImageRef>,
    pub repo_digests: Vec<String>,
    pub created: Timestamp,
    pub size: ByteSize,
    /// `None` when the engine did not compute it (the API sends `-1`).
    pub shared_size: Option<ByteSize>,
    /// How many containers use this image; `None` when not computed (`-1`).
    pub containers: Option<i64>,
    pub labels: BTreeMap<String, String>,
}

impl View for Image {
    type V = ImageView;

    open spec fn view(&self) -> ImageView {
        ImageView {
            id: self.id@,
            repo_tags: ref_views(self.repo_tags@),
            repo_digests: texts(self.repo_digests@),
            created: self.created,
            size: self.size,
            shared_size: self.shared_size,
            containers: self.containers,
        }
    }
}

/// The REPOSITORY:TAG column: the first tag, or `<none>` for a dangling image.
pub open spec fn name_label_text(i: ImageView) -> Seq<char> {
    if i.repo_tags.len() > 0 {
        ref_text(i.repo_tags[0])
    } else {
        "<none>"@
    }
}

impl Image {
    /// No tags left: the image is only reachable by ID.
    pub fn is_dangling(&self) -> (r: bool)
        ensures
            r == (self.repo_tags@.len() == 0),
    {
        self.repo_tags.len() == 0
    }

    /// The tag shown in the REPOSITORY:TAG column.
    pub fn primary_ref(&self) -> (r: Option<&ImageRef>)
        ensures
            match r {
                Some(t) => self.repo_tags@.len() > 0 && *t == self.repo_tags@[0],
                None => self.repo_tags@.len() == 0,
            },
    {
        if self.repo_tags.len() > 0 {
            Some(&self.repo_tags[0])
        } else {
            None
        }
    }

    /// Column text, `<none>` for a dangling image -- matching `docker images`.
    pub fn name_label(&self) -> (r: String)
        ensures
            r@ == name_label_text(self@),
    {
        match self.primary_ref() {
            Some(t) => t.to_string(),
            None => owned("<none>"),
        }
    }

    /// Tags beyond the primary one, so the UI can hint `+2 more`.
    pub fn extra_tag_count(&self) -> (r: usize)
        ensures
            r == if self.repo_tags@.len() > 0 {
                self.repo_tags@.len() - 1
            } else {
                0
            },
    {
        self.repo_tags.len().saturating_sub(1)
    }

    /// Whether any container uses it; `None` when the engine did not say.
    pub fn is_in_use(&self) -> (r: Option<bool>)
        ensures
            r == match self.containers {
                Some(count) => Some(count > 0),
                None => None::<bool>,
            },
    {
        match self.containers {
            Some(count) => Some(count > 0),
            None => None,
        }
    }
}

} // verus!
