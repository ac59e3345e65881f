//! Matching rows against a search query.
use vstd::prelude::*;
use vstd::string::*;

use crate::domain::container::ContainerView;
use crate::domain::ids::id_hex;
use crate::domain::image::{ref_text, ImageView};
use crate::domain::{Container, Image};
use crate::text::{
    ascii_lower, contains_char, has_prefix, split_first, split_once, starts_with, text_eq,
    to_ascii_lowercase, to_lowercase, unicode_lower,
};

verus! {

/// `q` can be read off `t` left to right, with gaps allowed.
pub open spec fn subsequence_of(q: Seq<char>, t: Seq<char>) -> bool
    decreases t.len(),
{
    if q.len() == 0 {
        true
    } else if t.len() == 0 {
        false
    } else if q[0] == t[0] {
        subsequence_of(q.drop_first(), t.drop_first())
    } else {
        subsequence_of(q, t.drop_first())
    }
}

/// Case-insensitive subsequence match of `query` in `text`.
pub open spec fn fuzzy_match(text: Seq<char>, query: Seq<char>) -> bool {
    subsequence_of(unicode_lower(query), unicode_lower(text))
}

/// An ID matches a query that is a prefix of it, with or without the algorithm,
/// ignoring ASCII case.
pub open spec fn id_match(id: Seq<char>, query: Seq<char>) -> bool {
    let id = ascii_lower(id);
    let query = ascii_lower(query);
    has_prefix(id, query) || match split_first(id, ':') {
        Some((_, hex)) => has_prefix(hex, query),
        None => false,
    }
}

/// A `repository@digest` reference matches fuzzily on the repository, by
/// prefix on the digest, or by prefix on the whole reference.
pub open spec fn digest_ref_match(reference: Seq<char>, query: Seq<char>) -> bool {
    match split_first(reference, '@') {
        Some((repository, digest)) => fuzzy_match(repository, query) || id_match(digest, query)
            || has_prefix(ascii_lower(reference), ascii_lower(query)),
        None => id_match(reference, query),
    }
}

/// How the image column of a container is matched: as an ID when it is one,
/// as a digest reference when it has an `@`, fuzzily otherwise.
pub open spec fn container_image_match(c: ContainerView, query: Seq<char>) -> bool {
    if c.image == c.image_id || c.image == id_hex(c.image_id) || has_prefix(c.image, "sha256:"@) {
        id_match(c.image, query)
    } else if c.image.contains('@') {
        digest_ref_match(c.image, query)
    } else {
        fuzzy_match(c.image, query)
    }
}

/// A container matches when its ID, one of its names, its image or its image
/// ID does.
pub open spec fn container_match(c: ContainerView, query: Seq<char>) -> bool {
    ||| id_match(c.id, query)
    ||| exists|i: int| 0 <= i < c.names.len() && fuzzy_match(#[trigger] c.names[i], query)
    ||| container_image_match(c, query)
    ||| id_match(c.image_id, query)
}

/// An image matches when its ID, one of its tags or one of its digests does.
pub open spec fn image_match(img: ImageView, query: Seq<char>) -> bool {
    ||| id_match(img.id, query)
    ||| exists|i: int|
        0 <= i < img.repo_tags.len() && fuzzy_match(ref_text(#[trigger] img.repo_tags[i]), query)
    ||| exists|i: int|
        0 <= i < img.repo_digests.len() && digest_ref_match(#[trigger] img.repo_digests[i], query)
}

/// Case-insensitive subsequence matching: characters may have gaps, but must
/// appear in order. Match each field separately so IDs and names cannot combine
/// into an accidental match.
pub fn fuzzy_matches(text: &str, query: &str) -> (r: bool)
    ensures
        r == fuzzy_match(text@, query@),
{
    let t = to_lowercase(text);
    let q = to_lowercase(query);
    is_subsequence(q.as_str(), t.as_str())
}

/// Whether `query` can be read off `text` left to right, with gaps allowed:
/// the test that fuzzy matching applies to the case-folded texts.
pub fn is_subsequence(query: &str, text: &str) -> (r: bool)
    ensures
        r == subsequence_of(query@, text@),
{
    let n = text.unicode_len();
    let m = query.unicode_len();
    let mut i: usize = 0;
    let mut j: usize = 0;
    assert(query@.skip(0) =~= query@);
    assert(text@.skip(0) =~= text@);
    while j < m && i < n
        invariant
            n == text@.len(),
            m == query@.len(),
            i <= n,
            j <= m,
            subsequence_of(query@, text@) == subsequence_of(query@.skip(j as int), text@.skip(i as int)),
        decreases n - i,
    {
        let ghost qr = query@.skip(j as int);
        let ghost tr = text@.skip(i as int);
        assert(qr[0] == query@[j as int]);
        assert(tr[0] == text@[i as int]);
        assert(qr.drop_first() =~= query@.skip(j + 1));
        assert(tr.drop_first() =~= text@.skip(i + 1));
        if query.get_char(j) == text.get_char(i) {
            j = j + 1;
        }
        i = i + 1;
    }
    if j == m {
        assert(query@.skip(j as int).len() == 0);
        true
    } else {
        assert(text@.skip(i as int).len() == 0);
        assert(query@.skip(j as int).len() > 0);
        false
    }
}

/// IDs match contiguous prefixes, with or without an algorithm such as sha256.
pub fn id_matches(id: &str, query: &str) -> (r: bool)
    ensures
        r == id_match(id@, query@),
{
    let id = to_ascii_lowercase(id);
    let query = to_ascii_lowercase(query);
    if starts_with(id.as_str(), query.as_str()) {
        return true;
    }
    match split_once(id.as_str(), ':') {
        Some((_, hex)) => starts_with(hex, query.as_str()),
        None => false,
    }
}

/// Repository digests match fuzzily on the repository but only by prefix on
/// the digest.
pub fn digest_ref_matches(reference: &str, query: &str) -> (r: bool)
    ensures
        r == digest_ref_match(reference@, query@),
{
    match split_once(reference, '@') {
        Some((repository, digest)) => {
            if fuzzy_matches(repository, query) || id_matches(digest, query) {
                return true;
            }
            let lr = to_ascii_lowercase(reference);
            let lq = to_ascii_lowercase(query);
            starts_with(lr.as_str(), lq.as_str())
        },
        None => id_matches(reference, query),
    }
}

/// Whether a container matches the query in any of its searchable fields.
pub fn container_matches(container: &Container, query: &str) -> (r: bool)
    ensures
        r == container_match(container@, query@),
{
    // The engine may put a raw image ID in the image-name field.
    let image = container.image.as_str();
    let sha = "sha256:";
    let image_matches = if text_eq(image, container.image_id.as_str()) || text_eq(
        image,
        container.image_id.hex(),
    ) || starts_with(image, sha) {
        id_matches(image, query)
    } else if contains_char(image, '@') {
        digest_ref_matches(image, query)
    } else {
        fuzzy_matches(image, query)
    };
    if id_matches(container.id.as_str(), query) {
        return true;
    }
    let mut i: usize = 0;
    while i < container.names.len()
        invariant
            i <= container.names.len(),
            forall|k: int|
                0 <= k < i ==> !fuzzy_match(#[trigger] container@.names[k], query@),
        decreases container.names.len() - i,
    {
        if fuzzy_matches(container.names[i].as_str(), query) {
            assert(container@.names[i as int] == container.names@[i as int]@);
            return true;
        }
        assert(container@.names[i as int] == container.names@[i as int]@);
        i = i + 1;
    }
    image_matches || id_matches(container.image_id.as_str(), query)
}

/// Whether an image matches the query in any of its searchable fields.
pub fn image_matches(image: &Image, query: &str) -> (r: bool)
    ensures
        r == image_match(image@, query@),
{
    if id_matches(image.id.as_str(), query) {
        return true;
    }
    let mut i: usize = 0;
    while i < image.repo_tags.len()
        invariant
            i <= image.repo_tags.len(),
            forall|k: int|
                0 <= k < i ==> !fuzzy_match(ref_text(#[trigger] image@.repo_tags[k]), query@),
        decreases image.repo_tags.len() - i,
    {
        let name = image.repo_tags[i].to_string();
        assert(image@.repo_tags[i as int] == image.repo_tags@[i as int]@);
        if fuzzy_matches(name.as_str(), query) {
            return true;
        }
        i = i + 1;
    }
    let mut k: usize = 0;
    while k < image.repo_digests.len()
        invariant
            k <= image.repo_digests.len(),
            forall|j: int|
                0 <= j < k ==> !digest_ref_match(#[trigger] image@.repo_digests[j], query@),
        decreases image.repo_digests.len() - k,
    {
        assert(image@.repo_digests[k as int] == image.repo_digests@[k as int]@);
        if digest_ref_matches(image.repo_digests[k].as_str(), query) {
            return true;
        }
        k = k + 1;
    }
    false
}

/// Every text matches itself as a query, and the empty query matches every
/// text once case-folded: a subsequence test is reflexive and the empty
/// sequence is a subsequence of anything.
pub proof fn lemma_fuzzy_match_is_reflexive(t: Seq<char>)
    ensures
        fuzzy_match(t, t),
        subsequence_of(Seq::<char>::empty(), unicode_lower(t)),
{
    lemma_subsequence_reflexive(unicode_lower(t));
}

proof fn lemma_subsequence_reflexive(s: Seq<char>)
    ensures
        subsequence_of(s, s),
    decreases s.len(),
{
    if s.len() > 0 {
        lemma_subsequence_reflexive(s.drop_first());
    }
}

/// A full ID always finds itself, and the empty query finds every ID.
pub proof fn lemma_id_match_prefixes(id: Seq<char>)
    ensures
        id_match(id, id),
        id_match(id, Seq::<char>::empty()),
{
    let l = ascii_lower(id);
    assert(l.take(l.len() as int) =~= l);
    assert(ascii_lower(Seq::<char>::empty()) =~= Seq::<char>::empty());
    assert(l.take(0) =~= Seq::<char>::empty());
}

} // verus!
