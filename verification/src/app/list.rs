use vstd::prelude::*;

use crate::domain::{Container, Image, Timestamp};
use crate::text::text_eq;

verus! {

/// How a pane's data is doing. `Failed` deliberately keeps whatever rows were
/// last loaded: a refresh that fails must not blank the table the user is
/// reading -- especially since one unmappable field fails a whole response.
#[derive(Debug, PartialEq, Eq)]
pub enum LoadState {
    Never,
    Loading,
    Loaded { at: Timestamp },
    Failed { message: String },
}

impl Default for LoadState {
    fn default() -> (r: LoadState)
        ensures
            r is Never,
    {
        LoadState::Never
    }
}

/// Rows that can be recognised again after a refresh: two rows are the same
/// item when their keys are equal.
pub trait Keyed {
    /// The identity of the row.
    spec fn key(&self) -> Seq<char>;

    /// Whether two rows are the same item.
    fn same_item(&self, other: &Self) -> (r: bool)
        ensures
            r == (self.key() == other.key()),
    ;
}

impl Keyed for Container {
    open spec fn key(&self) -> Seq<char> {
        self.id@
    }

    fn same_item(&self, other: &Self) -> (r: bool) {
        text_eq(self.id.as_str(), other.id.as_str())
    }
}

impl Keyed for Image {
    open spec fn key(&self) -> Seq<char> {
        self.id@
    }

    fn same_item(&self, other: &Self) -> (r: bool) {
        text_eq(self.id.as_str(), other.id.as_str())
    }
}

impl Keyed for String {
    open spec fn key(&self) -> Seq<char> {
        self@
    }

    fn same_item(&self, other: &Self) -> (r: bool) {
        *self == *other
    }
}

/// `i` is the first row of `items` whose key is `k`.
pub open spec fn is_first_with_key<T: Keyed>(items: Seq<T>, k: Seq<char>, i: int) -> bool {
    &&& 0 <= i < items.len()
    &&& items[i].key() == k
    &&& forall|j: int| 0 <= j < i ==> #[trigger] items[j].key() != k
}

/// Some row of `items` has key `k`.
pub open spec fn has_key<T: Keyed>(items: Seq<T>, k: Seq<char>) -> bool {
    exists|j: int| 0 <= j < items.len() && #[trigger] items[j].key() == k
}

/// The position of the first row whose key is `k`.
pub open spec fn position_of_key<T: Keyed>(items: Seq<T>, k: Seq<char>) -> int {
    choose|i: int| is_first_with_key(items, k, i)
}

/// The cursor after a move down: the next row, wrapping to the top.
pub open spec fn next_selection(sel: Option<usize>, len: nat) -> Option<usize> {
    if len == 0 {
        sel
    } else {
        match sel {
            Some(i) => if i + 1 < len {
                Some((i + 1) as usize)
            } else {
                Some(0)
            },
            None => Some(0),
        }
    }
}

/// The cursor after a move up: the previous row, wrapping to the bottom.
pub open spec fn previous_selection(sel: Option<usize>, len: nat) -> Option<usize> {
    if len == 0 {
        sel
    } else {
        match sel {
            Some(i) => if i == 0 {
                Some((len - 1) as usize)
            } else {
                Some((i - 1) as usize)
            },
            None => Some((len - 1) as usize),
        }
    }
}

/// Where the cursor lands when `old_items` (cursor `sel`) is replaced by
/// `new_items`: on the same item if it is still there, otherwise at the same
/// position clamped to the new length; on the first row when nothing was
/// selected; nowhere when the new list is empty.
pub open spec fn selection_after_replace<T: Keyed>(
    old_items: Seq<T>,
    sel: Option<usize>,
    new_items: Seq<T>,
) -> Option<usize> {
    if new_items.len() == 0 {
        None
    } else {
        match sel {
            Some(i) => if i < old_items.len() {
                let k = old_items[i as int].key();
                if has_key(new_items, k) {
                    Some(position_of_key(new_items, k) as usize)
                } else if i < new_items.len() {
                    Some(i)
                } else {
                    Some((new_items.len() - 1) as usize)
                }
            } else {
                Some(0)
            },
            None => Some(0),
        }
    }
}

/// A pane's rows plus its cursor. Holds no terminal types: the render layer
/// derives widget state from `selected` each frame.
#[derive(Debug)]
pub struct ResourceList<T> {
    pub items: Vec<T>,
    /// The cursor: an index into `items`, or nothing.
    pub selected: Option<usize>,
    pub load: LoadState,
}

impl<T> ResourceList<T> {
    /// The cursor position, if any.
    pub open spec fn selection(&self) -> Option<usize> {
        self.selected
    }

    pub fn new() -> (r: Self)
        ensures
            r.items@.len() == 0,
            r.selection() is None,
            r.load is Never,
    {
        ResourceList { items: Vec::new(), selected: None, load: LoadState::Never }
    }

    pub fn len(&self) -> (r: usize)
        ensures
            r == self.items@.len(),
    {
        self.items.len()
    }

    pub fn is_empty(&self) -> (r: bool)
        ensures
            r == (self.items@.len() == 0),
    {
        self.items.len() == 0
    }

    pub fn selected(&self) -> (r: Option<usize>)
        ensures
            r == self.selection(),
    {
        self.selected
    }

    /// The row under the cursor, when the cursor is on a row.
    pub fn selected_item(&self) -> (r: Option<&T>)
        ensures
            match self.selection() {
                Some(i) => if i < self.items@.len() {
                    r == Some(&self.items@[i as int])
                } else {
                    r is None
                },
                None => r is None,
            },
    {
        match self.selected {
            Some(index) => {
                if index < self.items.len() {
                    Some(&self.items[index])
                } else {
                    None
                }
            },
            None => None,
        }
    }

    /// Wraps at the ends -- long lists are quicker to reach from either side.
    pub fn select_next(&mut self)
        ensures
            final(self).items == old(self).items,
            final(self).load == old(self).load,
            final(self).selection() == next_selection(old(self).selection(), old(self).items@.len()),
    {
        if self.items.len() == 0 {
            return ;
        }
        self.selected = Some(
            match self.selected {
                Some(index) => {
                    if index < self.items.len() - 1 {
                        index + 1
                    } else {
                        0
                    }
                },
                None => 0,
            },
        );
    }

    pub fn select_previous(&mut self)
        ensures
            final(self).items == old(self).items,
            final(self).load == old(self).load,
            final(self).selection() == previous_selection(
                old(self).selection(),
                old(self).items@.len(),
            ),
    {
        if self.items.len() == 0 {
            return ;
        }
        self.selected = Some(
            match self.selected {
                Some(0) | None => self.items.len() - 1,
                Some(index) => index - 1,
            },
        );
    }

    pub fn select_first(&mut self)
        ensures
            final(self).items == old(self).items,
            final(self).load == old(self).load,
            final(self).selection() == if old(self).items@.len() == 0 {
                None
            } else {
                Some(0usize)
            },
    {
        self.selected = if self.items.len() == 0 {
            None
        } else {
            Some(0)
        };
    }

    pub fn select_last(&mut self)
        ensures
            final(self).items == old(self).items,
            final(self).load == old(self).load,
            final(self).selection() == if old(self).items@.len() == 0 {
                None
            } else {
                Some((old(self).items@.len() - 1) as usize)
            },
    {
        self.selected = self.items.len().checked_sub(1);
    }

    /// Records a failed refresh without discarding the rows on screen.
    pub fn fail(&mut self, message: String)
        ensures
            final(self).items == old(self).items,
            final(self).selection() == old(self).selection(),
            final(self).load == (LoadState::Failed { message }),
    {
        self.load = LoadState::Failed { message };
    }
}

impl<T: Keyed> ResourceList<T> {
    /// Swaps in fresh rows, keeping the cursor on the same *item* rather than
    /// the same index -- otherwise a container disappearing above the cursor
    /// silently moves the selection onto a different row.
    pub fn replace(&mut self, items: Vec<T>, at: Timestamp)
        ensures
            final(self).items == items,
            final(self).load == (LoadState::Loaded { at }),
            final(self).selection() == selection_after_replace(
                old(self).items@,
                old(self).selection(),
                items@,
            ),
    {
        let ghost old_items = self.items@;
        let ghost old_sel = self.selected;
        let previous_index = self.selected;
        let mut found: Option<usize> = None;
        let mut had_key = false;
        match self.selected {
            Some(index) => {
                if index < self.items.len() {
                    had_key = true;
                    let previous = &self.items[index];
                    let mut j: usize = 0;
                    while j < items.len() && found.is_none()
                        invariant
                            j <= items@.len(),
                            index < old_items.len(),
                            *previous == old_items[index as int],
                            match found {
                                Some(p) => p < items@.len() && is_first_with_key(
                                    items@,
                                    previous.key(),
                                    p as int,
                                ),
                                None => forall|q: int|
                                    0 <= q < j ==> #[trigger] items@[q].key() != previous.key(),
                            },
                        decreases items@.len() - j,
                    {
                        if items[j].same_item(previous) {
                            found = Some(j);
                        }
                        j = j + 1;
                    }
                    proof {
                        let k = old_items[index as int].key();
                        match found {
                            Some(p) => {
                                assert(is_first_with_key(items@, k, p as int));
                                assert(has_key(items@, k));
                                let c = position_of_key(items@, k);
                                assert(is_first_with_key(items@, k, c));
                                assert(c == p);
                            },
                            None => {
                                assert(!has_key(items@, k));
                            },
                        }
                    }
                }
            },
            None => {},
        }
        self.items = items;
        self.load = LoadState::Loaded { at };
        self.selected = if self.items.len() == 0 {
            None
        } else if had_key {
            match found {
                Some(p) => Some(p),
                None => {
                    let index = previous_index.unwrap();
                    if index < self.items.len() {
                        Some(index)
                    } else {
                        Some(self.items.len() - 1)
                    }
                },
            }
        } else {
            Some(0)
        };
    }
}

/// The cursor keeps to the rows: in a non-empty list a move down always lands
/// on a row, a move up does whenever the cursor was on a row or nowhere, and
/// moving down then up (or up then down) from a row comes back to it.
pub proof fn lemma_cursor_moves_stay_on_rows(sel: Option<usize>, len: nat)
    requires
        0 < len <= usize::MAX,
    ensures
        next_selection(sel, len) matches Some(i) && i < len,
        (sel matches Some(i) ==> i < len) ==> (previous_selection(sel, len) matches Some(i) && i
            < len),
        (sel matches Some(i) && i < len) ==> previous_selection(next_selection(sel, len), len)
            == sel,
        (sel matches Some(i) && i < len) ==> next_selection(previous_selection(sel, len), len)
            == sel,
{
}

/// A refresh keeps the cursor on the same item whenever that item is still
/// listed, and always leaves the cursor on a row of a non-empty list.
pub proof fn lemma_replace_follows_the_item<T: Keyed>(
    old_items: Seq<T>,
    sel: Option<usize>,
    new_items: Seq<T>,
)
    requires
        new_items.len() <= usize::MAX,
    ensures
        new_items.len() > 0 ==> (selection_after_replace(old_items, sel, new_items) matches Some(
            p,
        ) && p < new_items.len()),
        (sel matches Some(i) && i < old_items.len() && has_key(
            new_items,
            old_items[i as int].key(),
        )) ==> new_items[selection_after_replace(old_items, sel, new_items)->0 as int].key()
            == old_items[sel->0 as int].key(),
{
    if let Some(i) = sel {
        if i < old_items.len() && new_items.len() > 0 {
            let k = old_items[i as int].key();
            if has_key(new_items, k) {
                lemma_first_with_key_exists(new_items, k);
            }
        }
    }
}

/// Whenever some row has key `k`, a first such row exists.
pub proof fn lemma_first_with_key_exists<T: Keyed>(items: Seq<T>, k: Seq<char>)
    requires
        has_key(items, k),
    ensures
        is_first_with_key(items, k, position_of_key(items, k)),
    decreases items.len(),
{
    if items[0].key() == k {
        assert(is_first_with_key(items, k, 0));
    } else {
        let t = items.drop_first();
        let w = choose|j: int| 0 <= j < items.len() && #[trigger] items[j].key() == k;
        assert(t[w - 1].key() == k);
        lemma_first_with_key_exists(t, k);
        let p = position_of_key(t, k);
        assert forall|j: int| 0 <= j < p + 1 implies #[trigger] items[j].key() != k by {
            if j > 0 {
                assert(items[j] == t[j - 1]);
            }
        }
        assert(is_first_with_key(items, k, p + 1));
    }
}


/// The first row with key `k` is where `position_of_key` points.
pub proof fn lemma_position_is<T: Keyed>(items: Seq<T>, k: Seq<char>, j: int)
    requires
        is_first_with_key(items, k, j),
    ensures
        has_key(items, k),
        position_of_key(items, k) == j,
{
    assert(items[j].key() == k);
    let c = position_of_key(items, k);
    assert(is_first_with_key(items, k, c));
    if c < j {
        assert(items[c].key() != k);
    } else if c > j {
        assert(items[j].key() != k);
    }
}

} // verus!
