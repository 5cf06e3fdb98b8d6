//! An ordered list with one cursor that never leaves the list.

use vstd::prelude::*;

verus! {

/// The cursor reached by one step back: one less, unless it is at the first
/// item or absent.
pub open spec fn cursor_after_previous(cursor: Option<usize>) -> Option<usize> {
    match cursor {
        Some(i) if i > 0 => Some((i - 1) as usize),
        _ => cursor,
    }
}

/// The cursor reached by one step forward in a list of `len` items: one more,
/// unless it is at the last item or absent.
pub open spec fn cursor_after_next(len: nat, cursor: Option<usize>) -> Option<usize> {
    match cursor {
        Some(i) if i + 1 < len => Some((i + 1) as usize),
        _ => cursor,
    }
}

/// Whether `i` is the first position of `items` that holds `target`.
pub open spec fn is_first_match(items: Seq<String>, target: Seq<char>, i: int) -> bool {
    &&& 0 <= i < items.len()
    &&& items[i]@ == target
    &&& forall|j: int| 0 <= j < i ==> (#[trigger] items[j])@ != target
}

/// Whether some position of `items` holds `target`.
pub open spec fn has_match(items: Seq<String>, target: Seq<char>) -> bool {
    exists|i: int| 0 <= i < items.len() && (#[trigger] items[i])@ == target
}

/// The cursor after a search for `target`: its first position where there is
/// one, the cursor as it was where there is none.
pub open spec fn cursor_after_search(
    items: Seq<String>,
    cursor: Option<usize>,
    target: Seq<char>,
) -> Option<usize> {
    if has_match(items, target) {
        Some((choose|i: int| is_first_match(items, target, i)) as usize)
    } else {
        cursor
    }
}

/// An ordered list of items and a cursor on one of them; no cursor where the
/// list is empty or the cursor asked for was outside it.
pub struct StatefulVec<T> {
    items: Vec<T>,
    index: Option<usize>,
}

impl<T> StatefulVec<T> {
    /// The items, in order.
    pub closed spec fn items(&self) -> Seq<T> {
        self.items@
    }

    /// The position of the cursor, if there is one.
    pub closed spec fn cursor(&self) -> Option<usize> {
        self.index
    }

    /// The list fits in memory, and the cursor, where present, lies within
    /// it.
    pub open spec fn wf(&self) -> bool {
        &&& self.items().len() <= usize::MAX
        &&& match self.cursor() {
            Some(i) => i < self.items().len(),
            None => true,
        }
    }

    /// A list with its cursor at `initial_index`, or without a cursor where
    /// that position is absent or outside the list.
    pub fn new(items: Vec<T>, initial_index: Option<usize>) -> (nav: Self)
        ensures
            nav.wf(),
            nav.items() == items@,
            nav.cursor() == match initial_index {
                Some(i) if i < items@.len() => Some(i),
                _ => None,
            },
    {
        let len = items.len();
        let index = match initial_index {
            Some(i) => if i < len { Some(i) } else { None },
            None => None,
        };
        StatefulVec { items, index }
    }

    /// The item under the cursor.
    pub fn current_item(&self) -> (item: Option<&T>)
        requires
            self.wf(),
        ensures
            match self.cursor() {
                Some(i) => item == Some(&self.items()[i as int]),
                None => item.is_none(),
            },
    {
        match self.index {
            Some(i) => Some(&self.items[i]),
            None => None,
        }
    }

    /// The number of items.
    pub fn len(&self) -> (n: usize)
        ensures
            n == self.items().len(),
    {
        self.items.len()
    }

    /// The position of the cursor.
    pub fn current_index(&self) -> (index: Option<usize>)
        ensures
            index == self.cursor(),
    {
        self.index
    }

    /// Whether an item stands before the cursor.
    pub fn has_previous(&self) -> (yes: bool)
        ensures
            yes == (self.cursor().is_some() && self.cursor() != Some(0usize)),
            yes == (cursor_after_previous(self.cursor()) != self.cursor()),
    {
        match self.index {
            Some(i) => i > 0,
            None => false,
        }
    }

    /// Whether an item stands after the cursor.
    pub fn has_next(&self) -> (yes: bool)
        ensures
            yes == (self.cursor().is_some() && self.cursor().unwrap() + 1 < self.items().len()),
            yes == (cursor_after_next(self.items().len(), self.cursor()) != self.cursor()),
    {
        match self.index {
            Some(i) => self.items.len() > 0 && i < self.items.len() - 1,
            None => false,
        }
    }

    /// Moves the cursor one item back; at the first item nothing changes.
    pub fn select_previous(&mut self)
        requires
            old(self).wf(),
        ensures
            final(self).wf(),
            final(self).items() == old(self).items(),
            final(self).cursor() == cursor_after_previous(old(self).cursor()),
    {
        match self.index {
            Some(i) => {
                if i > 0 {
                    self.index = Some(i - 1);
                }
            },
            None => {},
        }
    }

    /// Moves the cursor one item forward; at the last item nothing changes.
    pub fn select_next(&mut self)
        requires
            old(self).wf(),
        ensures
            final(self).wf(),
            final(self).items() == old(self).items(),
            final(self).cursor() == cursor_after_next(old(self).items().len(), old(self).cursor()),
    {
        match self.index {
            Some(i) => {
                if i < self.items.len() - 1 {
                    self.index = Some(i + 1);
                }
            },
            None => {},
        }
    }
}

impl StatefulVec<String> {
    /// Moves the cursor to the first item equal to `target`; where no item
    /// equals it, the cursor stays.
    pub fn select_if_found(&mut self, target: &String)
        requires
            old(self).wf(),
        ensures
            final(self).wf(),
            final(self).items() == old(self).items(),
            final(self).cursor() == cursor_after_search(
                old(self).items(),
                old(self).cursor(),
                target@,
            ),
    {
        let mut i: usize = 0;
        while i < self.items.len()
            invariant
                i <= self.items@.len(),
                self.items@ == old(self).items@,
                self.index == old(self).index,
                forall|j: int| 0 <= j < i ==> (#[trigger] self.items@[j])@ != target@,
            decreases self.items@.len() - i,
        {
            if self.items[i] == *target {
                proof {
                    lemma_first_match_unique(self.items@, target@, i as int);
                }
                self.index = Some(i);
                return ;
            }
            i += 1;
        }
    }
}

/// A first match, where there is one, is the one that a search settles on.
pub proof fn lemma_first_match_unique(items: Seq<String>, target: Seq<char>, i: int)
    requires
        is_first_match(items, target, i),
    ensures
        has_match(items, target),
        cursor_after_search(items, None, target) == Some(i as usize),
        forall|k: int| is_first_match(items, target, k) ==> k == i,
{
    assert forall|k: int| is_first_match(items, target, k) implies k == i by {
        if k < i {
            assert(items[k]@ != target);
        } else if i < k {
            assert(items[i]@ != target);
        }
    }
    let c = choose|k: int| is_first_match(items, target, k);
    assert(is_first_match(items, target, c));
}

/// Where some position holds `target`, one of them is the first.
pub proof fn lemma_first_match_exists(items: Seq<String>, target: Seq<char>, k: int)
    requires
        0 <= k < items.len(),
        items[k]@ == target,
    ensures
        exists|i: int| 0 <= i <= k && is_first_match(items, target, i),
    decreases k,
{
    if forall|j: int| 0 <= j < k ==> (#[trigger] items[j])@ != target {
        assert(is_first_match(items, target, k));
    } else {
        let j = choose|j: int| 0 <= j < k && (#[trigger] items[j])@ == target;
        lemma_first_match_exists(items, target, j);
    }
}

/// A search settles on a position that holds the target where there is one,
/// and leaves the cursor alone where there is none.
pub proof fn lemma_search_finds_target(items: Seq<String>, cursor: Option<usize>, target: Seq<char>)
    requires
        items.len() <= usize::MAX,
    ensures
        has_match(items, target) ==> (cursor_after_search(items, cursor, target) matches Some(i)
            && is_first_match(items, target, i as int)),
        !has_match(items, target) ==> cursor_after_search(items, cursor, target) == cursor,
{
    if has_match(items, target) {
        let k = choose|k: int| 0 <= k < items.len() && (#[trigger] items[k])@ == target;
        lemma_first_match_exists(items, target, k);
        let i = choose|i: int| is_first_match(items, target, i);
        assert(is_first_match(items, target, i));
    }
}

/// At the first item, and only there, nothing stands before the cursor and a
/// step back leaves it where it is.
pub proof fn lemma_previous_stays_iff_first<T>(nav: StatefulVec<T>)
    requires
        nav.wf(),
        nav.cursor().is_some(),
    ensures
        (cursor_after_previous(nav.cursor()) == nav.cursor()) <==> nav.cursor() == Some(0usize),
{
}

/// At the last item, and only there, nothing stands after the cursor and a
/// step forward leaves it where it is.
pub proof fn lemma_next_stays_iff_last<T>(nav: StatefulVec<T>)
    requires
        nav.wf(),
        nav.cursor().is_some(),
    ensures
        (cursor_after_next(nav.items().len(), nav.cursor()) == nav.cursor()) <==> nav.cursor().unwrap()
            + 1 == nav.items().len(),
{
}

/// A step back from any item but the first, followed by a step forward,
/// returns to that item.
pub proof fn lemma_previous_then_next_restores(len: nat, i: usize)
    requires
        0 < i < len,
    ensures
        cursor_after_next(len, cursor_after_previous(Some(i))) == Some(i),
{
}

} // verus!
