//! The list of destinations and the highlighted entry.

use std::path::PathBuf;
use vstd::prelude::*;

verus! {

/// `std::path::PathBuf`, carried through without looking inside.
#[verifier::external_type_specification]
#[verifier::external_body]
pub struct ExPathBuf(PathBuf);

/// A named destination directory.
#[derive(Clone, Debug, PartialEq, Eq)]
pub struct Instance {
    pub name: String,
    pub path: PathBuf,
}

/// Where the cursor lands when it moves one entry down a list of `len`
/// entries: onto the first entry if nothing was highlighted, otherwise one
/// further, stopping at the last entry. An empty list has no cursor.
pub open spec fn cursor_after_next(cursor: Option<usize>, len: nat) -> Option<usize> {
    if len == 0 {
        None
    } else {
        match cursor {
            None => Some(0usize),
            Some(i) => if i + 1 < len {
                Some((i + 1) as usize)
            } else {
                Some((len - 1) as usize)
            },
        }
    }
}

/// Where the cursor lands when it moves one entry up: onto the last entry if
/// nothing was highlighted, otherwise one back, stopping at the first entry.
/// An empty list has no cursor.
pub open spec fn cursor_after_previous(cursor: Option<usize>, len: nat) -> Option<usize> {
    if len == 0 {
        None
    } else {
        match cursor {
            None => Some((len - 1) as usize),
            Some(i) => if i == 0 {
                Some(0usize)
            } else {
                Some((i - 1) as usize)
            },
        }
    }
}

/// Where the cursor lands when entry `index` is asked for directly: there, if
/// the list has such an entry; otherwise it stays where it was.
pub open spec fn cursor_after_index(
    cursor: Option<usize>,
    len: nat,
    index: usize,
) -> Option<usize> {
    if index < len {
        Some(index)
    } else {
        cursor
    }
}

/// A cursor is valid for a list of `len` entries when it is unset or points
/// at one of them.
pub open spec fn cursor_valid(cursor: Option<usize>, len: nat) -> bool {
    match cursor {
        None => true,
        Some(i) => i < len,
    }
}

/// An ordered list of destinations with at most one of them highlighted.
pub struct SelectionModel {
    instances: Vec<Instance>,
    cursor: Option<usize>,
}

impl SelectionModel {
    #[verifier::type_invariant]
    spec fn well_formed(self) -> bool {
        cursor_valid(self.cursor, self.instances@.len())
    }

    /// The destinations, in configuration order.
    pub closed spec fn entries(self) -> Seq<Instance> {
        self.instances@
    }

    /// The highlighted index, if any.
    pub closed spec fn cursor(self) -> Option<usize> {
        self.cursor
    }

    /// A model over `instances` with nothing highlighted.
    pub fn new(instances: Vec<Instance>) -> (model: Self)
        ensures
            model.entries() == instances@,
            model.cursor() is None,
    {
        SelectionModel { instances, cursor: None }
    }

    /// The destinations, in configuration order.
    pub fn instances(&self) -> (list: &Vec<Instance>)
        ensures
            list@ == self.entries(),
    {
        &self.instances
    }

    /// Number of destinations.
    pub fn len(&self) -> (n: usize)
        ensures
            n == self.entries().len(),
    {
        self.instances.len()
    }

    /// The highlighted index, always within the list.
    pub fn selected(&self) -> (cursor: Option<usize>)
        ensures
            cursor == self.cursor(),
            cursor_valid(cursor, self.entries().len()),
    {
        proof {
            use_type_invariant(self);
        }
        self.cursor
    }

    /// The highlighted destination, if any.
    pub fn selected_instance(&self) -> (entry: Option<&Instance>)
        ensures
            match self.cursor() {
                Some(i) => i < self.entries().len() && entry == Some(&self.entries()[i as int]),
                None => entry is None,
            },
    {
        proof {
            use_type_invariant(self);
        }
        match self.cursor {
            Some(i) => Some(&self.instances[i]),
            None => None,
        }
    }

    /// Moves the highlight one entry down, stopping at the last one. With
    /// nothing highlighted it goes to the first entry.
    pub fn select_next(&mut self)
        ensures
            final(self).entries() == old(self).entries(),
            final(self).cursor() == cursor_after_next(
                old(self).cursor(),
                old(self).entries().len(),
            ),
            cursor_valid(final(self).cursor(), final(self).entries().len()),
    {
        proof {
            use_type_invariant(&*self);
        }
        let len: usize = self.instances.len();
        if len > 0 {
            self.cursor = match self.cursor {
                None => Some(0),
                Some(i) => if i < len - 1 {
                    Some(i + 1)
                } else {
                    Some(len - 1)
                },
            };
        }
    }

    /// Moves the highlight one entry up, stopping at the first one. With
    /// nothing highlighted it goes to the last entry.
    pub fn select_previous(&mut self)
        ensures
            final(self).entries() == old(self).entries(),
            final(self).cursor() == cursor_after_previous(
                old(self).cursor(),
                old(self).entries().len(),
            ),
            cursor_valid(final(self).cursor(), final(self).entries().len()),
    {
        proof {
            use_type_invariant(&*self);
        }
        let len: usize = self.instances.len();
        if len > 0 {
            self.cursor = match self.cursor {
                None => Some(len - 1),
                Some(i) => if i == 0 {
                    Some(0)
                } else {
                    Some(i - 1)
                },
            };
        }
    }

    /// Highlights entry `index` if the list has one; otherwise does nothing.
    pub fn select_index(&mut self, index: usize)
        ensures
            final(self).entries() == old(self).entries(),
            final(self).cursor() == cursor_after_index(
                old(self).cursor(),
                old(self).entries().len(),
                index,
            ),
            index >= old(self).entries().len() ==> final(self).cursor() == old(self).cursor(),
            cursor_valid(final(self).cursor(), final(self).entries().len()),
    {
        proof {
            use_type_invariant(&*self);
        }
        if index < self.instances.len() {
            self.cursor = Some(index);
        }
    }
}

/// The cursor after moving down `times` times in a row.
pub open spec fn cursor_after_nexts(cursor: Option<usize>, len: nat, times: nat) -> Option<usize>
    decreases times,
{
    if times == 0 {
        cursor
    } else {
        cursor_after_next(cursor_after_nexts(cursor, len, (times - 1) as nat), len)
    }
}

/// The cursor after moving up `times` times in a row.
pub open spec fn cursor_after_previouses(
    cursor: Option<usize>,
    len: nat,
    times: nat,
) -> Option<usize>
    decreases times,
{
    if times == 0 {
        cursor
    } else {
        cursor_after_previous(cursor_after_previouses(cursor, len, (times - 1) as nat), len)
    }
}

/// The smaller of two numbers.
pub open spec fn lesser(a: int, b: int) -> int {
    if a <= b {
        a
    } else {
        b
    }
}

/// The larger of two numbers.
pub open spec fn greater(a: int, b: int) -> int {
    if a >= b {
        a
    } else {
        b
    }
}

/// However often the highlight moves down a list that is not empty, it
/// never passes the last entry: after `times` moves it stands `times`
/// entries below where it started, or on the last entry if that comes
/// first. A highlight that was unset starts from just above the first
/// entry.
pub proof fn lemma_next_stops_at_last(cursor: Option<usize>, len: nat, times: nat)
    requires
        0 < len <= usize::MAX,
        cursor_valid(cursor, len),
    ensures
        cursor_valid(cursor_after_nexts(cursor, len, times), len),
        times > 0 ==> cursor_after_nexts(cursor, len, times) == Some(
            lesser(
                times + match cursor {
                    Some(i) => i as int,
                    None => -1,
                },
                len - 1,
            ) as usize,
        ),
    decreases times,
{
    if times > 0 {
        lemma_next_stops_at_last(cursor, len, (times - 1) as nat);
    }
}

/// However often the highlight moves up a list that is not empty, it never
/// passes the first entry: after `times` moves it stands `times` entries
/// above where it started, or on the first entry if that comes first. A
/// highlight that was unset starts from just below the last entry.
pub proof fn lemma_previous_stops_at_first(cursor: Option<usize>, len: nat, times: nat)
    requires
        0 < len <= usize::MAX,
        cursor_valid(cursor, len),
    ensures
        cursor_valid(cursor_after_previouses(cursor, len, times), len),
        times > 0 ==> cursor_after_previouses(cursor, len, times) == Some(
            greater(
                match cursor {
                    Some(i) => i as int,
                    None => len as int,
                } - times,
                0,
            ) as usize,
        ),
    decreases times,
{
    if times > 0 {
        lemma_previous_stops_at_first(cursor, len, (times - 1) as nat);
    }
}

/// Asking for an entry that the list does not have leaves the highlight
/// where it was; asking for one that it has puts the highlight there. Either
/// way the highlight stays within the list.
pub proof fn lemma_select_index_in_range_only(cursor: Option<usize>, len: nat, index: usize)
    requires
        cursor_valid(cursor, len),
    ensures
        index >= len ==> cursor_after_index(cursor, len, index) == cursor,
        index < len ==> cursor_after_index(cursor, len, index) == Some(index),
        cursor_valid(cursor_after_index(cursor, len, index), len),
{
}

} // verus!
