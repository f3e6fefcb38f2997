//! The table of per-draw-list offsets, kept in a small vector that lives on
//! the stack for frames of up to four draw lists.

use vstd::prelude::*;
use smallvec::SmallVec;

verus! {

/// The base vertex and the first index position of each draw list.
#[verifier::external_body]
pub struct OffsetTable {
    entries: SmallVec<[(i32, u32); 4]>,
}

/// The entries of an offset table, in order.
pub uninterp spec fn table_entries(table: OffsetTable) -> Seq<(i32, u32)>;

/// The most entries that `push` is asked to make room for.
pub open spec fn table_limit() -> int {
    isize::MAX / 16
}

impl View for OffsetTable {
    type V = Seq<(i32, u32)>;

    open spec fn view(&self) -> Seq<(i32, u32)> {
        table_entries(*self)
    }
}

impl OffsetTable {
    /// `SmallVec::new`: an empty vector.
    #[verifier::external_body]
    pub(crate) fn new() -> (table: OffsetTable)
        ensures
            table_entries(table) == Seq::<(i32, u32)>::empty(),
    {
        OffsetTable { entries: SmallVec::new() }
    }

    /// `SmallVec::clear`: removes every element.
    #[verifier::external_body]
    pub(crate) fn clear(&mut self)
        ensures
            table_entries(*final(self)) == Seq::<(i32, u32)>::empty(),
    {
        self.entries.clear()
    }

    /// `SmallVec::push`: appends one element. It gives up only where the
    /// grown vector would not fit the address space, which the limit on the
    /// length rules out for elements of eight bytes.
    #[verifier::external_body]
    pub(crate) fn push(&mut self, entry: (i32, u32))
        requires
            table_entries(*old(self)).len() < table_limit(),
        ensures
            table_entries(*final(self)) == table_entries(*old(self)).push(entry),
    {
        self.entries.push(entry)
    }

    /// `SmallVec::len`: the number of elements.
    #[verifier::external_body]
    pub(crate) fn len(&self) -> (n: usize)
        ensures
            n == table_entries(*self).len(),
    {
        self.entries.len()
    }

    /// Indexing a `SmallVec`: the element at a position below its length.
    #[verifier::external_body]
    pub(crate) fn get(&self, k: usize) -> (entry: (i32, u32))
        requires
            k < table_entries(*self).len(),
        ensures
            entry == table_entries(*self)[k as int],
    {
        self.entries[k]
    }
}

} // verus!
