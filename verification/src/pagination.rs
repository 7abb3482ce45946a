use vstd::prelude::*;

verus! {

/// A generic container pairing an ordered sequence of items with a
/// caller-supplied page index. The page index is not tied to the number
/// of items: it is carried as given.
pub struct Pagination<T> {
    data: Vec<T>,
    page: u32,
}

impl<T> Pagination<T> {
    /// The items, as a mathematical sequence.
    pub closed spec fn items(&self) -> Seq<T> {
        self.data@
    }

    /// The page index.
    pub closed spec fn page_index(&self) -> u32 {
        self.page
    }

    /// Builds a collection from its items and a page index.
    pub fn new(data: Vec<T>, page: u32) -> (r: Self)
        ensures
            r.items() == data@,
            r.page_index() == page,
    {
        Pagination { data, page }
    }

    /// The page index this collection was built with.
    pub fn page(&self) -> (r: u32)
        ensures
            r == self.page_index(),
    {
        self.page
    }

    /// How many items the collection holds.
    pub fn len(&self) -> (r: usize)
        ensures
            r == self.items().len(),
    {
        self.data.len()
    }
}

impl<T: Clone + Send> Pagination<T> {
    /// The first item, or the element type's default value when the
    /// collection is empty. Absence is deliberately substituted with the
    /// default: by the return value alone a caller cannot tell an empty
    /// collection from one whose first item equals the default.
    pub fn first(&self) -> (r: T) where T: Default
        ensures
            self.items().len() > 0 ==> cloned::<T>(self.items()[0], r),
            self.items().len() == 0 ==> call_ensures(T::default, (), r),
    {
        if self.data.len() > 0 {
            self.data[0].clone()
        } else {
            T::default()
        }
    }

    /// The first item when there is one: the explicit counterpart of
    /// `first`, which distinguishes the empty collection.
    pub fn first_opt(&self) -> (r: Option<T>)
        ensures
            self.items().len() > 0 ==> (r matches Some(v) && cloned::<T>(self.items()[0], v)),
            self.items().len() == 0 ==> r is None,
    {
        if self.data.len() > 0 {
            Some(self.data[0].clone())
        } else {
            None
        }
    }

    /// The item at `i`, or `None` past the end.
    pub fn get(&self, i: usize) -> (r: Option<T>)
        ensures
            i < self.items().len() ==> (r matches Some(v) && cloned::<T>(self.items()[i as int], v)),
            i >= self.items().len() ==> r is None,
    {
        if i < self.data.len() {
            Some(self.data[i].clone())
        } else {
            None
        }
    }
}

impl<T: Clone> Clone for Pagination<T> {
    /// A clone keeps the page index and holds, item for item, a clone of
    /// each original item; for element types whose clone returns an equal
    /// value, the clone therefore holds the very same items.
    fn clone(&self) -> (r: Self)
        ensures
            r.page_index() == self.page_index(),
            r.items().len() == self.items().len(),
            forall|i: int|
                0 <= i < self.items().len() ==> cloned::<T>(self.items()[i], r.items()[i]),
    {
        Pagination { data: self.data.clone(), page: self.page }
    }
}

/// For integer items, whatever `first` returns is exactly the element at
/// index 0 when the collection is non-empty, and exactly 0 — the integer
/// default — when it is empty.
pub proof fn lemma_first_int_exact(p: Pagination<i64>, r: i64)
    requires
        call_ensures(Pagination::<i64>::first, (&p,), r),
    ensures
        p.items().len() > 0 ==> r == p.items()[0],
        p.items().len() == 0 ==> r == 0,
{
}

/// For integer items, a clone of a collection holds the very same items
/// and the same page index as the original.
pub proof fn lemma_clone_int_exact(p: Pagination<i64>, c: Pagination<i64>)
    requires
        call_ensures(<Pagination<i64> as Clone>::clone, (&p,), c),
    ensures
        c.items() == p.items(),
        c.page_index() == p.page_index(),
{
    assert(c.items() =~= p.items());
}

} // verus!
