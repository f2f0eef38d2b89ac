//! One page of a listing.

use vstd::prelude::*;

verus! {

/// A page of items and its position in the listing.
#[derive(Debug, Clone, PartialEq, Eq)]
pub struct Page<T> {
    pub data: Vec<T>,
    pub current_page: u32,
    pub per_page: u32,
}

impl<T> Page<T> {
    pub fn new(data: Vec<T>, current_page: u32, per_page: u32) -> (r: Page<T>)
        ensures
            r.data@ == data@,
            r.current_page == current_page,
            r.per_page == per_page,
    {
        Page { data, current_page, per_page }
    }

    pub fn data(&self) -> (r: &Vec<T>)
        ensures
            r@ == self.data@,
    {
        &self.data
    }

    pub fn current_page(&self) -> (r: u32)
        ensures
            r == self.current_page,
    {
        self.current_page
    }

    pub fn per_page(&self) -> (r: u32)
        ensures
            r == self.per_page,
    {
        self.per_page
    }

    /// The same page position with every item replaced by its image under
    /// `f`, in order.
    pub fn map<U, F: Fn(&T) -> U>(&self, f: F) -> (r: Page<U>)
        requires
            forall|i: int| 0 <= i < self.data@.len() ==> f.requires((&self.data@[i],)),
        ensures
            r.current_page == self.current_page,
            r.per_page == self.per_page,
            r.data@.len() == self.data@.len(),
            forall|i: int|
                0 <= i < self.data@.len() ==> f.ensures((&self.data@[i],), #[trigger] r.data@[i]),
    {
        let mut data: Vec<U> = Vec::new();
        let mut i: usize = 0;
        while i < self.data.len()
            invariant
                i <= self.data@.len(),
                data@.len() == i,
                forall|k: int| 0 <= k < self.data@.len() ==> f.requires((&self.data@[k],)),
                forall|j: int|
                    0 <= j < i ==> f.ensures((&self.data@[j],), #[trigger] data@[j]),
            decreases self.data@.len() - i,
        {
            data.push(f(&self.data[i]));
            i = i + 1;
        }
        Page { data, current_page: self.current_page, per_page: self.per_page }
    }
}

} // verus!
