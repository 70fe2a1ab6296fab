//! A choice of one among several items. Only its items are kept: how the
//! choice is made is not settled yet.

use vstd::prelude::*;

verus! {

/// The items one of which is to be chosen.
#[derive(Debug)]
pub struct OneOfWrapper {
    items: Vec<String>,
}

impl View for OneOfWrapper {
    type V = Seq<Seq<char>>;

    closed spec fn view(&self) -> Seq<Seq<char>> {
        self.items.deep_view()
    }
}

impl OneOfWrapper {
    /// Keeps the items as they are handed in.
    pub fn new(items: Vec<String>) -> (one_of: Self)
        ensures
            one_of@ == items.deep_view(),
    {
        OneOfWrapper { items }
    }

    /// The items to choose from.
    pub fn items(&self) -> (items: &Vec<String>)
        ensures
            items.deep_view() == self@,
    {
        &self.items
    }
}

} // verus!
