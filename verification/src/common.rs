//! The paginated list wrapper shared by every catalogue listing.

use vstd::prelude::*;

verus! {

/// One page of a listing: the entries on this page, and the number of
/// entries the service reports for the whole listing. `total` is whatever the
/// service said; it may exceed `items.len()`.
#[derive(Clone, Debug, PartialEq, Eq)]
pub struct BulkResult<T> {
    pub items: Vec<T>,
    pub total: u32,
}

/// Mathematical model of a [`BulkResult`].
pub ghost struct BulkResultView<V> {
    pub items: Seq<V>,
    pub total: u32,
}

impl<T: DeepView> View for BulkResult<T> {
    type V = BulkResultView<T::V>;

    open spec fn view(&self) -> BulkResultView<T::V> {
        BulkResultView { items: self.items.deep_view(), total: self.total }
    }
}

impl<T: DeepView> DeepView for BulkResult<T> {
    type V = BulkResultView<T::V>;

    open spec fn deep_view(&self) -> BulkResultView<T::V> {
        self.view()
    }
}

} // verus!
