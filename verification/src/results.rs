use vstd::prelude::*;

verus! {

/// What a successfully executed use case hands to the presentation layer.
pub enum ResultType {
    /// The titles of all titled windows, in traversal order.
    ListWindowResult(Vec<String>),
    /// A capture was taken and persisted.
    TakeScreenShotResult(()),
}

} // verus!
