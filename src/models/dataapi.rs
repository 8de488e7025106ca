use vstd::prelude::*;

verus! {

/// An expiry date of an option chain: its display text and its epoch value.
pub struct ExpiryData {
    pub date: String,
    pub expiry: i64,
}

} // verus!
