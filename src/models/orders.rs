use vstd::prelude::*;

verus! {

/// Response to a single order placement.
pub struct SingleOrderResponse {
    pub s: String,
    pub code: i64,
    pub message: String,
    pub id: String,
}

/// The outcome of one order of a basket.
pub struct Data {
    pub status_code: i64,
    pub body: SingleOrderResponse,
    pub status_description: String,
}

/// Response to a basket order placement.
pub struct MultipleOrdersResponse {
    pub s: String,
    pub code: i64,
    pub data: Vec<Data>,
    pub message: String,
}

} // verus!
