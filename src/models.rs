//! Plain data types exchanged with the service.
pub mod dataapi;
pub mod orders;
pub mod profile;
pub mod user;
pub mod websocket;

pub use dataapi::ExpiryData;
pub use orders::{Data, MultipleOrdersResponse, SingleOrderResponse};
pub use user::{Profile, ProfileResponse};
pub use websocket::{SubscriptionData, SubscriptionMode, SubscriptionRequest, TbtwsData, TbtwsResponse};
