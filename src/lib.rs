//! Trade-listing message handling: listing addresses, the order state
//! machine, the per-order store and the dispatcher that turns an inbound
//! signed event into state changes and an outbound reply.

pub mod address;
pub mod dispatch;
pub mod event;
pub mod identity;
pub mod laws;
pub mod marker;
pub mod message;
pub mod state;
pub mod status;
pub mod supervisor;
pub mod tags;
pub mod text;
pub mod validation;
