//! The client side of the graphics pipeline: capability negotiation,
//! surface tracking, frame accounting and the delivery of decoded bitmaps.

pub mod caps;
pub mod client;
