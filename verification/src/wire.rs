//! The JSON shapes that go over the wire.

pub mod fields;
pub mod requests;
pub mod responses;
