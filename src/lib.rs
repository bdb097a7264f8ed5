//! A small client for an exchange's private REST API: request signing,
//! request bodies, reading the reply envelope, and the decision whether to
//! sell the whole balance of the traded asset.

pub mod primitives;
pub mod sign;
pub mod reply;
pub mod request;
pub mod text;
