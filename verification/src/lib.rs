//! The outbound integration fabric of a policy-evaluation service.
//!
//! Every sibling service is reached the same way: an adapter turns one
//! operation into one [`integration::Request`], the embedding program performs
//! it, and the [`integration::Outcome`] it met is classified here into a value
//! or one of four failures. The library itself never touches the network, so
//! every rule it applies is stated in a contract and proved.

pub mod config;
pub mod duration;
pub mod integration;
pub mod json;
pub mod number;
pub mod text;
