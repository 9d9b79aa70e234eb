//! A metadata-normalization library for upstream media catalogs: it shapes
//! outbound catalog queries, maps provider-native item payloads into one
//! canonical media record, and accounts for pagination, independently of the
//! transport that carries the requests.
use vstd::prelude::*;

pub mod laws;
pub mod models;
pub mod audible;
pub mod dates;
pub mod dedup;
pub mod pagination;
pub mod text;

verus! {

/// A fixed page size shared by every search operation, so that pagination
/// arithmetic is consistent across providers.
pub const PAGE_LIMIT: i32 = 20;

} // verus!

