//! Verified core of an immediate mode entity tree library.
use vstd::prelude::*;

pub mod hashing;
pub mod id;
pub mod tree;
pub mod entity_mapping;
pub mod cached_hash;
pub mod utils;
pub mod hotpatching;
pub mod change;
pub mod access;
pub mod ui;

verus! {
} // verus!
