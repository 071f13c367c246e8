use vstd::prelude::*;

pub mod dashboard;
pub mod error;
pub mod models;
pub mod payload;
pub mod services;
pub mod sync;
pub mod text;
pub mod time;

verus! {
} // verus!
