use vstd::prelude::*;

pub mod combat;
pub mod creature;
pub mod dice;
pub mod health;
pub mod json;
pub mod magic;
pub mod measure;
pub mod stats;
pub mod text;

verus! {
} // verus!
