//! Magic: schools of magic, spell components and areas of effect.

use vstd::prelude::*;

pub mod component;
pub mod school;

verus! {

/// An area that a spell affects.
pub trait AreaOfEffect {
}

} // verus!
