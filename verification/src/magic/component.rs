//! Spell components.

use vstd::prelude::*;

verus! {

/// What a material component is made of. Material components differ too much to share one
/// type, so each kind is a type of its own.
pub trait MaterialBase {
}

/// A material component.
pub trait Material: MaterialBase {
}

/// A component of a spell: spoken, gestured, or a material of type `M`.
#[derive(Debug, Clone, Copy, PartialEq, Eq)]
pub enum Component<M> {
    Verbal,
    Somatic,
    Material(M),
}

/// The material component `material`.
#[allow(non_snake_case)]
pub fn M<T: Material>(material: T) -> (res: Component<T>)
    ensures
        res == Component::Material(material),
{
    Component::Material(material)
}

} // verus!
