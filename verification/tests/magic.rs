use xander::magic::component::{Component, Material, MaterialBase, M};
use xander::magic::school::{Abjuration, Necromancy, School, Transmutation};

#[test]
fn test_name_case() {
    assert_eq!(Necromancy::LOCAL_ID, "NECROMANCY")
}

#[test]
fn school_ids_are_upper_case_names() {
    assert_eq!(Abjuration.local_id(), "ABJURATION");
    assert_eq!(Transmutation.local_id(), Transmutation::LOCAL_ID);
}

#[derive(Debug, Clone, Copy, PartialEq, Eq)]
struct BatGuano;

impl MaterialBase for BatGuano {}
impl Material for BatGuano {}

#[test]
fn material_component_holds_its_material() {
    assert_eq!(M(BatGuano), Component::Material(BatGuano));
    assert_ne!(Component::<BatGuano>::Verbal, Component::Somatic);
}
