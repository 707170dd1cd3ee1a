//! Proficiencies, what they apply to, and the proficiency bonus.

use vstd::prelude::*;

use crate::stats::ability::Ability;
use crate::stats::skill::Skill;

verus! {

/// Something a proficiency can apply to: a saving throw (by ability) or a skill.
#[derive(Debug, Clone, Copy, PartialEq, Eq, Structural)]
pub enum ProficiencyApplicationBase {
    Ability(Ability),
    Skill(Skill),
}

impl ProficiencyApplicationBase {
    /// Whether this application is, or includes, `app`.
    pub fn contains(&self, app: &ProficiencyApplicationBase) -> (res: bool)
        ensures
            res == (*self == *app),
    {
        *self == *app
    }
}

/// A kind of thing a proficiency can apply to.
pub trait ProficiencyApplication: Sized {
    /// This value as a general application.
    spec fn spec_to_base(&self) -> ProficiencyApplicationBase;

    /// This value as a general application.
    fn to_base(&self) -> (res: ProficiencyApplicationBase)
        ensures
            res == self.spec_to_base(),
    ;
}

impl ProficiencyApplication for Skill {
    open spec fn spec_to_base(&self) -> ProficiencyApplicationBase {
        ProficiencyApplicationBase::Skill(*self)
    }

    fn to_base(&self) -> (res: ProficiencyApplicationBase) {
        ProficiencyApplicationBase::Skill(*self)
    }
}

impl ProficiencyApplication for Ability {
    open spec fn spec_to_base(&self) -> ProficiencyApplicationBase {
        ProficiencyApplicationBase::Ability(*self)
    }

    fn to_base(&self) -> (res: ProficiencyApplicationBase) {
        ProficiencyApplicationBase::Ability(*self)
    }
}

/// A proficiency and the kind of thing it applies to.
pub trait Proficiency: Sized {
    type Application;

    /// Whether this proficiency applies to `app`.
    spec fn spec_applies_to(&self, app: &Self::Application) -> bool;

    /// Whether this proficiency applies to `app`.
    fn applies_to(&self, app: &Self::Application) -> (res: bool)
        ensures
            res == self.spec_applies_to(app),
    ;
}

/// Proficiency in a skill.
#[derive(Debug, Clone, Copy, PartialEq, Eq, Structural)]
pub struct SkillProficiency {
    pub skill: Skill,
}

/// Proficiency in saving throws of an ability.
#[derive(Debug, Clone, Copy, PartialEq, Eq, Structural)]
pub struct SaveProficiency {
    pub ability: Ability,
}

impl Proficiency for SkillProficiency {
    type Application = Skill;

    open spec fn spec_applies_to(&self, app: &Skill) -> bool {
        self.skill == *app
    }

    fn applies_to(&self, app: &Skill) -> (res: bool) {
        self.skill == *app
    }
}

impl Proficiency for SaveProficiency {
    type Application = Ability;

    open spec fn spec_applies_to(&self, app: &Ability) -> bool {
        self.ability == *app
    }

    fn applies_to(&self, app: &Ability) -> (res: bool) {
        self.ability == *app
    }
}

/// Any proficiency a creature can hold.
#[derive(Debug, Clone, Copy, PartialEq, Eq, Structural)]
pub enum ProficiencyBase {
    Skill(SkillProficiency),
    Save(SaveProficiency),
}

impl ProficiencyBase {
    /// Whether this proficiency applies to `app`.
    pub open spec fn spec_applies_to(self, app: ProficiencyApplicationBase) -> bool {
        match (self, app) {
            (ProficiencyBase::Skill(p), ProficiencyApplicationBase::Skill(s)) => p.skill == s,
            (ProficiencyBase::Save(p), ProficiencyApplicationBase::Ability(a)) => p.ability == a,
            _ => false,
        }
    }

    /// Whether this proficiency applies to `app`.
    pub fn applies_to(&self, app: &ProficiencyApplicationBase) -> (res: bool)
        ensures
            res == self.spec_applies_to(*app),
    {
        match (self, app) {
            (ProficiencyBase::Skill(p), ProficiencyApplicationBase::Skill(s)) => p.applies_to(s),
            (ProficiencyBase::Save(p), ProficiencyApplicationBase::Ability(a)) => p.applies_to(a),
            _ => false,
        }
    }

    /// What kind of application this proficiency is for.
    pub fn application_kind_is_skill(&self) -> (res: bool)
        ensures
            res == (*self is Skill),
    {
        match self {
            ProficiencyBase::Skill(_) => true,
            ProficiencyBase::Save(_) => false,
        }
    }
}

/// The proficiencies a creature holds, in the order they were gained.
#[derive(Debug)]
pub struct Proficiencies {
    profs: Vec<ProficiencyBase>,
}

impl View for Proficiencies {
    type V = Seq<ProficiencyBase>;

    closed spec fn view(&self) -> Seq<ProficiencyBase> {
        self.profs@
    }
}

/// The first proficiency in `profs` that applies to `app`, if any.
pub open spec fn spec_first_applying(
    profs: Seq<ProficiencyBase>,
    app: ProficiencyApplicationBase,
) -> Option<ProficiencyBase>
    decreases profs.len(),
{
    if profs.len() == 0 {
        None
    } else if profs[0].spec_applies_to(app) {
        Some(profs[0])
    } else {
        spec_first_applying(profs.drop_first(), app)
    }
}

impl Proficiencies {
    pub fn new() -> (res: Self)
        ensures
            res@ == Seq::<ProficiencyBase>::empty(),
    {
        Proficiencies { profs: Vec::new() }
    }

    /// Gains a proficiency.
    pub fn insert(&mut self, prof: ProficiencyBase)
        ensures
            final(self)@ == old(self)@.push(prof),
    {
        self.profs.push(prof);
    }

    /// The proficiency (first gained) that applies to `app`, if any.
    pub fn get(&self, app: &ProficiencyApplicationBase) -> (res: Option<ProficiencyBase>)
        ensures
            res == spec_first_applying(self@, *app),
    {
        let mut i: usize = 0;
        assert(self.profs@.subrange(0, self.profs@.len() as int) =~= self.profs@);
        while i < self.profs.len()
            invariant
                i <= self.profs@.len(),
                spec_first_applying(self.profs@, *app) == spec_first_applying(
                    self.profs@.subrange(i as int, self.profs@.len() as int),
                    *app,
                ),
            decreases self.profs@.len() - i,
        {
            let ghost rest = self.profs@.subrange(i as int, self.profs@.len() as int);
            assert(rest.drop_first() =~= self.profs@.subrange(i + 1, self.profs@.len() as int));
            if self.profs[i].applies_to(app) {
                return Some(self.profs[i]);
            }
            i = i + 1;
        }
        None
    }
}

/// The proficiency bonus: +2 to +9.
#[derive(Debug, Clone, Copy, PartialEq, Eq, Structural)]
pub struct ProficiencyBonus(i8);

impl View for ProficiencyBonus {
    type V = i8;

    closed spec fn view(&self) -> i8 {
        self.0
    }
}

impl ProficiencyBonus {
    /// A bonus of `value`, which must lie in 2 to 9.
    pub fn new(value: i8) -> (res: Self)
        requires
            2 <= value <= 9,
        ensures
            res@ == value,
    {
        ProficiencyBonus(value)
    }

    /// The bonus as a number.
    pub fn value(&self) -> (res: i32)
        ensures
            res == self@,
    {
        self.0 as i32
    }
}

} // verus!
