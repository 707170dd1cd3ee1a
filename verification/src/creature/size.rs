//! Creature sizes and their footprint on the grid.

use vstd::prelude::*;

use crate::measure::{Squares, squares_covering};

verus! {

/// One side of a Gargantuan creature, in feet: at least 20 and a multiple of 5.
#[derive(Debug, Clone, Copy, PartialEq, Eq, Structural)]
pub struct GargantuanDim(u16);

impl View for GargantuanDim {
    type V = u16;

    closed spec fn view(&self) -> u16 {
        self.0
    }
}

/// Whether `s` feet is a valid Gargantuan side.
pub open spec fn valid_gargantuan_dim(s: int) -> bool {
    s >= 20 && s % 5 == 0
}

impl GargantuanDim {
    #[verifier::type_invariant]
    spec fn inv(self) -> bool {
        valid_gargantuan_dim(self.0 as int)
    }

    /// A side of `s` feet, when `s` is at least 20 and a multiple of 5.
    pub fn new(s: u16) -> (res: Option<Self>)
        ensures
            res is Some <==> valid_gargantuan_dim(s as int),
            res matches Some(d) ==> d@ == s,
    {
        if s % 5 != 0 || s < 20 {
            return None;
        }
        Some(GargantuanDim(s))
    }

    /// The side in feet.
    pub fn feet(self) -> (res: u16)
        ensures
            res == self@,
            valid_gargantuan_dim(res as int),
    {
        proof {
            use_type_invariant(self);
        }
        self.0
    }
}

/// The size of a creature.
#[derive(Debug, Clone, Copy, PartialEq, Eq, Structural)]
pub enum CreatureSize {
    Tiny,
    Small,
    Medium,
    Large,
    Huge,
    Gargantuan(GargantuanDim, GargantuanDim),
}

/// The squares a creature of size `s` takes up along each side: Tiny (2.5 ft) and Small and
/// Medium (5 ft) take one, Large (10 ft) two, Huge (15 ft) three, and Gargantuan its sides
/// rounded up to whole squares.
pub open spec fn spec_dims_squares(s: CreatureSize) -> (int, int) {
    match s {
        CreatureSize::Tiny => (1, 1),
        CreatureSize::Small => (1, 1),
        CreatureSize::Medium => (1, 1),
        CreatureSize::Large => (2, 2),
        CreatureSize::Huge => (3, 3),
        CreatureSize::Gargantuan(x, y) => (squares_covering(x@ as int), squares_covering(y@ as int)),
    }
}

impl CreatureSize {
    /// The squares this creature takes up, width by height.
    pub fn dims_squares(self) -> (res: (Squares, Squares))
        ensures
            res.0.0 == spec_dims_squares(self).0,
            res.1.0 == spec_dims_squares(self).1,
    {
        match self {
            CreatureSize::Tiny => (Squares(1), Squares(1)),
            CreatureSize::Small => (Squares(1), Squares(1)),
            CreatureSize::Medium => (Squares(1), Squares(1)),
            CreatureSize::Large => (Squares(2), Squares(2)),
            CreatureSize::Huge => (Squares(3), Squares(3)),
            CreatureSize::Gargantuan(x, y) => {
                let xf = x.feet() as u32;
                let yf = y.feet() as u32;
                (Squares((xf + 4) / 5), Squares((yf + 4) / 5))
            },
        }
    }
}

/// The stored form of a size: `[1..=5, 0]` for Tiny to Huge, or the two Gargantuan sides.
#[derive(Debug, Clone, Copy, PartialEq, Eq, Structural)]
pub struct ArchivedCreatureSize(pub u16, pub u16);

/// Why a stored size is malformed.
#[derive(Debug, Clone, Copy, PartialEq, Eq, Structural)]
pub enum InvalidCreatureSizeError {
    /// The first component is neither 1 to 5 nor at least 20.
    InvalidFirstComponent(u16),
    /// A size from Tiny to Huge has a nonzero second component.
    NonzeroSecondComponent(u16),
    /// Gargantuan sides must be multiples of 5 feet.
    NotMultipleOfFive(u16, u16),
}

/// The stored form of a size.
pub open spec fn spec_from_size(size: CreatureSize) -> ArchivedCreatureSize {
    match size {
        CreatureSize::Tiny => ArchivedCreatureSize(1, 0),
        CreatureSize::Small => ArchivedCreatureSize(2, 0),
        CreatureSize::Medium => ArchivedCreatureSize(3, 0),
        CreatureSize::Large => ArchivedCreatureSize(4, 0),
        CreatureSize::Huge => ArchivedCreatureSize(5, 0),
        CreatureSize::Gargantuan(x, y) => ArchivedCreatureSize(x@, y@),
    }
}

/// Validation of a stored size.
pub open spec fn spec_check_size(a: ArchivedCreatureSize) -> Result<(), InvalidCreatureSizeError> {
    if 1 <= a.0 <= 5 {
        if a.1 == 0 {
            Ok(())
        } else {
            Err(InvalidCreatureSizeError::NonzeroSecondComponent(a.1))
        }
    } else if a.0 >= 20 && a.1 >= 20 {
        if a.0 % 5 == 0 && a.1 % 5 == 0 {
            Ok(())
        } else {
            Err(InvalidCreatureSizeError::NotMultipleOfFive(a.0, a.1))
        }
    } else {
        Err(InvalidCreatureSizeError::InvalidFirstComponent(a.0))
    }
}

impl ArchivedCreatureSize {
    /// The stored form of a size.
    pub fn from_size(size: CreatureSize) -> (res: Self)
        ensures
            res == spec_from_size(size),
    {
        match size {
            CreatureSize::Tiny => ArchivedCreatureSize(1, 0),
            CreatureSize::Small => ArchivedCreatureSize(2, 0),
            CreatureSize::Medium => ArchivedCreatureSize(3, 0),
            CreatureSize::Large => ArchivedCreatureSize(4, 0),
            CreatureSize::Huge => ArchivedCreatureSize(5, 0),
            CreatureSize::Gargantuan(x, y) => ArchivedCreatureSize(x.feet(), y.feet()),
        }
    }

    /// Checks that this is the stored form of some size.
    pub fn check(&self) -> (res: Result<(), InvalidCreatureSizeError>)
        ensures
            res == spec_check_size(*self),
    {
        if 1 <= self.0 && self.0 <= 5 {
            if self.1 == 0 {
                Ok(())
            } else {
                Err(InvalidCreatureSizeError::NonzeroSecondComponent(self.1))
            }
        } else if self.0 >= 20 && self.1 >= 20 {
            if self.0 % 5 == 0 && self.1 % 5 == 0 {
                Ok(())
            } else {
                Err(InvalidCreatureSizeError::NotMultipleOfFive(self.0, self.1))
            }
        } else {
            Err(InvalidCreatureSizeError::InvalidFirstComponent(self.0))
        }
    }

    /// The size this stored form holds.
    pub fn as_size(self) -> (res: CreatureSize)
        requires
            spec_check_size(self) is Ok,
        ensures
            spec_from_size(res) == self,
            valid_size(res),
    {
        if self.0 == 1 {
            CreatureSize::Tiny
        } else if self.0 == 2 {
            CreatureSize::Small
        } else if self.0 == 3 {
            CreatureSize::Medium
        } else if self.0 == 4 {
            CreatureSize::Large
        } else if self.0 == 5 {
            CreatureSize::Huge
        } else {
            let x = GargantuanDim::new(self.0).unwrap();
            let y = GargantuanDim::new(self.1).unwrap();
            CreatureSize::Gargantuan(x, y)
        }
    }
}

/// Whether a size's Gargantuan sides (if any) are valid; every size value built by this
/// library is.
pub open spec fn valid_size(size: CreatureSize) -> bool {
    size matches CreatureSize::Gargantuan(x, y) ==> valid_gargantuan_dim(x@ as int)
        && valid_gargantuan_dim(y@ as int)
}

/// Every size is stored in a valid form.
pub proof fn lemma_size_archive_round_trip(size: CreatureSize)
    requires
        valid_size(size),
    ensures
        spec_check_size(spec_from_size(size)) is Ok,
{
}

/// Stored forms and sizes match one to one.
pub proof fn lemma_size_archive_injective(a: CreatureSize, b: CreatureSize)
    requires
        valid_size(a),
        valid_size(b),
    ensures
        spec_from_size(a) == spec_from_size(b) ==> a == b,
{
    if spec_from_size(a) == spec_from_size(b) {
        if let (CreatureSize::Gargantuan(x1, y1), CreatureSize::Gargantuan(x2, y2)) = (a, b) {
            assert(x1@ == x2@ && y1@ == y2@);
            assert(x1 == x2 && y1 == y2);
        }
    }
}

} // verus!
