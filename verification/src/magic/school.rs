//! The schools of magic, each known by an id: its name in upper snake case.

use vstd::prelude::*;

verus! {

/// A school of magic.
pub trait School {
    /// The id the school is known by.
    spec fn spec_local_id(&self) -> Seq<char>;

    /// The id the school is known by.
    fn local_id(&self) -> (res: &'static str)
        ensures
            res@ == self.spec_local_id(),
    ;
}

#[derive(Debug, Clone, Copy, PartialEq, Eq, Structural)]
pub struct Abjuration;

#[derive(Debug, Clone, Copy, PartialEq, Eq, Structural)]
pub struct Conjuration;

#[derive(Debug, Clone, Copy, PartialEq, Eq, Structural)]
pub struct Divination;

#[derive(Debug, Clone, Copy, PartialEq, Eq, Structural)]
pub struct Enchantment;

#[derive(Debug, Clone, Copy, PartialEq, Eq, Structural)]
pub struct Evocation;

#[derive(Debug, Clone, Copy, PartialEq, Eq, Structural)]
pub struct Illusion;

#[derive(Debug, Clone, Copy, PartialEq, Eq, Structural)]
pub struct Necromancy;

#[derive(Debug, Clone, Copy, PartialEq, Eq, Structural)]
pub struct Transmutation;

impl Abjuration {
    pub const LOCAL_ID: &'static str = "ABJURATION";
}

impl Conjuration {
    pub const LOCAL_ID: &'static str = "CONJURATION";
}

impl Divination {
    pub const LOCAL_ID: &'static str = "DIVINATION";
}

impl Enchantment {
    pub const LOCAL_ID: &'static str = "ENCHANTMENT";
}

impl Evocation {
    pub const LOCAL_ID: &'static str = "EVOCATION";
}

impl Illusion {
    pub const LOCAL_ID: &'static str = "ILLUSION";
}

impl Necromancy {
    pub const LOCAL_ID: &'static str = "NECROMANCY";
}

impl Transmutation {
    pub const LOCAL_ID: &'static str = "TRANSMUTATION";
}

impl School for Abjuration {
    open spec fn spec_local_id(&self) -> Seq<char> {
        "ABJURATION"@
    }

    fn local_id(&self) -> (res: &'static str) {
        proof {
            reveal_strlit("ABJURATION");
        }
        Abjuration::LOCAL_ID
    }
}

impl School for Conjuration {
    open spec fn spec_local_id(&self) -> Seq<char> {
        "CONJURATION"@
    }

    fn local_id(&self) -> (res: &'static str) {
        proof {
            reveal_strlit("CONJURATION");
        }
        Conjuration::LOCAL_ID
    }
}

impl School for Divination {
    open spec fn spec_local_id(&self) -> Seq<char> {
        "DIVINATION"@
    }

    fn local_id(&self) -> (res: &'static str) {
        proof {
            reveal_strlit("DIVINATION");
        }
        Divination::LOCAL_ID
    }
}

impl School for Enchantment {
    open spec fn spec_local_id(&self) -> Seq<char> {
        "ENCHANTMENT"@
    }

    fn local_id(&self) -> (res: &'static str) {
        proof {
            reveal_strlit("ENCHANTMENT");
        }
        Enchantment::LOCAL_ID
    }
}

impl School for Evocation {
    open spec fn spec_local_id(&self) -> Seq<char> {
        "EVOCATION"@
    }

    fn local_id(&self) -> (res: &'static str) {
        proof {
            reveal_strlit("EVOCATION");
        }
        Evocation::LOCAL_ID
    }
}

impl School for Illusion {
    open spec fn spec_local_id(&self) -> Seq<char> {
        "ILLUSION"@
    }

    fn local_id(&self) -> (res: &'static str) {
        proof {
            reveal_strlit("ILLUSION");
        }
        Illusion::LOCAL_ID
    }
}

impl School for Necromancy {
    open spec fn spec_local_id(&self) -> Seq<char> {
        "NECROMANCY"@
    }

    fn local_id(&self) -> (res: &'static str) {
        proof {
            reveal_strlit("NECROMANCY");
        }
        Necromancy::LOCAL_ID
    }
}

impl School for Transmutation {
    open spec fn spec_local_id(&self) -> Seq<char> {
        "TRANSMUTATION"@
    }

    fn local_id(&self) -> (res: &'static str) {
        proof {
            reveal_strlit("TRANSMUTATION");
        }
        Transmutation::LOCAL_ID
    }
}

} // verus!
