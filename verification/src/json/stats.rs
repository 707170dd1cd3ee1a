//! Stat block pieces as a creature file states them: damage types, damage dice, abilities.

use vstd::prelude::*;

use crate::dice::{spec_parse_dice, DiceExpr};
use crate::health::damage::{spec_damage_type_name, Damage, DamageType as RsDamageType};
use crate::stats::ability::Ability as RsAbility;

verus! {

/// A dice expression, such as `2d6+3`.
#[derive(Debug, Clone, Copy, PartialEq, Eq, Structural)]
pub struct DExpr(pub DiceExpr);

impl DExpr {
    /// Reads a dice expression; refused when the text is not one.
    pub fn try_from_str(value: &str) -> (res: Result<DExpr, &'static str>)
        ensures
            match spec_parse_dice(value@) {
                Some(d) => res == Ok::<DExpr, &'static str>(DExpr(d)),
                None => res is Err,
            },
    {
        match DiceExpr::parse(value) {
            Some(d) => Ok(DExpr(d)),
            None => Err("dice expression parsing error"),
        }
    }
}

/// A damage type as written in a creature file.
#[derive(Debug, Clone, Copy, PartialEq, Eq, Structural)]
pub enum DamageType {
    Acid,
    Bludgeoning,
    Cold,
    Fire,
    Force,
    Lighting,
    Necrotic,
    Piercing,
    Poison,
    Psychic,
    Radiant,
    Slashing,
    Thunder,
}

/// The damage type named.
pub open spec fn spec_damage_type(t: DamageType) -> RsDamageType {
    match t {
        DamageType::Acid => RsDamageType::Acid,
        DamageType::Bludgeoning => RsDamageType::Bludgeoning,
        DamageType::Cold => RsDamageType::Cold,
        DamageType::Fire => RsDamageType::Fire,
        DamageType::Force => RsDamageType::Force,
        DamageType::Lighting => RsDamageType::Lighting,
        DamageType::Necrotic => RsDamageType::Necrotic,
        DamageType::Piercing => RsDamageType::Piercing,
        DamageType::Poison => RsDamageType::Poison,
        DamageType::Psychic => RsDamageType::Psychic,
        DamageType::Radiant => RsDamageType::Radiant,
        DamageType::Slashing => RsDamageType::Slashing,
        DamageType::Thunder => RsDamageType::Thunder,
    }
}

/// The word a creature file uses for a damage type: its name in lower case.
pub open spec fn spec_file_name(t: DamageType) -> Seq<char> {
    match t {
        DamageType::Acid => "acid"@,
        DamageType::Bludgeoning => "bludgeoning"@,
        DamageType::Cold => "cold"@,
        DamageType::Fire => "fire"@,
        DamageType::Force => "force"@,
        DamageType::Lighting => "lighting"@,
        DamageType::Necrotic => "necrotic"@,
        DamageType::Piercing => "piercing"@,
        DamageType::Poison => "poison"@,
        DamageType::Psychic => "psychic"@,
        DamageType::Radiant => "radiant"@,
        DamageType::Slashing => "slashing"@,
        DamageType::Thunder => "thunder"@,
    }
}

/// A letter in upper case (other characters unchanged).
pub open spec fn spec_upper(c: char) -> char {
    if 'a' <= c <= 'z' {
        ((c as int) - 32) as char
    } else {
        c
    }
}

/// A word with its first letter in upper case.
pub open spec fn spec_capitalised(s: Seq<char>) -> Seq<char> {
    if s.len() == 0 {
        s
    } else {
        seq![spec_upper(s[0])] + s.skip(1)
    }
}

/// A damage type named in a creature file becomes the damage type of the same name: the
/// library's name for it is the file's word, capitalised.
pub proof fn lemma_damage_type_keeps_its_name(t: DamageType)
    ensures
        spec_damage_type_name(spec_damage_type(t)) == spec_capitalised(spec_file_name(t)),
{
    match t {
        DamageType::Acid => {
            reveal_strlit("Acid");
            reveal_strlit("acid");
            assert(spec_damage_type_name(spec_damage_type(t)) =~= spec_capitalised(spec_file_name(t)));
        },
        DamageType::Bludgeoning => {
            reveal_strlit("Bludgeoning");
            reveal_strlit("bludgeoning");
            assert(spec_damage_type_name(spec_damage_type(t)) =~= spec_capitalised(spec_file_name(t)));
        },
        DamageType::Cold => {
            reveal_strlit("Cold");
            reveal_strlit("cold");
            assert(spec_damage_type_name(spec_damage_type(t)) =~= spec_capitalised(spec_file_name(t)));
        },
        DamageType::Fire => {
            reveal_strlit("Fire");
            reveal_strlit("fire");
            assert(spec_damage_type_name(spec_damage_type(t)) =~= spec_capitalised(spec_file_name(t)));
        },
        DamageType::Force => {
            reveal_strlit("Force");
            reveal_strlit("force");
            assert(spec_damage_type_name(spec_damage_type(t)) =~= spec_capitalised(spec_file_name(t)));
        },
        DamageType::Lighting => {
            reveal_strlit("Lighting");
            reveal_strlit("lighting");
            assert(spec_damage_type_name(spec_damage_type(t)) =~= spec_capitalised(spec_file_name(t)));
        },
        DamageType::Necrotic => {
            reveal_strlit("Necrotic");
            reveal_strlit("necrotic");
            assert(spec_damage_type_name(spec_damage_type(t)) =~= spec_capitalised(spec_file_name(t)));
        },
        DamageType::Piercing => {
            reveal_strlit("Piercing");
            reveal_strlit("piercing");
            assert(spec_damage_type_name(spec_damage_type(t)) =~= spec_capitalised(spec_file_name(t)));
        },
        DamageType::Poison => {
            reveal_strlit("Poison");
            reveal_strlit("poison");
            assert(spec_damage_type_name(spec_damage_type(t)) =~= spec_capitalised(spec_file_name(t)));
        },
        DamageType::Psychic => {
            reveal_strlit("Psychic");
            reveal_strlit("psychic");
            assert(spec_damage_type_name(spec_damage_type(t)) =~= spec_capitalised(spec_file_name(t)));
        },
        DamageType::Radiant => {
            reveal_strlit("Radiant");
            reveal_strlit("radiant");
            assert(spec_damage_type_name(spec_damage_type(t)) =~= spec_capitalised(spec_file_name(t)));
        },
        DamageType::Slashing => {
            reveal_strlit("Slashing");
            reveal_strlit("slashing");
            assert(spec_damage_type_name(spec_damage_type(t)) =~= spec_capitalised(spec_file_name(t)));
        },
        DamageType::Thunder => {
            reveal_strlit("Thunder");
            reveal_strlit("thunder");
            assert(spec_damage_type_name(spec_damage_type(t)) =~= spec_capitalised(spec_file_name(t)));
        },
    }
}

impl DamageType {
    /// The damage type named.
    pub fn into_rust(self) -> (res: RsDamageType)
        ensures
            res == spec_damage_type(self),
            spec_damage_type_name(res) == spec_capitalised(spec_file_name(self)),
    {
        proof {
            lemma_damage_type_keeps_its_name(self);
        }
        match self {
            DamageType::Acid => RsDamageType::Acid,
            DamageType::Bludgeoning => RsDamageType::Bludgeoning,
            DamageType::Cold => RsDamageType::Cold,
            DamageType::Fire => RsDamageType::Fire,
            DamageType::Force => RsDamageType::Force,
            DamageType::Lighting => RsDamageType::Lighting,
            DamageType::Necrotic => RsDamageType::Necrotic,
            DamageType::Piercing => RsDamageType::Piercing,
            DamageType::Poison => RsDamageType::Poison,
            DamageType::Psychic => RsDamageType::Psychic,
            DamageType::Radiant => RsDamageType::Radiant,
            DamageType::Slashing => RsDamageType::Slashing,
            DamageType::Thunder => RsDamageType::Thunder,
        }
    }
}

/// Damage dice by type, each type named once.
#[derive(Debug, Clone, PartialEq, Eq)]
pub struct DamageDice(pub Vec<(DamageType, DExpr)>);

/// The dice listed for damage type `t` (the first listing of it), if any.
pub open spec fn spec_dice_for(pairs: Seq<(DamageType, DExpr)>, t: RsDamageType) -> Option<DiceExpr>
    decreases pairs.len(),
{
    if pairs.len() == 0 {
        None
    } else if spec_damage_type(pairs[0].0) == t {
        Some(pairs[0].1.0)
    } else {
        spec_dice_for(pairs.drop_first(), t)
    }
}

/// No damage type is listed twice.
pub open spec fn distinct_types(pairs: Seq<(DamageType, DExpr)>) -> bool {
    forall|i: int, j: int| 0 <= i < j < pairs.len() ==> (#[trigger] pairs[i]).0 != (#[trigger] pairs[j]).0
}

/// When the types are distinct, the dice for a type are those of its listing.
proof fn lemma_dice_for_listed(pairs: Seq<(DamageType, DExpr)>, k: int)
    requires
        distinct_types(pairs),
        0 <= k < pairs.len(),
    ensures
        spec_dice_for(pairs, spec_damage_type(pairs[k].0)) == Some(pairs[k].1.0),
    decreases pairs.len(),
{
    if k > 0 {
        let rest = pairs.drop_first();
        assert(pairs[0].0 != pairs[k].0);
        assert(spec_damage_type(pairs[0].0) != spec_damage_type(pairs[k].0));
        assert(rest[k - 1] == pairs[k]);
        assert(distinct_types(rest)) by {
            assert forall|i: int, j: int| 0 <= i < j < rest.len() implies (#[trigger] rest[i]).0 != (#[trigger] rest[j]).0 by {
                assert(rest[i] == pairs[i + 1] && rest[j] == pairs[j + 1]);
            }
        }
        lemma_dice_for_listed(rest, k - 1);
    }
}

/// A type not listed has no dice.
proof fn lemma_dice_for_unlisted(pairs: Seq<(DamageType, DExpr)>, t: RsDamageType)
    requires
        forall|i: int| 0 <= i < pairs.len() ==> spec_damage_type(#[trigger] pairs[i].0) != t,
    ensures
        spec_dice_for(pairs, t) is None,
    decreases pairs.len(),
{
    if pairs.len() > 0 {
        let rest = pairs.drop_first();
        assert forall|i: int| 0 <= i < rest.len() implies spec_damage_type(#[trigger] rest[i].0) != t by {
            assert(rest[i] == pairs[i + 1]);
        }
        lemma_dice_for_unlisted(rest, t);
    }
}

impl DamageDice {
    /// The damage dice, by type.
    pub fn into_damage(self) -> (res: Damage<DiceExpr>)
        requires
            distinct_types(self.0@),
        ensures
            forall|t: RsDamageType| #[trigger] res.part(t) == spec_dice_for(self.0@, t),
    {
        let pairs = self.0;
        let mut out: Damage<DiceExpr> = Damage::new();
        let mut i: usize = 0;
        while i < pairs.len()
            invariant
                i <= pairs@.len(),
                distinct_types(pairs@),
                forall|t: RsDamageType| #![trigger out.part(t)] (forall|k: int| 0 <= k < i ==> spec_damage_type(#[trigger] pairs@[k].0) != t)
                    ==> out.part(t) is None,
                forall|k: int| 0 <= k < i ==> #[trigger] out.part(spec_damage_type(pairs@[k].0)) == Some(pairs@[k].1.0),
            decreases pairs@.len() - i,
        {
            let (ty, d) = pairs[i];
            let rust = ty.into_rust();
            out.set(rust, Some(d.0));
            proof {
                assert forall|k: int| 0 <= k < i + 1 implies #[trigger] out.part(spec_damage_type(pairs@[k].0)) == Some(pairs@[k].1.0) by {
                    if k < i {
                        assert(pairs@[k].0 != pairs@[i as int].0);
                        assert(spec_damage_type(pairs@[k].0) != rust);
                    }
                }
            }
            i = i + 1;
        }
        proof {
            assert forall|t: RsDamageType| #[trigger] out.part(t) == spec_dice_for(pairs@, t) by {
                if exists|k: int| 0 <= k < pairs@.len() && spec_damage_type(#[trigger] pairs@[k].0) == t {
                    let k = choose|k: int| 0 <= k < pairs@.len() && spec_damage_type(#[trigger] pairs@[k].0) == t;
                    lemma_dice_for_listed(pairs@, k);
                } else {
                    lemma_dice_for_unlisted(pairs@, t);
                }
            }
        }
        out
    }
}

/// An ability as written in a creature file.
#[derive(Debug, Clone, Copy, PartialEq, Eq, Structural)]
pub enum Ability {
    Strength,
    Dexterity,
    Constitution,
    Intelligence,
    Wisdom,
    Charisma,
}

/// The ability named.
pub open spec fn spec_ability(a: Ability) -> RsAbility {
    match a {
        Ability::Strength => RsAbility::Strength,
        Ability::Dexterity => RsAbility::Dexterity,
        Ability::Constitution => RsAbility::Constitution,
        Ability::Intelligence => RsAbility::Intelligence,
        Ability::Wisdom => RsAbility::Wisdom,
        Ability::Charisma => RsAbility::Charisma,
    }
}

impl Ability {
    /// The ability named.
    pub fn into_rust(self) -> (res: RsAbility)
        ensures
            res == spec_ability(self),
    {
        match self {
            Ability::Strength => RsAbility::Strength,
            Ability::Dexterity => RsAbility::Dexterity,
            Ability::Constitution => RsAbility::Constitution,
            Ability::Intelligence => RsAbility::Intelligence,
            Ability::Wisdom => RsAbility::Wisdom,
            Ability::Charisma => RsAbility::Charisma,
        }
    }
}

} // verus!
