//! Monsters: challenge ratings and monster types.

use vstd::prelude::*;

use crate::stats::proficiency::ProficiencyBonus;
use crate::text::{chars_equal, digit_str, lemma_digit_char, spec_digit_char};

verus! {

/// An integer challenge rating, 0 to 30.
#[derive(Debug, Clone, Copy, PartialEq, Eq, Structural)]
pub struct IntegerCr(u8);

impl View for IntegerCr {
    type V = u8;

    closed spec fn view(&self) -> u8 {
        self.0
    }
}

impl IntegerCr {
    #[verifier::type_invariant]
    spec fn inv(self) -> bool {
        self.0 <= 30
    }

    /// The rating as a number.
    pub fn value(self) -> (res: u8)
        ensures
            res == self@,
            res <= 30,
    {
        proof {
            use_type_invariant(self);
        }
        self.0
    }
}

/// A challenge rating: an integer 0 to 30, or one of the fractions 1/8, 1/4, 1/2.
#[derive(Debug, Clone, Copy, PartialEq, Eq, Structural)]
pub enum Cr {
    Integer(IntegerCr),
    Eighth,
    Quarter,
    Half,
}

/// A number above 30 was given as a challenge rating.
#[derive(Debug, Clone, Copy, PartialEq, Eq, Structural)]
pub struct OutOfBoundsError(pub u8);

/// Why a text is not a decimal number of `u8` range.
#[derive(Debug, Clone, Copy, PartialEq, Eq, Structural)]
pub enum IntErrorKind {
    Empty,
    InvalidDigit,
    PosOverflow,
}

/// Why a text is not a challenge rating.
#[derive(Debug, Clone, Copy, PartialEq, Eq, Structural)]
pub enum CrParseError {
    Format(IntErrorKind),
    Bounds(OutOfBoundsError),
}

/// A fractional challenge rating was used where an integer one was needed.
#[derive(Debug, Clone, Copy, PartialEq, Eq, Structural)]
pub struct NonIntegerError(pub Cr);

/// A stored challenge rating that is neither 0 to 30 nor one of the stored fractions.
#[derive(Debug, Clone, Copy, PartialEq, Eq, Structural)]
pub struct InvalidArchivedCrError;

/// Position of a rating in the order 0 < 1/8 < 1/4 < 1/2 < 1 < ... < 30.
pub open spec fn spec_cr_rank(c: Cr) -> int {
    match c {
        Cr::Integer(i) => if i@ == 0 { 0 } else { i@ + 3 },
        Cr::Eighth => 1,
        Cr::Quarter => 2,
        Cr::Half => 3,
    }
}

/// The proficiency bonus of a monster of rating `c`: +2 up to 4, then one more for each
/// further four.
pub open spec fn spec_cr_bonus(c: Cr) -> int {
    match c {
        Cr::Integer(i) => if i@ <= 4 { 2 } else { 2 + (i@ - 1) / 4 },
        _ => 2,
    }
}

/// The text of a rating.
pub open spec fn spec_cr_text(c: Cr) -> Seq<char> {
    match c {
        Cr::Integer(i) => if i@ < 10 {
            seq![spec_digit_char(i@ as int)]
        } else {
            seq![spec_digit_char((i@ / 10) as int), spec_digit_char((i@ % 10) as int)]
        },
        Cr::Eighth => seq!['1', '/', '8'],
        Cr::Quarter => seq!['1', '/', '4'],
        Cr::Half => seq!['1', '/', '2'],
    }
}

/// Whether `c` is a decimal digit.
pub open spec fn is_digit(c: char) -> bool {
    '0' <= c <= '9'
}

/// Reads decimal digits left to right onto `acc`, failing on a non-digit or once the value
/// passes 255.
pub open spec fn spec_parse_digits(s: Seq<char>, acc: int) -> Result<int, IntErrorKind>
    decreases s.len(),
{
    if s.len() == 0 {
        Ok(acc)
    } else if !is_digit(s[0]) {
        Err(IntErrorKind::InvalidDigit)
    } else if acc * 10 + (s[0] as int - '0' as int) > 255 {
        Err(IntErrorKind::PosOverflow)
    } else {
        spec_parse_digits(s.drop_first(), acc * 10 + (s[0] as int - '0' as int))
    }
}

/// Decimal text to `u8`: an optional leading `+`, then digits.
pub open spec fn spec_parse_u8(s: Seq<char>) -> Result<int, IntErrorKind> {
    if s.len() == 0 {
        Err(IntErrorKind::Empty)
    } else if s[0] == '+' {
        if s.len() == 1 {
            Err(IntErrorKind::InvalidDigit)
        } else {
            spec_parse_digits(s.drop_first(), 0)
        }
    } else {
        spec_parse_digits(s, 0)
    }
}

/// A challenge rating from text: "1/8", "1/4", "1/2", or an integer 0 to 30.
pub open spec fn spec_parse_cr(s: Seq<char>) -> Result<Cr, CrParseError> {
    if s == seq!['1', '/', '8'] {
        Ok(Cr::Eighth)
    } else if s == seq!['1', '/', '4'] {
        Ok(Cr::Quarter)
    } else if s == seq!['1', '/', '2'] {
        Ok(Cr::Half)
    } else {
        match spec_parse_u8(s) {
            Ok(i) => if i <= 30 {
                Ok(spec_integer_cr(i))
            } else {
                Err(CrParseError::Bounds(OutOfBoundsError(i as u8)))
            },
            Err(k) => Err(CrParseError::Format(k)),
        }
    }
}

/// The integer rating `i` (meaningful for 0 to 30).
pub closed spec fn spec_integer_cr(i: int) -> Cr {
    Cr::Integer(IntegerCr(i as u8))
}

/// `spec_integer_cr(i)` is the integer rating whose value is `i`.
pub proof fn lemma_spec_integer_cr(i: int)
    requires
        0 <= i <= 30,
    ensures
        spec_integer_cr(i) matches Cr::Integer(j) && j@ == i,
        valid_cr(spec_integer_cr(i)),
{
}

/// Little-endian word of four bytes.
pub open spec fn spec_le_word(a: int, b: int, c: int, d: int) -> int {
    a + b * 256 + c * 65536 + d * 16777216
}

/// The stored form of a rating: the integer itself, or the text of a fraction as a
/// little-endian word padded with a zero byte.
pub open spec fn spec_cr_repr(c: Cr) -> u32 {
    match c {
        Cr::Integer(i) => i@ as u32,
        Cr::Eighth => spec_le_word('1' as int, '/' as int, '8' as int, 0) as u32,
        Cr::Quarter => spec_le_word('1' as int, '/' as int, '4' as int, 0) as u32,
        Cr::Half => spec_le_word('1' as int, '/' as int, '2' as int, 0) as u32,
    }
}

/// Reads a stored rating.
pub open spec fn spec_check_cr_repr(raw: u32) -> Result<Cr, InvalidArchivedCrError> {
    if raw <= 30 {
        Ok(spec_integer_cr(raw as int))
    } else if raw == spec_cr_repr(Cr::Eighth) {
        Ok(Cr::Eighth)
    } else if raw == spec_cr_repr(Cr::Quarter) {
        Ok(Cr::Quarter)
    } else if raw == spec_cr_repr(Cr::Half) {
        Ok(Cr::Half)
    } else {
        Err(InvalidArchivedCrError)
    }
}

/// Whether the rating's integer, if any, lies in 0 to 30 (true of every rating this library
/// builds).
pub open spec fn valid_cr(c: Cr) -> bool {
    c matches Cr::Integer(i) ==> i@ <= 30
}

/// Little-endian word of four bytes.
fn le_word(a: u8, b: u8, c: u8, d: u8) -> (res: u32)
    ensures
        res == spec_le_word(a as int, b as int, c as int, d as int),
{
    a as u32 + b as u32 * 256 + c as u32 * 65536 + d as u32 * 16777216
}

/// Reads decimal text as a `u8`: an optional leading `+`, then digits.
pub fn parse_u8(s: &str) -> (res: Result<u8, IntErrorKind>)
    ensures
        match spec_parse_u8(s@) {
            Ok(v) => res == Ok::<u8, IntErrorKind>(v as u8) && 0 <= v <= 255,
            Err(k) => res == Err::<u8, IntErrorKind>(k),
        },
{
    let n = s.unicode_len();
    if n == 0 {
        return Err(IntErrorKind::Empty);
    }
    let mut i: usize = 0;
    if s.get_char(0) == '+' {
        if n == 1 {
            return Err(IntErrorKind::InvalidDigit);
        }
        i = 1;
    }
    let ghost start = i as int;
    assert(s@.subrange(1, n as int) =~= s@.drop_first());
    assert(s@.subrange(0, n as int) =~= s@);
    let mut acc: u32 = 0;
    while i < n
        invariant
            n == s@.len(),
            start <= i <= n,
            acc <= 255,
            spec_parse_u8(s@) == spec_parse_digits(s@.subrange(i as int, n as int), acc as int),
        decreases n - i,
    {
        let c = s.get_char(i);
        let ghost rest = s@.subrange(i as int, n as int);
        assert(rest[0] == c);
        assert(rest.drop_first() =~= s@.subrange(i + 1, n as int));
        if !('0' <= c && c <= '9') {
            return Err(IntErrorKind::InvalidDigit);
        }
        let d: u32 = (c as u32) - ('0' as u32);
        acc = acc * 10 + d;
        if acc > 255 {
            return Err(IntErrorKind::PosOverflow);
        }
        i = i + 1;
    }
    assert(s@.subrange(n as int, n as int).len() == 0);
    Ok(acc as u8)
}

impl Cr {
    /// The integer rating `integer`, when it lies in 0 to 30.
    pub fn try_new(integer: u8) -> (res: Result<Self, OutOfBoundsError>)
        ensures
            integer <= 30 ==> (res matches Ok(c) && c == spec_integer_cr(integer as int)
                && (c matches Cr::Integer(i) && i@ == integer)),
            integer > 30 ==> res == Err::<Self, OutOfBoundsError>(OutOfBoundsError(integer)),
    {
        if integer <= 30 {
            let c = Cr::Integer(IntegerCr(integer));
            proof {
                lemma_integer_cr(integer as int, c);
            }
            Ok(c)
        } else {
            Err(OutOfBoundsError(integer))
        }
    }

    /// Position in the order 0 < 1/8 < 1/4 < 1/2 < 1 < ... < 30.
    pub fn rank(&self) -> (res: u8)
        ensures
            res == spec_cr_rank(*self),
            valid_cr(*self),
    {
        match self {
            Cr::Integer(i) => {
                let v = i.value();
                if v == 0 { 0 } else { v + 3 }
            },
            Cr::Eighth => 1,
            Cr::Quarter => 2,
            Cr::Half => 3,
        }
    }

    /// Compares two ratings in the order 0 < 1/8 < 1/4 < 1/2 < 1 < ... < 30.
    pub fn cmp(&self, rhs: &Self) -> (res: core::cmp::Ordering)
        ensures
            (res == core::cmp::Ordering::Less) == (spec_cr_rank(*self) < spec_cr_rank(*rhs)),
            (res == core::cmp::Ordering::Equal) == (spec_cr_rank(*self) == spec_cr_rank(*rhs)),
            (res == core::cmp::Ordering::Greater) == (spec_cr_rank(*self) > spec_cr_rank(*rhs)),
    {
        let l = self.rank();
        let r = rhs.rank();
        if l < r {
            core::cmp::Ordering::Less
        } else if l == r {
            core::cmp::Ordering::Equal
        } else {
            core::cmp::Ordering::Greater
        }
    }

    /// The proficiency bonus of a monster of this rating.
    pub fn proficiency_bonus(&self) -> (res: ProficiencyBonus)
        ensures
            res@ == spec_cr_bonus(*self),
            2 <= res@ <= 9,
    {
        match self {
            Cr::Integer(i) => {
                let v = i.value();
                if v <= 4 {
                    ProficiencyBonus::new(2)
                } else if v <= 8 {
                    ProficiencyBonus::new(3)
                } else if v <= 12 {
                    ProficiencyBonus::new(4)
                } else if v <= 16 {
                    ProficiencyBonus::new(5)
                } else if v <= 20 {
                    ProficiencyBonus::new(6)
                } else if v <= 24 {
                    ProficiencyBonus::new(7)
                } else if v <= 28 {
                    ProficiencyBonus::new(8)
                } else {
                    ProficiencyBonus::new(9)
                }
            },
            _ => ProficiencyBonus::new(2),
        }
    }

    /// The integer of an integer rating.
    pub fn to_integer(self) -> (res: Result<u8, NonIntegerError>)
        ensures
            match self {
                Cr::Integer(i) => res == Ok::<u8, NonIntegerError>(i@),
                _ => res == Err::<u8, NonIntegerError>(NonIntegerError(self)),
            },
    {
        match self {
            Cr::Integer(i) => Ok(i.value()),
            _ => Err(NonIntegerError(self)),
        }
    }

    /// The text of this rating, e.g. "1/4" or "12".
    pub fn to_string(&self) -> (res: String)
        ensures
            res@ == spec_cr_text(*self),
    {
        match self {
            Cr::Integer(i) => {
                let v = i.value();
                if v < 10 {
                    String::from_str(digit_str(v))
                } else {
                    let mut s = String::from_str(digit_str(v / 10));
                    s.append(digit_str(v % 10));
                    s
                }
            },
            Cr::Eighth => {
                proof {
                    reveal_strlit("1/8");
                }
                String::from_str("1/8")
            },
            Cr::Quarter => {
                proof {
                    reveal_strlit("1/4");
                }
                String::from_str("1/4")
            },
            Cr::Half => {
                proof {
                    reveal_strlit("1/2");
                }
                String::from_str("1/2")
            },
        }
    }

    /// Reads a rating from text: "1/8", "1/4", "1/2", or an integer 0 to 30.
    pub fn parse(s: &str) -> (res: Result<Cr, CrParseError>)
        ensures
            res == spec_parse_cr(s@),
    {
        proof {
            reveal_strlit("1/8");
            reveal_strlit("1/4");
            reveal_strlit("1/2");
            assert("1/8"@ =~= seq!['1', '/', '8']);
            assert("1/4"@ =~= seq!['1', '/', '4']);
            assert("1/2"@ =~= seq!['1', '/', '2']);
        }
        if chars_equal(s, "1/8") {
            Ok(Cr::Eighth)
        } else if chars_equal(s, "1/4") {
            Ok(Cr::Quarter)
        } else if chars_equal(s, "1/2") {
            Ok(Cr::Half)
        } else {
            match parse_u8(s) {
                Ok(i) => if i <= 30 {
                    match Cr::try_new(i) {
                        Ok(c) => Ok(c),
                        Err(e) => Err(CrParseError::Bounds(e)),
                    }
                } else {
                    Err(CrParseError::Bounds(OutOfBoundsError(i)))
                },
                Err(k) => Err(CrParseError::Format(k)),
            }
        }
    }

    /// The stored form of this rating.
    pub fn to_repr(&self) -> (res: u32)
        ensures
            res == spec_cr_repr(*self),
    {
        match self {
            Cr::Integer(i) => i.value() as u32,
            Cr::Eighth => le_word(49, 47, 56, 0),
            Cr::Quarter => le_word(49, 47, 52, 0),
            Cr::Half => le_word(49, 47, 50, 0),
        }
    }
}

/// Reads a stored rating.
pub fn check_cr_repr(raw: u32) -> (res: Result<Cr, InvalidArchivedCrError>)
    ensures
        res == spec_check_cr_repr(raw),
        res matches Ok(c) ==> valid_cr(c),
{
    if raw <= 30 {
        let c = Cr::Integer(IntegerCr(raw as u8));
        proof {
            lemma_integer_cr(raw as int, c);
        }
        return Ok(c);
    }
    let eighth = Cr::Eighth.to_repr();
    let quarter = Cr::Quarter.to_repr();
    let half = Cr::Half.to_repr();
    if raw == eighth {
        Ok(Cr::Eighth)
    } else if raw == quarter {
        Ok(Cr::Quarter)
    } else if raw == half {
        Ok(Cr::Half)
    } else {
        Err(InvalidArchivedCrError)
    }
}

/// `spec_integer_cr(i)` is the integer rating `i`.
proof fn lemma_integer_cr(i: int, c: Cr)
    requires
        (c matches Cr::Integer(j) && j@ == i),
    ensures
        spec_integer_cr(i) == c,
{
    if let Cr::Integer(a) = c {
        assert(a == IntegerCr(i as u8));
    }
}

/// Ratings are totally ordered: distinct ratings have distinct ranks.
pub proof fn lemma_cr_rank_injective(a: Cr, b: Cr)
    requires
        valid_cr(a),
        valid_cr(b),
    ensures
        spec_cr_rank(a) == spec_cr_rank(b) <==> a == b,
{
    if spec_cr_rank(a) == spec_cr_rank(b) {
        if let (Cr::Integer(x), Cr::Integer(y)) = (a, b) {
            assert(x@ == y@);
            assert(x == y);
        }
    }
}

/// A higher rating never gives a lower proficiency bonus.
pub proof fn lemma_cr_bonus_monotone(a: Cr, b: Cr)
    requires
        valid_cr(a),
        valid_cr(b),
        spec_cr_rank(a) <= spec_cr_rank(b),
    ensures
        spec_cr_bonus(a) <= spec_cr_bonus(b),
{
}

/// Reading the text of a rating gives back the rating.
pub proof fn lemma_cr_text_round_trip(c: Cr)
    requires
        valid_cr(c),
    ensures
        spec_parse_cr(spec_cr_text(c)) == Ok::<Cr, CrParseError>(c),
{
    let t = spec_cr_text(c);
    if let Cr::Integer(i) = c {
        let v = i@ as int;
        if v < 10 {
            lemma_digit_char(v);
            assert(t[0] == spec_digit_char(v));
            assert(t != seq!['1', '/', '8']);
            assert(t != seq!['1', '/', '4']);
            assert(t != seq!['1', '/', '2']);
            assert(t.drop_first().len() == 0);
            assert(spec_parse_digits(t.drop_first(), v) == Ok::<int, IntErrorKind>(v));
            assert(spec_parse_digits(t, 0) == Ok::<int, IntErrorKind>(v));
        } else {
            let hi = v / 10;
            let lo = v % 10;
            lemma_digit_char(hi);
            lemma_digit_char(lo);
            assert(t[0] == spec_digit_char(hi));
            assert(t[1] == spec_digit_char(lo));
            assert(t != seq!['1', '/', '8']);
            assert(t != seq!['1', '/', '4']);
            assert(t != seq!['1', '/', '2']);
            assert(t.drop_first() =~= seq![spec_digit_char(lo)]);
            assert(t.drop_first().drop_first().len() == 0);
            assert(spec_parse_digits(t.drop_first().drop_first(), v) == Ok::<int, IntErrorKind>(v));
            assert(t.drop_first()[0] == spec_digit_char(lo));
            assert(hi * 10 + lo == v);
            assert(spec_parse_digits(t.drop_first(), hi) == Ok::<int, IntErrorKind>(v));
            assert(spec_parse_digits(t, 0) == Ok::<int, IntErrorKind>(v));
        }
        lemma_integer_cr(v, c);
    } else {
        assert(t.len() == 3);
    }
}

/// Every rating is stored in a readable form, and reading it gives back the rating.
pub proof fn lemma_cr_repr_round_trip(c: Cr)
    requires
        valid_cr(c),
    ensures
        spec_check_cr_repr(spec_cr_repr(c)) == Ok::<Cr, InvalidArchivedCrError>(c),
{
    if let Cr::Integer(i) = c {
        lemma_integer_cr(i@ as int, c);
    }
}

/// The type of a monster.
#[derive(Debug, Clone, Copy, PartialEq, Eq, Structural)]
pub enum MonsterType {
    Aberration,
    Beast,
    Celestial,
    Construct,
    Dragon,
    Elemental,
    Fey,
    Fiend,
    Giant,
    Humanoid,
    Monstrosity,
    Ooze,
    Plant,
    Undead,
}

/// The registered identifier of each monster type.
pub open spec fn spec_monster_type_id(t: MonsterType) -> Seq<char> {
    match t {
        MonsterType::Aberration => "ABERRATION"@,
        MonsterType::Beast => "BEAST"@,
        MonsterType::Celestial => "CELESTIAL"@,
        MonsterType::Construct => "CONSTRUCT"@,
        MonsterType::Dragon => "DRAGON"@,
        MonsterType::Elemental => "ELEMENTAL"@,
        MonsterType::Fey => "FEY"@,
        MonsterType::Fiend => "FIEND"@,
        MonsterType::Giant => "GIANT"@,
        MonsterType::Humanoid => "HUMANOID"@,
        MonsterType::Monstrosity => "MONSTROSITY"@,
        MonsterType::Ooze => "OOZE"@,
        MonsterType::Plant => "PLANT"@,
        MonsterType::Undead => "UNDEAD"@,
    }
}

/// The display title of each monster type.
pub open spec fn spec_monster_type_title(t: MonsterType) -> Seq<char> {
    match t {
        MonsterType::Aberration => "Aberration"@,
        MonsterType::Beast => "Beast"@,
        MonsterType::Celestial => "Celestial"@,
        MonsterType::Construct => "Construct"@,
        MonsterType::Dragon => "Dragon"@,
        MonsterType::Elemental => "Elemental"@,
        MonsterType::Fey => "Fey"@,
        MonsterType::Fiend => "Fiend"@,
        MonsterType::Giant => "Giant"@,
        MonsterType::Humanoid => "Humanoid"@,
        MonsterType::Monstrosity => "Monstrosity"@,
        MonsterType::Ooze => "Ooze"@,
        MonsterType::Plant => "Plant"@,
        MonsterType::Undead => "Undead"@,
    }
}

impl MonsterType {
    /// All monster types, in registry order.
    pub open spec fn spec_all() -> Seq<MonsterType> {
        seq![
            MonsterType::Aberration,
            MonsterType::Beast,
            MonsterType::Celestial,
            MonsterType::Construct,
            MonsterType::Dragon,
            MonsterType::Elemental,
            MonsterType::Fey,
            MonsterType::Fiend,
            MonsterType::Giant,
            MonsterType::Humanoid,
            MonsterType::Monstrosity,
            MonsterType::Ooze,
            MonsterType::Plant,
            MonsterType::Undead,
        ]
    }

    /// All monster types, in registry order.
    pub fn all() -> (res: Vec<MonsterType>)
        ensures
            res@ == Self::spec_all(),
    {
        let v = vec![
            MonsterType::Aberration,
            MonsterType::Beast,
            MonsterType::Celestial,
            MonsterType::Construct,
            MonsterType::Dragon,
            MonsterType::Elemental,
            MonsterType::Fey,
            MonsterType::Fiend,
            MonsterType::Giant,
            MonsterType::Humanoid,
            MonsterType::Monstrosity,
            MonsterType::Ooze,
            MonsterType::Plant,
            MonsterType::Undead,
        ];
        assert(v@ =~= Self::spec_all());
        v
    }

    /// The type's display title.
    pub fn title(&self) -> (res: &'static str)
        ensures
            res@ == spec_monster_type_title(*self),
    {
        match self {
            MonsterType::Aberration => "Aberration",
            MonsterType::Beast => "Beast",
            MonsterType::Celestial => "Celestial",
            MonsterType::Construct => "Construct",
            MonsterType::Dragon => "Dragon",
            MonsterType::Elemental => "Elemental",
            MonsterType::Fey => "Fey",
            MonsterType::Fiend => "Fiend",
            MonsterType::Giant => "Giant",
            MonsterType::Humanoid => "Humanoid",
            MonsterType::Monstrosity => "Monstrosity",
            MonsterType::Ooze => "Ooze",
            MonsterType::Plant => "Plant",
            MonsterType::Undead => "Undead",
        }
    }

    /// The type's registered identifier.
    pub fn id(&self) -> (res: &'static str)
        ensures
            res@ == spec_monster_type_id(*self),
    {
        match self {
            MonsterType::Aberration => "ABERRATION",
            MonsterType::Beast => "BEAST",
            MonsterType::Celestial => "CELESTIAL",
            MonsterType::Construct => "CONSTRUCT",
            MonsterType::Dragon => "DRAGON",
            MonsterType::Elemental => "ELEMENTAL",
            MonsterType::Fey => "FEY",
            MonsterType::Fiend => "FIEND",
            MonsterType::Giant => "GIANT",
            MonsterType::Humanoid => "HUMANOID",
            MonsterType::Monstrosity => "MONSTROSITY",
            MonsterType::Ooze => "OOZE",
            MonsterType::Plant => "PLANT",
            MonsterType::Undead => "UNDEAD",
        }
    }

    /// The monster type registered under `id`, if any (the first match in registry order).
    pub fn lookup(id: &str) -> (res: Option<MonsterType>)
        ensures
            res matches Some(t) ==> spec_monster_type_id(t) == id@,
            res is None ==> forall|t: MonsterType| spec_monster_type_id(t) != id@,
    {
        let all = MonsterType::all();
        let mut i: usize = 0;
        while i < all.len()
            invariant
                i <= all@.len(),
                all@ == Self::spec_all(),
                forall|j: int| 0 <= j < i ==> spec_monster_type_id(#[trigger] all@[j]) != id@,
            decreases all@.len() - i,
        {
            if chars_equal(all[i].id(), id) {
                return Some(all[i]);
            }
            i = i + 1;
        }
        proof {
            assert forall|t: MonsterType| spec_monster_type_id(t) != id@ by {
                let k: int = match t {
                    MonsterType::Aberration => 0,
                    MonsterType::Beast => 1,
                    MonsterType::Celestial => 2,
                    MonsterType::Construct => 3,
                    MonsterType::Dragon => 4,
                    MonsterType::Elemental => 5,
                    MonsterType::Fey => 6,
                    MonsterType::Fiend => 7,
                    MonsterType::Giant => 8,
                    MonsterType::Humanoid => 9,
                    MonsterType::Monstrosity => 10,
                    MonsterType::Ooze => 11,
                    MonsterType::Plant => 12,
                    MonsterType::Undead => 13,
                };
                assert(all@[k] == t);
            }
        }
        None
    }
}

/// A monster's type and its tags.
#[derive(Debug, Clone, PartialEq, Eq)]
pub struct Type {
    pub ty: MonsterType,
    pub tags: Vec<String>,
}

/// A monster: its challenge rating and type.
#[derive(Debug, Clone, PartialEq, Eq)]
pub struct Monster {
    pub cr: Cr,
    pub ty: Type,
}

} // verus!
