//! Damage dice: a number of dice of some size plus a flat bonus.

use vstd::prelude::*;

use crate::creature::monster::{is_digit, IntErrorKind};
use crate::text::{lemma_digit_char, spec_digit_char};

verus! {

/// `qty` dice of `sides` sides, plus `bonus`.
#[derive(Debug, Clone, Copy, PartialEq, Eq, Structural)]
pub struct DiceExpr {
    pub qty: u32,
    pub sides: u32,
    pub bonus: i32,
}

/// The sum of the faces rolled plus the bonus.
pub open spec fn spec_face_sum(faces: Seq<u32>) -> int
    decreases faces.len(),
{
    if faces.len() == 0 {
        0
    } else {
        spec_face_sum(faces.drop_last()) + faces.last()
    }
}

/// Why a text is not a dice expression.
#[derive(Debug, Clone, Copy, PartialEq, Eq, Structural)]
pub enum DiceParseError {
    /// A number in the expression is malformed or too large.
    Number(IntErrorKind),
    /// The text is not of the form `[N]dS[+B|-B]` or a plain number.
    Shape,
}

/// Reads an unsigned decimal number of at most nine digits from `s[from..to]`.
pub open spec fn spec_number(s: Seq<char>, from: int, to: int) -> Option<int>
    decreases to - from,
{
    if from >= to || to - from > 9 {
        None
    } else if !is_digit(s[to - 1]) {
        None
    } else if from == to - 1 {
        Some(s[to - 1] as int - '0' as int)
    } else {
        match spec_number(s, from, to - 1) {
            Some(v) => Some(v * 10 + (s[to - 1] as int - '0' as int)),
            None => None,
        }
    }
}

/// A number of at most nine digits is below a billion.
proof fn lemma_number_bound(s: Seq<char>, from: int, to: int)
    ensures
        spec_number(s, from, to) matches Some(v) ==> 0 <= v < pow10(to - from),
    decreases to - from,
{
    if from < to && to - from <= 9 && is_digit(s[to - 1]) && from == to - 1 {
        reveal_with_fuel(pow10, 2);
        assert(pow10(1) == 10);
    }
    if from < to && to - from <= 9 && is_digit(s[to - 1]) && from != to - 1 {
        lemma_number_bound(s, from, to - 1);
        if let Some(v) = spec_number(s, from, to - 1) {
            let p = pow10(to - 1 - from);
            assert(pow10(to - from) == p * 10);
            let d = s[to - 1] as int - '0' as int;
            assert(v * 10 + d < p * 10) by (nonlinear_arith)
                requires 0 <= v < p, 0 <= d < 10;
        }
    }
}

/// Ten to the power `n`.
pub open spec fn pow10(n: int) -> int
    decreases n,
{
    if n <= 0 { 1 } else { 10 * pow10(n - 1) }
}

/// Reads `s[from..to]` as an unsigned number of at most nine digits.
fn number(s: &str, from: usize, to: usize) -> (res: Option<u32>)
    requires
        from <= to <= s@.len(),
    ensures
        res is Some <==> spec_number(s@, from as int, to as int) is Some,
        res is Some ==> res->0 == spec_number(s@, from as int, to as int)->0
            && spec_number(s@, from as int, to as int)->0 < 1_000_000_000,
{
    if from >= to || to - from > 9 {
        return None;
    }
    let mut acc: u32 = 0;
    let mut i = from;
    proof {
        lemma_number_bound(s@, from as int, to as int);
    }
    while i < to
        invariant
            from <= i <= to <= s@.len(),
            to - from <= 9,
            i > from ==> spec_number(s@, from as int, i as int) == Some(acc as int),
            i > from ==> acc < pow10(i - from),
            i == from ==> acc == 0,
            forall|k: int| from <= k < i ==> is_digit(s@[k]),
        decreases to - i,
    {
        let c = s.get_char(i);
        if !('0' <= c && c <= '9') {
            proof {
                lemma_number_none(s@, from as int, i as int, to as int);
            }
            return None;
        }
        proof {
            assert(pow10(i + 1 - from) == 10 * pow10(i - from));
            reveal_with_fuel(pow10, 10);
            assert(pow10(9) == 1_000_000_000);
            lemma_pow10_mono(i + 1 - from, 9);
        }
        acc = acc * 10 + ((c as u32) - ('0' as u32));
        i = i + 1;
    }
    proof {
        reveal_with_fuel(pow10, 10);
        assert(pow10(9) == 1_000_000_000);
        lemma_pow10_mono(to - from, 9);
    }
    Some(acc)
}

/// Powers of ten grow.
proof fn lemma_pow10_mono(a: int, b: int)
    requires
        0 <= a <= b,
    ensures
        1 <= pow10(a) <= pow10(b),
    decreases b,
{
    if a < b {
        lemma_pow10_mono(a, b - 1);
    } else if b > 0 {
        lemma_pow10_mono(a - 1, b - 1);
    }
}

/// A non-digit inside the range means no number.
proof fn lemma_number_none(s: Seq<char>, from: int, bad: int, to: int)
    requires
        from <= bad < to,
        !is_digit(s[bad]),
    ensures
        spec_number(s, from, to) is None,
    decreases to - from,
{
    if from < to && to - from <= 9 && is_digit(s[to - 1]) && from != to - 1 {
        lemma_number_none(s, from, bad, to - 1);
    }
}

/// A dice expression from text: `[N]dS`, optionally followed by `+B` or `-B`, or a plain
/// number `B`. A missing `N` means one die; numbers have at most nine digits.
pub open spec fn spec_parse_dice(s: Seq<char>) -> Option<DiceExpr> {
    if exists|d: int| 0 <= d < s.len() && s[d] == 'd' {
        let d = choose|d: int| 0 <= d < s.len() && s[d] == 'd' && forall|k: int| 0 <= k < d ==> s[k] != 'd';
        let qty = if d == 0 { Some(1int) } else { spec_number(s, 0, d) };
        let sign = spec_sign_at(s, d + 1);
        let sides_end = if sign < s.len() { sign } else { s.len() as int };
        let sides = spec_number(s, d + 1, sides_end);
        let bonus = if sign < s.len() {
            match spec_number(s, sign + 1, s.len() as int) {
                Some(b) => Some(if s[sign] == '-' { -b } else { b }),
                None => None,
            }
        } else {
            Some(0int)
        };
        match (qty, sides, bonus) {
            (Some(q), Some(sd), Some(b)) => Some(DiceExpr { qty: q as u32, sides: sd as u32, bonus: b as i32 }),
            _ => None,
        }
    } else {
        match spec_number(s, 0, s.len() as int) {
            Some(b) => Some(DiceExpr { qty: 0, sides: 0, bonus: b as i32 }),
            None => None,
        }
    }
}

/// The position of the first `+` or `-` at or after `from` (or the length when there is none).
pub open spec fn spec_sign_at(s: Seq<char>, from: int) -> int
    decreases s.len() - from,
{
    if from >= s.len() {
        s.len() as int
    } else if s[from] == '+' || s[from] == '-' {
        from
    } else {
        spec_sign_at(s, from + 1)
    }
}

impl DiceExpr {
    /// A plain number.
    pub fn flat(bonus: i32) -> (res: Self)
        ensures
            res == (DiceExpr { qty: 0, sides: 0, bonus }),
    {
        DiceExpr { qty: 0, sides: 0, bonus }
    }

    /// The same expression with twice the dice (a critical hit).
    pub fn doubled_dice(&self) -> (res: Self)
        requires
            self.qty * 2 <= u32::MAX,
        ensures
            res == (DiceExpr { qty: (self.qty * 2) as u32, sides: self.sides, bonus: self.bonus }),
    {
        DiceExpr { qty: self.qty * 2, sides: self.sides, bonus: self.bonus }
    }

    /// The same expression with `modifier` added to the bonus.
    pub fn plus(&self, modifier: i32) -> (res: Self)
        requires
            i32::MIN <= self.bonus + modifier <= i32::MAX,
        ensures
            res == (DiceExpr { qty: self.qty, sides: self.sides, bonus: (self.bonus + modifier) as i32 }),
    {
        DiceExpr { qty: self.qty, sides: self.sides, bonus: self.bonus + modifier }
    }

    /// The result of a roll: the faces rolled (one per die, each from 1 to the die size) plus
    /// the bonus.
    pub fn total_from(&self, faces: &Vec<u32>) -> (res: i64)
        requires
            faces@.len() == self.qty,
            forall|i: int| 0 <= i < faces@.len() ==> 1 <= #[trigger] faces@[i] <= self.sides,
            self.qty <= 1_000_000_000,
            self.sides <= 1_000_000_000,
        ensures
            res == spec_face_sum(faces@) + self.bonus,
    {
        let mut acc: i64 = 0;
        let mut i: usize = 0;
        while i < faces.len()
            invariant
                i <= faces@.len(),
                faces@.len() == self.qty,
                self.qty <= 1_000_000_000,
                self.sides <= 1_000_000_000,
                forall|k: int| 0 <= k < faces@.len() ==> 1 <= #[trigger] faces@[k] <= self.sides,
                acc == spec_face_sum(faces@.take(i as int)),
                0 <= acc <= i * self.sides,
            decreases faces@.len() - i,
        {
            assert(faces@.take(i + 1).drop_last() =~= faces@.take(i as int));
            assert((i + 1) * self.sides == i * self.sides + self.sides) by (nonlinear_arith);
            assert(i * self.sides <= 1_000_000_000 * 1_000_000_000) by (nonlinear_arith)
                requires i <= 1_000_000_000, self.sides <= 1_000_000_000;
            acc = acc + faces[i] as i64;
            i = i + 1;
        }
        assert(faces@.take(faces@.len() as int) =~= faces@);
        assert(i * self.sides <= 1_000_000_000 * 1_000_000_000) by (nonlinear_arith)
            requires i <= 1_000_000_000, self.sides <= 1_000_000_000;
        acc + self.bonus as i64
    }

    /// Reads a dice expression: `[N]dS`, optionally followed by `+B` or `-B`, or a plain number.
    pub fn parse(s: &str) -> (res: Option<DiceExpr>)
        ensures
            res == spec_parse_dice(s@),
    {
        let n = s.unicode_len();
        // Find the first 'd'.
        let mut d: usize = 0;
        while d < n
            invariant
                n == s@.len(),
                d <= n,
                forall|k: int| 0 <= k < d ==> s@[k] != 'd',
            ensures
                d <= n,
                forall|k: int| 0 <= k < d ==> s@[k] != 'd',
                d < n ==> s@[d as int] == 'd',
            decreases n - d,
        {
            if s.get_char(d) == 'd' {
                break;
            }
            d = d + 1;
        }
        if d == n {
            proof {
                assert(!exists|k: int| 0 <= k < s@.len() && s@[k] == 'd');
            }
            let r = number(s, 0, n);
            return match r {
                Some(b) => {
                    assert(b < 1_000_000_000);
                    Some(DiceExpr { qty: 0, sides: 0, bonus: b as i32 })
                },
                None => None,
            };
        }
        proof {
            assert(s@[d as int] == 'd');
            let c = choose|c: int| 0 <= c < s@.len() && s@[c] == 'd' && forall|k: int| 0 <= k < c ==> s@[k] != 'd';
            assert(c == d) by {
                if c < d {
                    assert(s@[c] != 'd');
                }
                if c > d {
                    assert(s@[d as int] != 'd');
                }
            }
        }
        let qty = if d == 0 { Some(1u32) } else { number(s, 0, d) };
        // Find the sign after the die size, if any.
        let mut sign: usize = d + 1;
        while sign < n
            invariant
                n == s@.len(),
                d < n,
                d + 1 <= sign <= n,
                spec_sign_at(s@, d + 1) == spec_sign_at(s@, sign as int),
            ensures
                d + 1 <= sign <= n,
                spec_sign_at(s@, d + 1) == spec_sign_at(s@, sign as int),
                sign < n ==> (s@[sign as int] == '+' || s@[sign as int] == '-'),
            decreases n - sign,
        {
            let c = s.get_char(sign);
            if c == '+' || c == '-' {
                break;
            }
            sign = sign + 1;
        }
        proof {
            if sign == n {
                assert(spec_sign_at(s@, sign as int) == n);
            } else {
                assert(spec_sign_at(s@, sign as int) == sign);
            }
        }
        let sides_end = if sign < n { sign } else { n };
        let sides = number(s, d + 1, sides_end);
        let bonus: Option<i32> = if sign < n {
            match number(s, sign + 1, n) {
                Some(b) => {
                    assert(b < 1_000_000_000);
                    let v = b as i32;
                    Some(if s.get_char(sign) == '-' { -v } else { v })
                },
                None => None,
            }
        } else {
            Some(0)
        };
        match (qty, sides, bonus) {
            (Some(q), Some(sd), Some(b)) => Some(DiceExpr { qty: q, sides: sd, bonus: b }),
            _ => None,
        }
    }
}

/// The decimal text of a natural number, most significant digit first, without leading zeros.
pub open spec fn spec_decimal(n: nat) -> Seq<char>
    decreases n,
{
    if n < 10 {
        seq![spec_digit_char(n as int)]
    } else {
        spec_decimal(n / 10) + seq![spec_digit_char((n % 10) as int)]
    }
}

/// The decimal text of a number below `10^k` has between one and `k` characters, all digits.
proof fn lemma_decimal_shape(n: nat, k: int)
    requires
        k >= 1,
        n < pow10(k),
    ensures
        1 <= spec_decimal(n).len() <= k,
        forall|i: int| 0 <= i < spec_decimal(n).len() ==> is_digit(#[trigger] spec_decimal(n)[i]),
    decreases n,
{
    if n < 10 {
        lemma_digit_char(n as int);
    } else {
        assert(k >= 2) by {
            if k < 2 {
                reveal_with_fuel(pow10, 2);
                assert(pow10(1) == 10);
                assert(pow10(k) <= 10) by {
                    lemma_pow10_mono(k, 1);
                }
            }
        }
        assert(pow10(k) == 10 * pow10(k - 1));
        assert((n / 10) < pow10(k - 1)) by (nonlinear_arith)
            requires
                n < 10 * pow10(k - 1),
        ;
        lemma_decimal_shape(n / 10, k - 1);
        lemma_digit_char((n % 10) as int);
        let t = spec_decimal(n);
        assert forall|i: int| 0 <= i < t.len() implies is_digit(#[trigger] t[i]) by {
            if i < spec_decimal(n / 10).len() {
                assert(t[i] == spec_decimal(n / 10)[i]);
            }
        }
    }
}

/// Reading the decimal text of a number of at most nine digits gives the number back,
/// wherever the text stands in a longer one.
proof fn lemma_number_of_decimal(s: Seq<char>, from: int, n: nat)
    requires
        0 <= from,
        n < 1_000_000_000,
        from + spec_decimal(n).len() <= s.len(),
        s.subrange(from, from + spec_decimal(n).len()) == spec_decimal(n),
    ensures
        spec_number(s, from, from + spec_decimal(n).len()) == Some(n as int),
    decreases n,
{
    reveal_with_fuel(pow10, 10);
    assert(pow10(9) == 1_000_000_000);
    lemma_decimal_shape(n, 9);
    let len = spec_decimal(n).len() as int;
    let to = from + len;
    assert(s[to - 1] == spec_decimal(n)[len - 1]);
    if n < 10 {
        lemma_digit_char(n as int);
    } else {
        let m = (n / 10) as nat;
        let head = spec_decimal(m);
        lemma_decimal_shape(m, 9);
        assert(head.len() == len - 1);
        assert(s.subrange(from, from + head.len()) =~= head) by {
            assert forall|i: int| 0 <= i < head.len() implies s.subrange(from, from + head.len())[i] == head[i] by {
                assert(s[from + i] == s.subrange(from, to)[i]);
                assert(spec_decimal(n)[i] == head[i]);
            }
        }
        lemma_number_of_decimal(s, from, m);
        lemma_digit_char((n % 10) as int);
        assert(spec_decimal(n)[len - 1] == spec_digit_char((n % 10) as int));
    }
}

/// No `+` or `-` in `s[from..p]` and one at `p`: the first sign at or after `from` is at `p`.
proof fn lemma_sign_at(s: Seq<char>, from: int, p: int)
    requires
        0 <= from <= p <= s.len(),
        forall|k: int| from <= k < p ==> s[k] != '+' && s[k] != '-',
        p < s.len() ==> (s[p] == '+' || s[p] == '-'),
    ensures
        spec_sign_at(s, from) == p,
    decreases p - from,
{
    if from < p {
        lemma_sign_at(s, from + 1, p);
    }
}

/// The text `NdS`, followed by `+B` when `plus` holds.
pub open spec fn spec_dice_text(qty: nat, sides: nat, bonus: nat, plus: bool) -> Seq<char> {
    let core = spec_decimal(qty) + seq!['d'] + spec_decimal(sides);
    if plus {
        core + seq!['+'] + spec_decimal(bonus)
    } else {
        core
    }
}

/// Parsing undoes writing: the text of `qty` dice of `sides` sides (at least one die, numbers
/// of at most nine digits), optionally followed by `+bonus`, reads back as that expression,
/// with no bonus when none is written.
pub proof fn lemma_parse_dice_text(qty: nat, sides: nat, bonus: nat, plus: bool)
    requires
        1 <= qty < 1_000_000_000,
        sides < 1_000_000_000,
        bonus < 1_000_000_000,
    ensures
        spec_parse_dice(spec_dice_text(qty, sides, bonus, plus)) == Some(
            DiceExpr { qty: qty as u32, sides: sides as u32, bonus: if plus { bonus as i32 } else { 0i32 } },
        ),
{
    reveal_with_fuel(pow10, 10);
    assert(pow10(9) == 1_000_000_000);
    lemma_decimal_shape(qty, 9);
    lemma_decimal_shape(sides, 9);
    lemma_decimal_shape(bonus, 9);
    let q = spec_decimal(qty);
    let sd = spec_decimal(sides);
    let b = spec_decimal(bonus);
    let s = spec_dice_text(qty, sides, bonus, plus);
    let d = q.len() as int;
    let e = d + 1 + sd.len();
    assert(s.len() == if plus { e + 1 + b.len() } else { e });
    assert forall|k: int| 0 <= k < d implies s[k] == q[k] by {}
    assert forall|k: int| 0 <= k < sd.len() implies s[d + 1 + k] == sd[k] by {}
    assert(s[d] == 'd');
    // The first `d` is the one after the number of dice.
    assert(forall|k: int| 0 <= k < d ==> s[k] != 'd') by {
        assert forall|k: int| 0 <= k < d implies s[k] != 'd' by {
            assert(is_digit(q[k]));
        }
    }
    let c = choose|c: int| 0 <= c < s.len() && s[c] == 'd' && forall|k: int| 0 <= k < c ==> s[k] != 'd';
    assert(c == d) by {
        if c < d {
            assert(is_digit(q[c]));
        }
    }
    // The numbers stand where they were written.
    assert(s.subrange(0, d) =~= q);
    lemma_number_of_decimal(s, 0, qty);
    assert(s.subrange(d + 1, e) =~= sd);
    lemma_number_of_decimal(s, d + 1, sides);
    assert forall|k: int| d + 1 <= k < e implies s[k] != '+' && s[k] != '-' by {
        assert(s[k] == sd[k - d - 1]);
        assert(is_digit(sd[k - d - 1]));
    }
    if plus {
        assert(s[e] == '+');
        lemma_sign_at(s, d + 1, e);
        assert(s.subrange(e + 1, s.len() as int) =~= b);
        lemma_number_of_decimal(s, e + 1, bonus);
    } else {
        lemma_sign_at(s, d + 1, e);
    }
}

} // verus!
