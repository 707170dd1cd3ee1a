//! A text picture of the battle grid, for debugging.

use vstd::prelude::*;

use crate::combat::arena::Position;
use crate::combat::combatant::Combat;
use crate::creature::CreatureId;
use crate::measure::Squares;

verus! {

/// `n` copies of `c`.
pub open spec fn spec_repeat(c: char, n: nat) -> Seq<char> {
    Seq::new(n, |_i: int| c)
}

/// A horizontal border for a grid `width` squares wide, between two corners.
pub open spec fn spec_border(width: nat, left: char, right: char) -> Seq<char> {
    seq![left] + spec_repeat('─', 2 * width + 1) + seq![right, '\n']
}

/// Whether the combatant at place `j` is creature `id` and has a name to show.
pub open spec fn spec_named(c: &Combat, id: u32, j: int) -> bool {
    0 <= j < c.initiative@.len() && c.initiative@[j].creature.id == CreatureId(id) && c.initiative@[j].creature.name@.len() > 0
}

/// The mark for a square: the first letter of the name of the first creature standing there,
/// or a dot.
pub open spec fn spec_mark(c: &Combat, pos: Position) -> char {
    let sq = c.arena.square(pos)->0@;
    if sq.len() > 0 && exists|j: int| #[trigger] spec_named(c, sq[0], j) {
        let j = choose|j: int| #[trigger] spec_named(c, sq[0], j);
        c.initiative@[j].creature.name@[0]
    } else {
        '·'
    }
}

/// The first `n` squares of row `y`, each mark followed by a space.
pub open spec fn spec_cells(c: &Combat, y: u32, n: nat) -> Seq<char>
    decreases n,
{
    if n == 0 {
        Seq::empty()
    } else {
        spec_cells(c, y, (n - 1) as nat) + seq![spec_mark(c, Position { x: Squares((n - 1) as u32), y: Squares(y) }), ' ']
    }
}

/// Row `y` of the picture.
pub open spec fn spec_row(c: &Combat, y: u32) -> Seq<char> {
    seq!['│', ' '] + spec_cells(c, y, c.arena.dims().width.0 as nat) + seq!['│', '\n']
}

/// The first `n` rows of the picture.
pub open spec fn spec_rows(c: &Combat, n: nat) -> Seq<char>
    decreases n,
{
    if n == 0 {
        Seq::empty()
    } else {
        spec_rows(c, (n - 1) as nat) + spec_row(c, (n - 1) as u32)
    }
}

/// The picture of the grid: a framed block with a mark and a space per square.
pub open spec fn spec_picture(c: &Combat) -> Seq<char> {
    let w = c.arena.dims().width.0 as nat;
    spec_border(w, '┌', '┐') + spec_rows(c, c.arena.dims().height.0 as nat) + spec_border(w, '└', '┘')
}

impl Combat {
    /// Appends a horizontal border.
    fn push_border(&self, out: &mut String, left: &str, right: &str)
        requires
            self.wf(),
            left@.len() == 1,
            right@.len() == 1,
        ensures
            final(out)@ == old(out)@ + spec_border(self.arena.dims().width.0 as nat, left@[0], right@[0]),
    {
        proof {
            reveal_strlit("─");
            reveal_strlit("\n");
        }
        let ghost start = out@;
        out.append(left);
        let n: u32 = self.arena.dimensions().width.0 * 2 + 1;
        let mut i: u32 = 0;
        while i < n
            invariant
                i <= n,
                n == 2 * self.arena.dims().width.0 + 1,
                left@.len() == 1,
                out@ == start + left@ + spec_repeat('─', i as nat),
            decreases n - i,
        {
            proof {
                reveal_strlit("─");
            }
            out.append("─");
            assert(spec_repeat('─', (i + 1) as nat) =~= spec_repeat('─', i as nat) + "─"@);
            i = i + 1;
        }
        out.append(right);
        out.append("\n");
        assert(left@ =~= seq![left@[0]]);
        assert(right@ + "\n"@ =~= seq![right@[0], '\n']);
        assert(out@ =~= start + spec_border(self.arena.dims().width.0 as nat, left@[0], right@[0]));
    }

    /// Appends the mark for the square at `pos`.
    fn push_mark(&self, out: &mut String, pos: Position)
        requires
            self.wf(),
            self.arena.dims().contains(pos),
        ensures
            final(out)@ == old(out)@ + seq![spec_mark(self, pos)],
    {
        proof {
            reveal_strlit("·");
        }
        let occupants = match self.arena.at(pos) {
            Some(sq) => sq.occupants(),
            None => Vec::new(),
        };
        if occupants.len() > 0 {
            let first = occupants[0];
            let mut j: usize = 0;
            while j < self.initiative.len()
                invariant
                    self.wf(),
                    occupants@ == self.arena.square(pos)->0@,
                    occupants@.len() > 0,
                    first == occupants@[0],
                    j <= self.initiative@.len(),
                    forall|k: int| 0 <= k < j ==> !spec_named(self, first, k),
                    out@ == old(out)@,
                decreases self.initiative@.len() - j,
            {
                let c = &self.initiative[j];
                if c.creature.id.0 == first && c.creature.name.as_str().unicode_len() > 0 {
                    proof {
                        assert(spec_named(self, first, j as int));
                        let k = choose|k: int| #[trigger] spec_named(self, first, k);
                        assert(k == j) by {
                            if k != j {
                                if k < j {
                                    assert(!spec_named(self, first, k));
                                } else {
                                    assert(self.initiative@[j as int].creature.id != self.initiative@[k].creature.id);
                                }
                            }
                        }
                    }
                    let initial = c.creature.name.as_str().substring_char(0, 1);
                    out.append(initial);
                    assert(initial@ =~= seq![c.creature.name@[0]]);
                    return;
                }
                j = j + 1;
            }
        }
        out.append("·");
        assert("·"@ =~= seq!['·']);
    }

    /// A text picture of the grid: a frame around one line per row, with, for each square,
    /// the first letter of the name of the first creature standing there (or a dot) and a
    /// space.
    pub fn display_debug(&self) -> (res: String)
        requires
            self.wf(),
            self.arena.dims().width.0 > 0,
        ensures
            res@ == spec_picture(self),
    {
        proof {
            reveal_strlit("┌");
            reveal_strlit("┐");
            reveal_strlit("└");
            reveal_strlit("┘");
            reveal_strlit("│ ");
            reveal_strlit(" ");
            reveal_strlit("│\n");
        }
        let dims = self.arena.dimensions();
        let mut out = String::new();
        self.push_border(&mut out, "┌", "┐");
        let ghost top = out@;
        let mut y: u32 = 0;
        while y < dims.height.0
            invariant
                self.wf(),
                dims == self.arena.dims(),
                y <= dims.height.0,
                out@ == top + spec_rows(self, y as nat),
            decreases dims.height.0 - y,
        {
            proof {
                reveal_strlit("│ ");
                reveal_strlit(" ");
                reveal_strlit("│\n");
            }
            let ghost before = out@;
            out.append("│ ");
            let mut x: u32 = 0;
            while x < dims.width.0
                invariant
                    self.wf(),
                    dims == self.arena.dims(),
                    y < dims.height.0,
                    x <= dims.width.0,
                    out@ == before + "│ "@ + spec_cells(self, y, x as nat),
                decreases dims.width.0 - x,
            {
                proof {
                    reveal_strlit(" ");
                }
                self.push_mark(&mut out, Position { x: Squares(x), y: Squares(y) });
                out.append(" ");
                assert(" "@ =~= seq![' ']);
                assert(out@ =~= before + "│ "@ + spec_cells(self, y, (x + 1) as nat));
                x = x + 1;
            }
            out.append("│\n");
            assert("│ "@ =~= seq!['│', ' ']);
            assert("│\n"@ =~= seq!['│', '\n']);
            assert(out@ =~= top + spec_rows(self, (y + 1) as nat));
            y = y + 1;
        }
        self.push_border(&mut out, "└", "┘");
        assert(top =~= spec_border(dims.width.0 as nat, '┌', '┐'));
        out
    }
}

} // verus!
