//! The scramble generator: move types, the validity predicates, and the
//! constrained random sequence generator.

use vstd::prelude::*;
use vstd::string::StringExecFns;

verus! {

/// A face of the cube: Up, Down, Left, Right, Front, Back.
#[derive(Debug, Clone, Copy, PartialEq, Eq, Structural)]
pub enum Move {
    U,
    D,
    L,
    R,
    F,
    B,
}

/// How far a face is turned: a quarter turn clockwise, a quarter turn
/// counter-clockwise, or a half turn.
#[derive(Debug, Clone, Copy, PartialEq, Eq, Structural)]
pub enum MoveVariation {
    Normal,
    Prime,
    Double,
}

/// One move of a scramble: a face together with a variation.
#[derive(Debug, Clone, Copy, PartialEq, Eq, Structural)]
pub struct ScrambleMove {
    pub mv: Move,
    pub variation: MoveVariation,
}

/// The letter a face is written as.
pub open spec fn spec_face_str(m: Move) -> Seq<char> {
    match m {
        Move::U => seq!['U'],
        Move::D => seq!['D'],
        Move::L => seq!['L'],
        Move::R => seq!['R'],
        Move::F => seq!['F'],
        Move::B => seq!['B'],
    }
}

/// The suffix a variation is written as: nothing for a normal turn, an
/// apostrophe for a prime turn, a two for a half turn.
pub open spec fn spec_variation_str(v: MoveVariation) -> Seq<char> {
    match v {
        MoveVariation::Normal => Seq::empty(),
        MoveVariation::Prime => seq!['\''],
        MoveVariation::Double => seq!['2'],
    }
}

/// The text of one move: its face letter followed by its variation suffix.
pub open spec fn spec_move_str(m: ScrambleMove) -> Seq<char> {
    spec_face_str(m.mv) + spec_variation_str(m.variation)
}

impl ScrambleMove {
    /// The text of this move, such as `U`, `R'` or `F2`.
    pub fn to_string(&self) -> (r: String)
        ensures
            r@ == spec_move_str(*self),
    {
        let mut s = String::new();
        match self.mv {
            Move::U => {
                proof {
                    reveal_strlit("U");
                }
                s.append("U");
            },
            Move::D => {
                proof {
                    reveal_strlit("D");
                }
                s.append("D");
            },
            Move::L => {
                proof {
                    reveal_strlit("L");
                }
                s.append("L");
            },
            Move::R => {
                proof {
                    reveal_strlit("R");
                }
                s.append("R");
            },
            Move::F => {
                proof {
                    reveal_strlit("F");
                }
                s.append("F");
            },
            Move::B => {
                proof {
                    reveal_strlit("B");
                }
                s.append("B");
            },
        }
        proof {
            assert(s@ =~= spec_face_str(self.mv));
        }
        match self.variation {
            MoveVariation::Normal => {},
            MoveVariation::Prime => {
                proof {
                    reveal_strlit("'");
                }
                s.append("'");
            },
            MoveVariation::Double => {
                proof {
                    reveal_strlit("2");
                }
                s.append("2");
            },
        }
        proof {
            assert(s@ =~= spec_move_str(*self));
        }
        s
    }
}

/// Two moves cancel when they turn the same face and the turns undo each
/// other: a quarter turn against the opposite quarter turn, or a half turn
/// against another half turn.
pub open spec fn spec_moves_cancel(m1: ScrambleMove, m2: ScrambleMove) -> bool {
    m1.mv == m2.mv && ((m1.variation == MoveVariation::Normal && m2.variation
        == MoveVariation::Prime) || (m1.variation == MoveVariation::Prime && m2.variation
        == MoveVariation::Normal) || (m1.variation == MoveVariation::Double && m2.variation
        == MoveVariation::Double))
}

/// Two moves repeat when they turn the same face, whatever the variations.
pub open spec fn spec_moves_repeat(m1: ScrambleMove, m2: ScrambleMove) -> bool {
    m1.mv == m2.mv
}

/// The three pairs of opposite faces: Up/Down, Left/Right, Front/Back.
pub open spec fn spec_are_opposite_faces(m1: Move, m2: Move) -> bool {
    ||| (m1 == Move::U && m2 == Move::D)
    ||| (m1 == Move::D && m2 == Move::U)
    ||| (m1 == Move::L && m2 == Move::R)
    ||| (m1 == Move::R && m2 == Move::L)
    ||| (m1 == Move::F && m2 == Move::B)
    ||| (m1 == Move::B && m2 == Move::F)
}

/// Whether two moves cancel each other.
pub fn moves_cancel(m1: &ScrambleMove, m2: &ScrambleMove) -> (r: bool)
    ensures
        r == spec_moves_cancel(*m1, *m2),
{
    m1.mv == m2.mv && ((m1.variation == MoveVariation::Normal && m2.variation
        == MoveVariation::Prime) || (m1.variation == MoveVariation::Prime && m2.variation
        == MoveVariation::Normal) || (m1.variation == MoveVariation::Double && m2.variation
        == MoveVariation::Double))
}

/// Whether two moves turn the same face (even with different variations).
pub fn moves_repeat(m1: &ScrambleMove, m2: &ScrambleMove) -> (r: bool)
    ensures
        r == spec_moves_repeat(*m1, *m2),
{
    m1.mv == m2.mv
}

/// Whether two faces are opposite faces of the cube (like U and D, or L and R).
pub fn are_opposite_faces(m1: &Move, m2: &Move) -> (r: bool)
    ensures
        r == spec_are_opposite_faces(*m1, *m2),
{
    match (m1, m2) {
        (Move::U, Move::D) | (Move::D, Move::U) => true,
        (Move::L, Move::R) | (Move::R, Move::L) => true,
        (Move::F, Move::B) | (Move::B, Move::F) => true,
        _ => false,
    }
}

/// The last move of a sequence, if there is one.
pub open spec fn prev_of(s: Seq<ScrambleMove>) -> Option<ScrambleMove> {
    if s.len() == 0 {
        Option::None
    } else {
        Option::Some(s[s.len() - 1])
    }
}

/// The second-to-last move of a sequence, if there is one.
pub open spec fn prev2_of(s: Seq<ScrambleMove>) -> Option<ScrambleMove> {
    if s.len() <= 1 {
        Option::None
    } else {
        Option::Some(s[s.len() - 2])
    }
}

/// Whether a candidate move may follow the given last and second-to-last
/// moves: it must not repeat or cancel the last move, and it must not turn a
/// face opposite to the faces of both previous moves.
pub open spec fn spec_move_allowed(
    prev2: Option<ScrambleMove>,
    prev: Option<ScrambleMove>,
    c: ScrambleMove,
) -> bool {
    match prev {
        Option::None => true,
        Option::Some(p) => !spec_moves_repeat(p, c) && !spec_moves_cancel(p, c) && match prev2 {
            Option::None => true,
            Option::Some(p2) => !(spec_are_opposite_faces(p2.mv, c.mv) && spec_are_opposite_faces(
                p.mv,
                c.mv,
            )),
        },
    }
}

/// Whether the move at position `i` of a scramble obeys the constraints
/// relative to the one or two moves before it.
pub open spec fn scramble_ok_at(s: Seq<ScrambleMove>, i: int) -> bool {
    spec_move_allowed(prev2_of(s.take(i)), prev_of(s.take(i)), s[i])
}

/// A valid scramble: no move repeats or cancels the move before it, and no
/// move turns a face opposite to the faces of both moves before it.
pub open spec fn valid_scramble(s: Seq<ScrambleMove>) -> bool {
    forall|i: int| 0 <= i < s.len() ==> #[trigger] scramble_ok_at(s, i)
}

/// In a valid scramble, a move never repeats or cancels the move before it,
/// and never turns a face opposite to the faces of both moves before it.
pub proof fn lemma_valid_scramble_constraints(s: Seq<ScrambleMove>, i: int)
    requires
        valid_scramble(s),
        1 <= i < s.len(),
    ensures
        !spec_moves_repeat(s[i - 1], s[i]),
        !spec_moves_cancel(s[i - 1], s[i]),
        i >= 2 ==> !(spec_are_opposite_faces(s[i - 2].mv, s[i].mv) && spec_are_opposite_faces(
            s[i - 1].mv,
            s[i].mv,
        )),
{
    assert(scramble_ok_at(s, i));
    assert(s.take(i)[i - 1] == s[i - 1]);
    if i >= 2 {
        assert(s.take(i)[i - 2] == s[i - 2]);
    }
}

/// Appending an allowed move to a valid scramble keeps it valid.
proof fn lemma_valid_push(s: Seq<ScrambleMove>, c: ScrambleMove)
    requires
        valid_scramble(s),
        spec_move_allowed(prev2_of(s), prev_of(s), c),
    ensures
        valid_scramble(s.push(c)),
{
    let t = s.push(c);
    assert forall|i: int| 0 <= i < t.len() implies #[trigger] scramble_ok_at(t, i) by {
        if i < s.len() {
            assert(scramble_ok_at(s, i));
            assert(t.take(i) =~= s.take(i));
            assert(t[i] == s[i]);
        } else {
            assert(t.take(i) =~= s);
            assert(t[i] == c);
        }
    }
}

/// Whether a candidate move may follow the given previous moves.
fn move_allowed(
    prev2: &Option<ScrambleMove>,
    prev: &Option<ScrambleMove>,
    c: &ScrambleMove,
) -> (r: bool)
    ensures
        r == spec_move_allowed(*prev2, *prev, *c),
{
    match prev {
        Option::None => true,
        Option::Some(p) => {
            if moves_repeat(p, c) || moves_cancel(p, c) {
                false
            } else {
                match prev2 {
                    Option::None => true,
                    Option::Some(p2) => !(are_opposite_faces(&p2.mv, &c.mv) && are_opposite_faces(
                        &p.mv,
                        &c.mv,
                    )),
                }
            }
        },
    }
}

/// The face a drawn index stands for; the six indices cover the six faces.
fn face_of_index(i: usize) -> (f: Move)
    requires
        i < 6,
{
    if i == 0 {
        Move::U
    } else if i == 1 {
        Move::D
    } else if i == 2 {
        Move::L
    } else if i == 3 {
        Move::R
    } else if i == 4 {
        Move::F
    } else {
        Move::B
    }
}

/// The variation a drawn index stands for.
fn variation_of_index(i: usize) -> (v: MoveVariation)
    requires
        i < 3,
{
    if i == 0 {
        MoveVariation::Normal
    } else if i == 1 {
        MoveVariation::Prime
    } else {
        MoveVariation::Double
    }
}

/// A face on a different axis than the given one: neither the same face nor
/// its opposite.
fn other_axis_face(face: &Move) -> (f: Move)
    ensures
        f != *face,
        !spec_are_opposite_faces(*face, f),
{
    match face {
        Move::U | Move::D => Move::L,
        _ => Move::U,
    }
}

/// How many random candidates are drawn for one position before the draw
/// falls back to a fixed allowed move. At least 12 of the 18 candidates are
/// allowed at every position, so the fallback is all but unreachable.
const RETRY_LIMIT: usize = 1000;

/// Draw a random move that may follow the given previous moves.
///
/// Candidates are drawn uniformly from the 18 face/variation pairs and
/// rejected until one is allowed. Should every draw up to the retry limit be
/// rejected, a fixed quarter turn of a face on a different axis than the
/// last move's face is taken instead; such a move is always allowed.
fn draw_move(
    rng: &mut rand::rngs::ThreadRng,
    prev2: &Option<ScrambleMove>,
    prev: &Option<ScrambleMove>,
) -> (c: ScrambleMove)
    ensures
        spec_move_allowed(*prev2, *prev, c),
{
    let mut attempts: usize = 0;
    while attempts < RETRY_LIMIT
        invariant
            attempts <= RETRY_LIMIT,
        decreases RETRY_LIMIT - attempts,
    {
        let fi = crate::rng::gen_index(rng, 6);
        let vi = crate::rng::gen_index(rng, 3);
        let candidate = ScrambleMove { mv: face_of_index(fi), variation: variation_of_index(vi) };
        if move_allowed(prev2, prev, &candidate) {
            return candidate;
        }
        attempts = attempts + 1;
    }
    match prev {
        Option::None => ScrambleMove { mv: Move::U, variation: MoveVariation::Normal },
        Option::Some(p) => ScrambleMove {
            mv: other_axis_face(&p.mv),
            variation: MoveVariation::Normal,
        },
    }
}

/// Generate a random scramble of exactly `length` moves in which no move
/// repeats or cancels the move before it and no move turns a face opposite
/// to the faces of both moves before it.
pub fn generate_scramble(length: usize) -> (r: Vec<ScrambleMove>)
    ensures
        r@.len() == length,
        valid_scramble(r@),
{
    let mut rng = crate::rng::new_rng();
    let mut scramble: Vec<ScrambleMove> = Vec::new();
    let mut count: usize = 0;
    while count < length
        invariant
            count <= length,
            scramble@.len() == count,
            valid_scramble(scramble@),
        decreases length - count,
    {
        let prev: Option<ScrambleMove> = if scramble.len() >= 1 {
            Option::Some(scramble[scramble.len() - 1])
        } else {
            Option::None
        };
        let prev2: Option<ScrambleMove> = if scramble.len() >= 2 {
            Option::Some(scramble[scramble.len() - 2])
        } else {
            Option::None
        };
        let next = draw_move(&mut rng, &prev2, &prev);
        proof {
            assert(prev == prev_of(scramble@));
            assert(prev2 == prev2_of(scramble@));
            lemma_valid_push(scramble@, next);
        }
        scramble.push(next);
        count = count + 1;
    }
    scramble
}

/// The text of a whole scramble: the text of each move followed by a single
/// space, the last move included.
pub open spec fn spec_scramble_str(s: Seq<ScrambleMove>) -> Seq<char>
    decreases s.len(),
{
    if s.len() == 0 {
        Seq::empty()
    } else {
        spec_scramble_str(s.drop_last()) + spec_move_str(s.last()) + seq![' ']
    }
}

/// Render a scramble as text: each move's text followed by a single space.
pub fn render_scramble(moves: &Vec<ScrambleMove>) -> (r: String)
    ensures
        r@ == spec_scramble_str(moves@),
{
    let mut s = String::new();
    let mut i: usize = 0;
    while i < moves.len()
        invariant
            i <= moves.len(),
            s@ == spec_scramble_str(moves@.take(i as int)),
        decreases moves.len() - i,
    {
        let move_str = moves[i].to_string();
        s.append(move_str.as_str());
        proof {
            reveal_strlit(" ");
        }
        s.append(" ");
        proof {
            let taken = moves@.take(i + 1 as int);
            assert(taken.drop_last() =~= moves@.take(i as int));
            assert(taken.last() == moves@[i as int]);
            assert(s@ =~= spec_scramble_str(taken));
        }
        i = i + 1;
    }
    proof {
        assert(moves@.take(moves@.len() as int) =~= moves@);
    }
    s
}

/// Generate a random scramble of exactly `length` moves and render it as
/// text: each move's text followed by a single space.
pub fn generate_scramble_string(length: usize) -> (r: String)
    ensures
        exists|s: Seq<ScrambleMove>|
            s.len() == length && #[trigger] valid_scramble(s) && r@ == spec_scramble_str(s),
{
    let scramble = generate_scramble(length);
    render_scramble(&scramble)
}

} // verus!
