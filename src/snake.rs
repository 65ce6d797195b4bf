use vstd::prelude::*;

use crate::apple::Apple;
use crate::grid::{step, Direction, GridCoord};

verus! {

/// The body after every segment but the head has taken its predecessor's
/// place. When `grow` is set, the old tail stays where it was as one more
/// segment; otherwise it is dropped.
pub open spec fn trailed(s: Seq<GridCoord>, grow: bool) -> Seq<GridCoord>
    recommends
        s.len() >= 1,
{
    if grow {
        seq![s[0]] + s
    } else {
        seq![s[0]] + s.drop_last()
    }
}

/// The body after one move in direction `d`: the segments trail, then the
/// head steps.
pub open spec fn moved(s: Seq<GridCoord>, grow: bool, d: Direction) -> Seq<GridCoord>
    recommends
        s.len() >= 1,
{
    trailed(s, grow).update(0, step(s[0], d))
}

/// The starting body: four segments in a column from (5, 5) down to (5, 8).
pub open spec fn starting_body() -> Seq<GridCoord> {
    seq![
        GridCoord { x: 5, y: 5 },
        GridCoord { x: 5, y: 6 },
        GridCoord { x: 5, y: 7 },
        GridCoord { x: 5, y: 8 },
    ]
}

/// A chain of grid cells, head first, with a one-shot request to grow.
pub struct Snake {
    pieces: Vec<GridCoord>,
    must_grow: bool,
}

impl View for Snake {
    type V = Seq<GridCoord>;

    /// The segments, head at index 0 and tail last.
    closed spec fn view(&self) -> Seq<GridCoord> {
        self.pieces@
    }
}

impl Snake {
    #[verifier::type_invariant]
    spec fn has_head(self) -> bool {
        self.pieces@.len() >= 1
    }

    /// Whether the next move adds a segment.
    pub closed spec fn grows(&self) -> bool {
        self.must_grow
    }

    /// The starting snake: four segments in a column from (5, 5) down to
    /// (5, 8), not growing.
    pub fn new() -> (r: Snake)
        ensures
            r@ == starting_body(),
            !r.grows(),
            r@.no_duplicates(),
    {
        let r = Snake {
            pieces: vec![
                GridCoord { x: 5, y: 5 },
                GridCoord { x: 5, y: 6 },
                GridCoord { x: 5, y: 7 },
                GridCoord { x: 5, y: 8 },
            ],
            must_grow: false,
        };
        assert(r@.no_duplicates()) by {
            assert(r@[0].y == 5 && r@[1].y == 6 && r@[2].y == 7 && r@[3].y == 8);
        }
        r
    }

    /// A snake with the given segments, head first; `None` when there are none.
    pub fn from_segments(pieces: Vec<GridCoord>, must_grow: bool) -> (r: Option<Snake>)
        ensures
            r is None <==> pieces@.len() == 0,
            r matches Some(s) ==> s@ == pieces@ && s.grows() == must_grow,
    {
        if pieces.len() == 0 {
            None
        } else {
            Some(Snake { pieces, must_grow })
        }
    }

    /// The segments, head first.
    pub fn segments(&self) -> (r: &Vec<GridCoord>)
        ensures
            r@ == self@,
    {
        &self.pieces
    }

    /// The head segment.
    pub fn head(&self) -> (r: GridCoord)
        ensures
            self@.len() >= 1,
            r == self@[0],
    {
        proof {
            use_type_invariant(self);
        }
        self.pieces[0]
    }

    /// Whether the next move adds a segment.
    pub fn must_grow(&self) -> (r: bool)
        ensures
            r == self.grows(),
    {
        self.must_grow
    }

    /// Sets or clears the request to grow on the next move.
    pub fn set_must_grow(&mut self, grow: bool)
        ensures
            final(self)@ == old(self)@,
            final(self).grows() == grow,
    {
        proof {
            use_type_invariant(&*self);
        }
        self.must_grow = grow;
    }

    /// Advances the snake one cell in `direction`: every segment but the head
    /// takes its predecessor's place, a pending growth adds the old tail once
    /// more and is consumed, then the head steps.
    pub fn move_direction(&mut self, direction: &Direction)
        ensures
            final(self)@ == moved(old(self)@, old(self).grows(), *direction),
            !final(self).grows(),
            old(self).grows() ==> final(self)@.len() == old(self)@.len() + 1,
            !old(self).grows() ==> final(self)@.len() == old(self)@.len(),
            forall|i: int| 1 <= i < final(self)@.len() ==> #[trigger] final(self)@[i] == old(self)@[i - 1],
            final(self)@[0] == step(old(self)@[0], *direction),
    {
        proof {
            use_type_invariant(&*self);
        }
        match direction {
            Direction::Left => self.move_left(),
            Direction::Right => self.move_right(),
            Direction::Up => self.move_up(),
            Direction::Down => self.move_down(),
        }
    }

    /// One move to the left.
    pub fn move_left(&mut self)
        ensures
            final(self)@ == moved(old(self)@, old(self).grows(), Direction::Left),
            !final(self).grows(),
    {
        self.advance_head(Direction::Left);
    }

    /// One move to the right.
    pub fn move_right(&mut self)
        ensures
            final(self)@ == moved(old(self)@, old(self).grows(), Direction::Right),
            !final(self).grows(),
    {
        self.advance_head(Direction::Right);
    }

    /// One move up.
    pub fn move_up(&mut self)
        ensures
            final(self)@ == moved(old(self)@, old(self).grows(), Direction::Up),
            !final(self).grows(),
    {
        self.advance_head(Direction::Up);
    }

    /// One move down.
    pub fn move_down(&mut self)
        ensures
            final(self)@ == moved(old(self)@, old(self).grows(), Direction::Down),
            !final(self).grows(),
    {
        self.advance_head(Direction::Down);
    }

    fn advance_head(&mut self, d: Direction)
        ensures
            final(self)@ == moved(old(self)@, old(self).grows(), d),
            !final(self).grows(),
    {
        proof {
            use_type_invariant(&*self);
        }
        let mut pieces = self.shift_all_except_head();
        let head = self.pieces[0].stepped(d);
        pieces.set(0, head);
        self.pieces = pieces;
        self.must_grow = false;
    }

    /// The segments once every segment but the head has taken its
    /// predecessor's place, the old tail kept as one more segment when a
    /// growth is pending.
    fn shift_all_except_head(&self) -> (r: Vec<GridCoord>)
        ensures
            r@ == trailed(self@, self.grows()),
    {
        proof {
            use_type_invariant(self);
        }
        let n = self.pieces.len();
        let mut pieces: Vec<GridCoord> = Vec::new();
        pieces.push(self.pieces[0]);
        let mut i: usize = 0;
        while i + 1 < n
            invariant
                n == self@.len(),
                n >= 1,
                i < n,
                pieces@ == seq![self@[0]] + self@.subrange(0, i as int),
            decreases n - i,
        {
            pieces.push(self.pieces[i]);
            i += 1;
            assert(pieces@ =~= seq![self@[0]] + self@.subrange(0, i as int));
        }
        assert(self@.subrange(0, i as int) =~= self@.drop_last());
        if self.must_grow {
            pieces.push(self.pieces[n - 1]);
            assert(pieces@ =~= seq![self@[0]] + self@);
        }
        pieces
    }

    /// Whether two distinct segments share a cell.
    pub fn ran_into_self(&self) -> (r: bool)
        ensures
            r == !self@.no_duplicates(),
    {
        let n = self.pieces.len();
        let mut i: usize = 0;
        while i < n
            invariant
                n == self@.len(),
                i <= n,
                forall|a: int, b: int|
                    0 <= a < i && 0 <= b < n && a != b ==> self@[a] != self@[b],
            decreases n - i,
        {
            let mut j: usize = 0;
            while j < n
                invariant
                    n == self@.len(),
                    i < n,
                    j <= n,
                    forall|a: int, b: int|
                        0 <= a < i && 0 <= b < n && a != b ==> self@[a] != self@[b],
                    forall|b: int| 0 <= b < j && b != i ==> self@[i as int] != self@[b],
                decreases n - j,
            {
                if i != j && self.pieces[i] == self.pieces[j] {
                    return true;
                }
                j += 1;
            }
            i += 1;
        }
        false
    }

    /// Whether any segment, not only the head, lies on the apple.
    pub fn ate_apple(&self, apple: &Apple) -> (r: bool)
        ensures
            r == self@.contains(apple.position),
    {
        let n = self.pieces.len();
        let mut i: usize = 0;
        while i < n
            invariant
                n == self@.len(),
                i <= n,
                forall|a: int| 0 <= a < i ==> self@[a] != apple.position,
            decreases n - i,
        {
            if self.pieces[i] == apple.position {
                return true;
            }
            i += 1;
        }
        false
    }
}

} // verus!

verus! {

/// A snake has run into itself exactly when some cell occurs more than once
/// in the multiset of its segments' cells.
pub proof fn lemma_collision_iff_repeated_coord(s: Seq<GridCoord>)
    ensures
        !s.no_duplicates() <==> exists|c: GridCoord| #[trigger] s.to_multiset().count(c) > 1,
{
    broadcast use vstd::multiset::group_multiset_axioms;

    if s.no_duplicates() {
        s.lemma_multiset_has_no_duplicates();
        assert forall|c: GridCoord| !(#[trigger] s.to_multiset().count(c) > 1) by {
            if s.to_multiset().count(c) > 0 {
                assert(s.to_multiset().contains(c));
            }
        }
    } else {
        if forall|c: GridCoord| !(#[trigger] s.to_multiset().count(c) > 1) {
            assert forall|c: GridCoord| s.to_multiset().contains(c) implies #[trigger] s.to_multiset().count(c) == 1 by {
                assert(!(s.to_multiset().count(c) > 1));
            }
            s.lemma_multiset_has_no_duplicates_conv();
        }
    }
}

} // verus!

verus! {

/// A move whose head steps onto a cell of the body that the trailing
/// segments keep occupied (the cell of segment `k`, which segment `k + 1`
/// takes over) leaves a snake that has run into itself.
pub proof fn lemma_biting_body_is_collision(s: Seq<GridCoord>, grow: bool, d: Direction, k: int)
    requires
        s.len() >= 1,
        0 <= k,
        k + 1 < trailed(s, grow).len(),
        step(s[0], d) == s[k],
    ensures
        !moved(s, grow, d).no_duplicates(),
{
    let m = moved(s, grow, d);
    assert(m[0] == s[k]);
    assert(m[k + 1] == s[k]);
}

} // verus!
