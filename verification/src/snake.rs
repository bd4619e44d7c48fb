//! The snake body and the per-tick update algorithm.

use vstd::prelude::*;

use crate::direction::Direction;
use crate::grid::translate_spec;
use crate::grid::GridCoordinate;

verus! {

/// The fixed three-cell body the simulation starts from and resets to: a
/// short vertical segment, tail first, head last.
pub open spec fn initial_body() -> Seq<GridCoordinate> {
    seq![
        GridCoordinate { x: 0, y: 0 },
        GridCoordinate { x: 0, y: 1 },
        GridCoordinate { x: 0, y: 2 },
    ]
}

/// The cell the head moves into on a tick in direction `d`.
pub open spec fn new_head_of(body: Seq<GridCoordinate>, d: Direction) -> GridCoordinate {
    translate_spec(body.last(), d)
}

/// The body after the tail-drop step of a tick: when the head moves into
/// the food cell the tail is kept (the snake grows), otherwise the oldest
/// cell is dropped.
pub open spec fn base_body(
    body: Seq<GridCoordinate>,
    d: Direction,
    food: GridCoordinate,
) -> Seq<GridCoordinate> {
    if new_head_of(body, d) == food {
        body
    } else {
        body.drop_first()
    }
}

/// Whether a tick in direction `d` runs the snake into itself: the new
/// head lands on a cell still occupied after the tail-drop step.
pub open spec fn collides(body: Seq<GridCoordinate>, d: Direction, food: GridCoordinate) -> bool {
    base_body(body, d, food).contains(new_head_of(body, d))
}

/// The body after one full tick: on self-collision the initial
/// configuration, otherwise the post-tail-drop body with the new head
/// appended.
pub open spec fn next_body(
    body: Seq<GridCoordinate>,
    d: Direction,
    food: GridCoordinate,
) -> Seq<GridCoordinate> {
    if collides(body, d, food) {
        initial_body()
    } else {
        base_body(body, d, food).push(new_head_of(body, d))
    }
}

/// A well-formed body: at least one cell, every cell on the grid, and no
/// cell occupied twice.
pub open spec fn valid_body(body: Seq<GridCoordinate>) -> bool {
    &&& body.len() >= 1
    &&& forall|i: int| 0 <= i < body.len() ==> (#[trigger] body[i]).wf()
    &&& forall|i: int, j: int|
        #![trigger body[i], body[j]]
        0 <= i < j < body.len() ==> body[i] != body[j]
}

/// What one tick did: whether the head moved into the food cell, and
/// whether the move ran the snake into itself and forced a reset.
#[derive(Clone, Copy, Debug, PartialEq, Eq, Structural)]
pub struct TickOutcome {
    pub ate: bool,
    pub reset: bool,
}

/// The snake: an ordered body of grid cells, tail at index 0, head last.
#[derive(Clone, Debug)]
pub struct Snake {
    pub body: Vec<GridCoordinate>,
}

impl View for Snake {
    type V = Seq<GridCoordinate>;

    open spec fn view(&self) -> Seq<GridCoordinate> {
        self.body@
    }
}

/// The initial configuration is itself a well-formed body of length 3.
pub proof fn lemma_initial_body_valid()
    ensures
        valid_body(initial_body()),
        initial_body().len() == 3,
{
    let b = initial_body();
    assert(b[0] == (GridCoordinate { x: 0, y: 0 }));
    assert(b[1] == (GridCoordinate { x: 0, y: 1 }));
    assert(b[2] == (GridCoordinate { x: 0, y: 2 }));
    assert forall|i: int| 0 <= i < b.len() implies (#[trigger] b[i]).wf() by {
        if i == 0 {
        } else if i == 1 {
        } else {
            assert(i == 2);
        }
    }
}

impl Snake {
    /// The body is well formed.
    pub open spec fn wf(self) -> bool {
        valid_body(self@)
    }

    /// The initial three-cell snake.
    pub fn initial() -> (s: Snake)
        ensures
            s@ == initial_body(),
            s.wf(),
    {
        let mut body: Vec<GridCoordinate> = Vec::new();
        body.push(GridCoordinate { x: 0, y: 0 });
        body.push(GridCoordinate { x: 0, y: 1 });
        body.push(GridCoordinate { x: 0, y: 2 });
        proof {
            assert(body@ =~= initial_body());
            lemma_initial_body_valid();
        }
        Snake { body }
    }

    /// The head: the most recently added cell.
    pub fn head(&self) -> (h: GridCoordinate)
        requires
            self.wf(),
        ensures
            h == self@.last(),
    {
        self.body[self.body.len() - 1]
    }

    /// The current body length, the game's score.
    pub fn len(&self) -> (n: usize)
        ensures
            n == self@.len(),
    {
        self.body.len()
    }

    /// Advance the snake by one tick in direction `d` with the food at
    /// `food`: the head moves one cell (wrapping at the field's edges),
    /// the tail is dropped unless the food was eaten, and a move onto the
    /// snake's own remaining body resets it to the initial configuration.
    pub fn advance(&mut self, d: Direction, food: GridCoordinate) -> (out: TickOutcome)
        requires
            old(self).wf(),
        ensures
            final(self).wf(),
            final(self)@ == next_body(old(self)@, d, food),
            out.ate == (new_head_of(old(self)@, d) == food),
            out.reset == collides(old(self)@, d, food),
    {
        let ghost orig = self.body@;
        let head = self.body[self.body.len() - 1];
        let nh = head.translate(d);
        let ate = nh == food;
        if !ate {
            self.body.remove(0);
            proof {
                assert(self.body@ =~= base_body(orig, d, food));
            }
        }
        let ghost base = base_body(orig, d, food);
        let mut collided = false;
        let mut i: usize = 0;
        while i < self.body.len()
            invariant
                self.body@ == base,
                nh == new_head_of(orig, d),
                i <= base.len(),
                collided ==> base.contains(nh),
                !collided ==> forall|k: int| 0 <= k < i ==> base[k] != nh,
            decreases base.len() - i,
        {
            if self.body[i] == nh {
                collided = true;
            }
            i += 1;
        }
        proof {
            if !collided {
                assert(!base.contains(nh));
            }
            assert(collided == collides(orig, d, food));
        }
        if collided {
            *self = Snake::initial();
        } else {
            self.body.push(nh);
            proof {
                lemma_valid_body_step(orig, d, food);
            }
        }
        TickOutcome { ate, reset: collided }
    }
}

impl Default for Snake {
    fn default() -> (s: Snake)
        ensures
            s@ == initial_body(),
            s.wf(),
    {
        Snake::initial()
    }
}

/// A collision-free tick preserves well-formedness of the body.
proof fn lemma_valid_body_step(body: Seq<GridCoordinate>, d: Direction, food: GridCoordinate)
    requires
        valid_body(body),
        !collides(body, d, food),
    ensures
        valid_body(base_body(body, d, food).push(new_head_of(body, d))),
{
    let base = base_body(body, d, food);
    let nh = new_head_of(body, d);
    let next = base.push(nh);
    assert(body.last().wf());
    assert(nh.wf()) by {
        crate::grid::lemma_translate_spec_wf(body.last(), d);
    }
    assert forall|i: int| 0 <= i < next.len() implies (#[trigger] next[i]).wf() by {
        if i < base.len() {
            if nh == food {
                assert(next[i] == body[i]);
            } else {
                assert(next[i] == body[i + 1]);
            }
        } else {
            assert(next[i] == nh);
        }
    }
    assert forall|i: int, j: int|
        #![trigger next[i], next[j]]
        0 <= i < j < next.len() implies next[i] != next[j] by {
        if j < base.len() {
            if nh == food {
                assert(next[i] == body[i] && next[j] == body[j]);
            } else {
                assert(next[i] == body[i + 1] && next[j] == body[j + 1]);
            }
        } else {
            assert(next[j] == nh);
            assert(next[i] == base[i]);
            assert(base[i] != nh) by {
                if base[i] == nh {
                    assert(base.contains(nh));
                }
            }
        }
    }
}

/// Law: a tick always leaves a well-formed body — at least one cell, all
/// of them on the grid, none occupied twice — whatever the tick did.
pub proof fn lemma_tick_preserves_validity(
    body: Seq<GridCoordinate>,
    d: Direction,
    food: GridCoordinate,
)
    requires
        valid_body(body),
    ensures
        valid_body(next_body(body, d, food)),
{
    if collides(body, d, food) {
        lemma_initial_body_valid();
    } else {
        lemma_valid_body_step(body, d, food);
    }
}

/// Law: a tick that moves into a cell that holds neither the food nor any
/// part of the remaining body leaves the body length unchanged — the move
/// is a pure translation.
pub proof fn lemma_translate_keeps_length(
    body: Seq<GridCoordinate>,
    d: Direction,
    food: GridCoordinate,
)
    requires
        body.len() >= 1,
        new_head_of(body, d) != food,
        !collides(body, d, food),
    ensures
        next_body(body, d, food).len() == body.len(),
{
}

/// Law: a tick that moves into the food cell, when that cell is not also
/// occupied by the body, grows the body by exactly one cell.
pub proof fn lemma_growth_adds_one(body: Seq<GridCoordinate>, d: Direction, food: GridCoordinate)
    requires
        body.len() >= 1,
        new_head_of(body, d) == food,
        !body.contains(new_head_of(body, d)),
    ensures
        next_body(body, d, food).len() == body.len() + 1,
{
}

/// Law: a tick whose computed new head lands on a cell of the remaining
/// body replaces the body with the exact initial three-cell
/// configuration, whatever its length was before.
pub proof fn lemma_collision_resets(body: Seq<GridCoordinate>, d: Direction, food: GridCoordinate)
    requires
        body.len() >= 1,
        collides(body, d, food),
    ensures
        next_body(body, d, food) == initial_body(),
        next_body(body, d, food).len() == 3,
{
}

} // verus!
