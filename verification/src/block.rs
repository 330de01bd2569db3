//! The destructible block grid: its layout at round start, and block
//! removal driven by the bounce resolver's "block struck" reports.

use vstd::prelude::*;

use vstd::arithmetic::div_mod::lemma_fundamental_div_mod_converse;

use crate::ball::{BallCollisionEvent, CollisionTarget};
use crate::config::BlockConfig;
use crate::geom::{Rect, Vec2i, ARENA_CENTER_LIMIT, POS_LIMIT};
use crate::paddle::Dimensions;

verus! {

/// One block of the grid. A struck block is not removed from the store;
/// its `alive` flag is cleared, which removes it from collision scans.
/// A block's position and extents never change after spawn.
#[derive(Clone, Copy, PartialEq, Eq, Structural, Debug)]
pub struct Block {
    pub position: Vec2i,
    pub dimensions: Dimensions,
    pub alive: bool,
}

impl Block {
    pub open spec fn wf(self) -> bool {
        &&& self.position.in_bounds(POS_LIMIT as int)
        &&& self.dimensions.valid()
    }

    /// The block's bounding rectangle.
    pub open spec fn spec_rect(self) -> Rect {
        Rect {
            center: self.position,
            half: Vec2i {
                x: self.dimensions.half_x() as i64,
                y: self.dimensions.half_y() as i64,
            },
        }
    }

    pub fn rect(&self) -> (r: Rect)
        ensures
            r == self.spec_rect(),
    {
        Rect {
            center: self.position,
            half: Vec2i {
                x: (self.dimensions.width / 2) as i64,
                y: (self.dimensions.height / 2) as i64,
            },
        }
    }
}

/// Total width of the grid: `columns` blocks plus the horizontal gaps
/// between neighbours.
pub open spec fn spec_grid_width(bc: BlockConfig) -> int {
    bc.columns * bc.width + (bc.columns - 1) * bc.horizontal_offset
}

/// The x coordinate of the block in column `col`: the grid is centered
/// horizontally on the arena.
pub open spec fn spec_block_x(bounds: Rect, bc: BlockConfig, col: int) -> int {
    bounds.center.x - spec_grid_width(bc) / 2 + bc.width / 2 + col * (bc.width
        + bc.horizontal_offset)
}

/// The y coordinate of the block in row `row`: the first row sits a
/// configured margin below the arena's top edge and later rows follow
/// downward with the configured vertical gap.
pub open spec fn spec_block_y(bounds: Rect, bc: BlockConfig, row: int) -> int {
    bounds.top() - bc.offset_from_top - bc.height / 2 - row * (bc.height + bc.vertical_offset)
}

/// The block at flat index `idx` of the row-major grid.
pub open spec fn spec_block_at(bounds: Rect, bc: BlockConfig, idx: int) -> Block {
    Block {
        position: Vec2i {
            x: spec_block_x(bounds, bc, idx % (bc.columns as int)) as i64,
            y: spec_block_y(bounds, bc, idx / (bc.columns as int)) as i64,
        },
        dimensions: Dimensions { width: bc.width, height: bc.height },
        alive: true,
    }
}

/// The whole grid at round start: `rows * columns` blocks, row-major,
/// all alive.
pub open spec fn spec_grid(bounds: Rect, bc: BlockConfig) -> Seq<Block> {
    Seq::new((bc.rows * bc.columns) as nat, |i: int| spec_block_at(bounds, bc, i))
}

/// Build the block grid for a new round, laid out exactly as
/// [`spec_grid`] states.
#[verifier::loop_isolation(false)]
pub fn spawn_blocks(bounds: &Rect, bc: &BlockConfig) -> (blocks: Vec<Block>)
    requires
        bc.valid(),
        bounds.wf(),
        bounds.center.in_bounds(ARENA_CENTER_LIMIT as int),
    ensures
        blocks@ == spec_grid(*bounds, *bc),
        blocks@.len() == bc.rows * bc.columns,
        forall|i: int| 0 <= i < blocks@.len() ==> (#[trigger] blocks@[i]).wf(),
{
    let ghost cols_i: int = bc.columns as int;
    proof {
        assert((bc.columns as int) * (bc.width as int) <= 1_024_000_000int
            && (bc.columns as int - 1) * (bc.horizontal_offset as int) <= 1_024_000_000int
            && (bc.rows as int) * (bc.columns as int) <= 1_048_576int) by (nonlinear_arith)
            requires
                1 <= bc.columns <= 1_024,
                1 <= bc.rows <= 1_024,
                2 <= bc.width <= 1_000_000,
                bc.horizontal_offset <= 1_000_000,
        ;
    }
    let grid_w: u64 = (bc.columns as u64) * (bc.width as u64) + ((bc.columns - 1) as u64) * (
    bc.horizontal_offset as u64);
    let first_x: i64 = bounds.center.x - ((grid_w / 2) as i64) + ((bc.width / 2) as i64);
    let top_y: i64 = bounds.center.y + bounds.half.y - (bc.offset_from_top as i64) - ((bc.height
        / 2) as i64);
    let step_x: i64 = (bc.width as i64) + (bc.horizontal_offset as i64);
    let step_y: i64 = (bc.height as i64) + (bc.vertical_offset as i64);

    let rows: usize = bc.rows as usize;
    let cols: usize = bc.columns as usize;
    let mut blocks: Vec<Block> = Vec::new();
    let mut r: usize = 0;
    while r < rows
        invariant
            r <= rows,
            blocks@.len() == r * cols,
            blocks@.len() <= 1_048_576,
            forall|i: int|
                0 <= i < blocks@.len() ==> #[trigger] blocks@[i] == spec_block_at(
                    *bounds,
                    *bc,
                    i,
                ),
            forall|i: int| 0 <= i < blocks@.len() ==> (#[trigger] blocks@[i]).wf(),
        decreases rows - r,
    {
        let mut c: usize = 0;
        proof {
            assert((r + 1) * cols_i == r * cols_i + cols_i) by (nonlinear_arith);
            assert(r * cols_i <= 1_047_552int && (r + 1) * cols_i <= 1_048_576int)
                by (nonlinear_arith)
                requires
                    0 <= r <= 1_023,
                    1 <= cols_i <= 1_024,
            ;
        }
        while c < cols
            invariant
                c <= cols,
                r < rows,
                blocks@.len() == r * cols + c,
                forall|i: int|
                    0 <= i < blocks@.len() ==> #[trigger] blocks@[i] == spec_block_at(
                        *bounds,
                        *bc,
                        i,
                    ),
                forall|i: int| 0 <= i < blocks@.len() ==> (#[trigger] blocks@[i]).wf(),
            decreases cols - c,
        {
            proof {
                assert(0 <= (c as int) * (step_x as int) <= 2_046_000_000int
                    && 0 <= (r as int) * (step_y as int) <= 2_046_000_000int)
                    by (nonlinear_arith)
                    requires
                        0 <= c <= 1_023,
                        0 <= r <= 1_023,
                        2 <= step_x <= 2_000_000,
                        2 <= step_y <= 2_000_000,
                ;
            }
            let x: i64 = first_x + (c as i64) * step_x;
            let y: i64 = top_y - (r as i64) * step_y;
            let block = Block {
                position: Vec2i { x, y },
                dimensions: Dimensions { width: bc.width, height: bc.height },
                alive: true,
            };
            proof {
                let idx = blocks@.len() as int;
                lemma_fundamental_div_mod_converse(idx, cols_i, r as int, c as int);
                assert(block == spec_block_at(*bounds, *bc, idx));
            }
            blocks.push(block);
            c = c + 1;
        }
        r = r + 1;
    }
    proof {
        assert(r * cols_i == bc.rows * bc.columns) by (nonlinear_arith)
            requires
                r == bc.rows,
                cols_i == bc.columns,
        ;
        assert(blocks@ =~= spec_grid(*bounds, *bc));
    }
    blocks
}

/// The grid after one collision report: a resolved strike on a live or
/// dead block clears that block's `alive` flag; anything else leaves the
/// grid unchanged.
pub open spec fn strike_one(blocks: Seq<Block>, e: BallCollisionEvent) -> Seq<Block> {
    match e.with {
        CollisionTarget::Block(i) => if e.collision.is_resolved() && i < blocks.len() {
            blocks.update(
                i as int,
                Block {
                    position: blocks[i as int].position,
                    dimensions: blocks[i as int].dimensions,
                    alive: false,
                },
            )
        } else {
            blocks
        },
        _ => blocks,
    }
}

/// The grid after a tick's collision reports, applied in order.
pub open spec fn apply_strikes(blocks: Seq<Block>, events: Seq<BallCollisionEvent>) -> Seq<Block>
    decreases events.len(),
{
    if events.len() == 0 {
        blocks
    } else {
        strike_one(apply_strikes(blocks, events.drop_last()), events.last())
    }
}

/// The identities of the blocks that a tick's reports actually remove,
/// in report order: a report naming an already-removed block adds
/// nothing (removal is idempotent).
pub open spec fn destroyed_ids(blocks: Seq<Block>, events: Seq<BallCollisionEvent>) -> Seq<usize>
    decreases events.len(),
{
    if events.len() == 0 {
        Seq::empty()
    } else {
        let prior = apply_strikes(blocks, events.drop_last());
        destroyed_ids(blocks, events.drop_last()) + (match events.last().with {
            CollisionTarget::Block(i) => if events.last().collision.is_resolved() && i
                < prior.len() && prior[i as int].alive {
                seq![i]
            } else {
                Seq::empty()
            },
            _ => Seq::empty(),
        })
    }
}

/// Remove every block that a resolved collision report names, exactly as
/// [`apply_strikes`] states, and return the identities of the blocks
/// removed by this call, as [`destroyed_ids`] states. A report naming an
/// already-removed or nonexistent block is a no-op, not an error.
pub fn hit_block(blocks: &mut Vec<Block>, events: &Vec<BallCollisionEvent>) -> (destroyed: Vec<
    usize,
>)
    ensures
        final(blocks)@ == apply_strikes(old(blocks)@, events@),
        destroyed@ == destroyed_ids(old(blocks)@, events@),
{
    let ghost blocks0 = blocks@;
    let mut destroyed: Vec<usize> = Vec::new();
    let n: usize = events.len();
    let mut k: usize = 0;
    while k < n
        invariant
            k <= n,
            n == events@.len(),
            blocks@ == apply_strikes(blocks0, events@.take(k as int)),
            destroyed@ == destroyed_ids(blocks0, events@.take(k as int)),
            blocks@.len() == blocks0.len(),
        decreases n - k,
    {
        proof {
            assert(events@.take(k as int + 1).drop_last() =~= events@.take(k as int));
            assert(events@.take(k as int + 1).last() == events@[k as int]);
        }
        let e = events[k];
        match e.with {
            CollisionTarget::Block(i) => {
                match e.collision {
                    crate::geom::Collision::Inside => {},
                    _ => {
                        if i < blocks.len() && blocks[i].alive {
                            blocks[i].alive = false;
                            destroyed.push(i);
                        }
                    },
                }
            },
            _ => {},
        }
        proof {
            assert(blocks@ =~= apply_strikes(blocks0, events@.take(k as int + 1)));
            assert(destroyed@ =~= destroyed_ids(blocks0, events@.take(k as int + 1)));
        }
        k = k + 1;
    }
    proof {
        assert(events@.take(n as int) =~= events@);
    }
    destroyed
}

/// How many blocks of the grid are still alive.
pub open spec fn live_count(blocks: Seq<Block>) -> nat
    decreases blocks.len(),
{
    if blocks.len() == 0 {
        0
    } else {
        live_count(blocks.drop_last()) + (if blocks.last().alive {
            1nat
        } else {
            0nat
        })
    }
}

/// Count the blocks still alive, exactly as [`live_count`] states.
pub fn count_live_blocks(blocks: &Vec<Block>) -> (n: usize)
    ensures
        n == live_count(blocks@),
{
    proof {
        lemma_live_count_le_len(blocks@);
    }
    let mut n: usize = 0;
    let len: usize = blocks.len();
    let mut k: usize = 0;
    while k < len
        invariant
            k <= len,
            len == blocks@.len(),
            n == live_count(blocks@.take(k as int)),
            n <= k,
        decreases len - k,
    {
        proof {
            assert(blocks@.take(k as int + 1).drop_last() =~= blocks@.take(k as int));
            lemma_live_count_le_len(blocks@.take(k as int));
        }
        if blocks[k].alive {
            n = n + 1;
        }
        k = k + 1;
    }
    proof {
        assert(blocks@.take(len as int) =~= blocks@);
    }
    n
}

/// A live count never exceeds the number of blocks.
pub proof fn lemma_live_count_le_len(blocks: Seq<Block>)
    ensures
        live_count(blocks) <= blocks.len(),
    decreases blocks.len(),
{
    if blocks.len() > 0 {
        lemma_live_count_le_len(blocks.drop_last());
    }
}

/// A resolved strike names block `i` somewhere in the tick's reports.
pub open spec fn block_struck(events: Seq<BallCollisionEvent>, i: usize) -> bool
    decreases events.len(),
{
    if events.len() == 0 {
        false
    } else {
        block_struck(events.drop_last(), i) || (events.last().with == CollisionTarget::Block(i)
            && events.last().collision.is_resolved())
    }
}

/// Destroying blocks removes exactly the struck blocks' `alive` flags:
/// the grid keeps its length, every block keeps its position and
/// extents, and a block is alive afterwards exactly when it was alive
/// before and no resolved report struck it. In particular a destroyed
/// block never reappears.
pub proof fn lemma_apply_strikes_alive(blocks: Seq<Block>, events: Seq<BallCollisionEvent>)
    ensures
        apply_strikes(blocks, events).len() == blocks.len(),
        forall|i: int|
            0 <= i < blocks.len() ==> (#[trigger] apply_strikes(blocks, events)[i]).position
                == blocks[i].position && apply_strikes(blocks, events)[i].dimensions
                == blocks[i].dimensions,
        forall|i: usize|
            i < blocks.len() ==> ((#[trigger] apply_strikes(blocks, events)[i as int]).alive
                <==> (blocks[i as int].alive && !block_struck(events, i))),
    decreases events.len(),
{
    if events.len() > 0 {
        lemma_apply_strikes_alive(blocks, events.drop_last());
        let prior = apply_strikes(blocks, events.drop_last());
        let e = events.last();
        let after = apply_strikes(blocks, events);
        assert(after == strike_one(prior, e));
        assert forall|i: usize| i < blocks.len() implies ((#[trigger] after[i as int]).alive <==> (
        blocks[i as int].alive && !block_struck(events, i))) by {
            assert(prior[i as int].alive <==> (blocks[i as int].alive && !block_struck(
                events.drop_last(),
                i,
            )));
            match e.with {
                CollisionTarget::Block(j) => {
                    if e.collision.is_resolved() && j < prior.len() {
                        if i == j {
                            assert(!after[i as int].alive);
                            assert(block_struck(events, i));
                        } else {
                            assert(after[i as int] == prior[i as int]);
                            assert(block_struck(events, i) == block_struck(
                                events.drop_last(),
                                i,
                            ));
                        }
                    } else {
                        assert(after[i as int] == prior[i as int]);
                    }
                },
                _ => {
                    assert(after[i as int] == prior[i as int]);
                },
            }
        }
    }
}

/// Block removal is idempotent: applying the same report to a grid that
/// has already absorbed it changes nothing and destroys nothing, so a
/// re-sent destroy notification is a no-op.
pub proof fn lemma_hit_block_idempotent(blocks: Seq<Block>, e: BallCollisionEvent)
    ensures
        strike_one(strike_one(blocks, e), e) == strike_one(blocks, e),
        destroyed_ids(strike_one(blocks, e), seq![e]) == Seq::<usize>::empty(),
{
    let once = strike_one(blocks, e);
    let resent: Seq<BallCollisionEvent> = seq![e];
    assert(resent.drop_last() =~= Seq::<BallCollisionEvent>::empty());
    assert(resent.last() == e);
    assert(apply_strikes(once, resent.drop_last()) == once);
    assert(destroyed_ids(once, resent.drop_last()) == Seq::<usize>::empty());
    match e.with {
        CollisionTarget::Block(i) => {
            if e.collision.is_resolved() && i < blocks.len() {
                assert(!once[i as int].alive);
                assert(strike_one(once, e) =~= once);
            }
        },
        _ => {},
    }
    assert(destroyed_ids(once, resent) =~= Seq::<usize>::empty());
}

/// A grid whose blocks are all alive has as many live blocks as blocks,
/// as a fresh round's grid does.
pub proof fn lemma_live_count_full(blocks: Seq<Block>)
    requires
        forall|i: int| 0 <= i < blocks.len() ==> (#[trigger] blocks[i]).alive,
    ensures
        live_count(blocks) == blocks.len(),
    decreases blocks.len(),
{
    if blocks.len() > 0 {
        lemma_live_count_full(blocks.drop_last());
    }
}

/// Striking one live block lowers the live count by exactly one.
pub proof fn lemma_live_count_strike(blocks: Seq<Block>, i: int)
    requires
        0 <= i < blocks.len(),
        blocks[i].alive,
    ensures
        live_count(
            blocks.update(
                i,
                Block {
                    position: blocks[i].position,
                    dimensions: blocks[i].dimensions,
                    alive: false,
                },
            ),
        ) == live_count(blocks) - 1,
    decreases blocks.len(),
{
    let updated = blocks.update(
        i,
        Block { position: blocks[i].position, dimensions: blocks[i].dimensions, alive: false },
    );
    if i == blocks.len() - 1 {
        assert(updated.drop_last() =~= blocks.drop_last());
    } else {
        lemma_live_count_strike(blocks.drop_last(), i);
        assert(updated.drop_last() =~= blocks.drop_last().update(
            i,
            Block { position: blocks[i].position, dimensions: blocks[i].dimensions, alive: false },
        ));
        assert(updated.last() == blocks.last());
    }
}

} // verus!
