use vstd::prelude::*;

use crate::foothold::FootHold;

verus! {

/// How a background repeats across the screen and whether it scrolls by itself.
#[derive(Clone, Copy, Debug, PartialEq, Eq, Structural)]
pub struct Tilemode {
    pub tile_x: bool,
    pub tile_y: bool,
    pub auto_scroll_x: bool,
    pub auto_scroll_y: bool,
}

/// The tiling of a background of map type `types`: 1 tiles across, 2 down,
/// 3 both; 4 tiles across and scrolls across, 5 tiles down and scrolls down;
/// 6 and 7 tile both ways and scroll across or down. Any other type neither
/// tiles nor scrolls.
pub open spec fn tilemode_of(types: i32) -> Tilemode {
    if types == 1 {
        Tilemode { tile_x: true, tile_y: false, auto_scroll_x: false, auto_scroll_y: false }
    } else if types == 2 {
        Tilemode { tile_x: false, tile_y: true, auto_scroll_x: false, auto_scroll_y: false }
    } else if types == 3 {
        Tilemode { tile_x: true, tile_y: true, auto_scroll_x: false, auto_scroll_y: false }
    } else if types == 4 {
        Tilemode { tile_x: true, tile_y: false, auto_scroll_x: true, auto_scroll_y: false }
    } else if types == 5 {
        Tilemode { tile_x: false, tile_y: true, auto_scroll_x: false, auto_scroll_y: true }
    } else if types == 6 {
        Tilemode { tile_x: true, tile_y: true, auto_scroll_x: true, auto_scroll_y: false }
    } else if types == 7 {
        Tilemode { tile_x: true, tile_y: true, auto_scroll_x: false, auto_scroll_y: true }
    } else {
        Tilemode { tile_x: false, tile_y: false, auto_scroll_x: false, auto_scroll_y: false }
    }
}

fn tile(tile_x: bool, tile_y: bool, auto_scroll_x: bool, auto_scroll_y: bool) -> (r: Tilemode)
    ensures
        r == (Tilemode { tile_x, tile_y, auto_scroll_x, auto_scroll_y }),
{
    Tilemode { tile_x, tile_y, auto_scroll_x, auto_scroll_y }
}

/// A background layer of the map.
#[derive(Debug)]
pub struct BackGround {
    pub id: i32,
    pub x: i32,
    pub y: i32,
    pub cx: i32,
    pub cy: i32,
    pub rx: i32,
    pub ry: i32,
    pub alpha: i32,
    pub flip_x: bool,
    pub front: bool,
    pub ani: i32,
    pub types: i32,
    /// The image resource, as the map describes it.
    pub resource: String,
    pub tilemode: Tilemode,
}

impl BackGround {
    /// A background with the given fields, tiled as its type says.
    pub fn new(
        id: i32,
        x: i32,
        y: i32,
        cx: i32,
        cy: i32,
        rx: i32,
        ry: i32,
        alpha: i32,
        flip_x: bool,
        front: bool,
        ani: i32,
        types: i32,
        resource: String,
    ) -> (r: BackGround)
        ensures
            r.id == id && r.x == x && r.y == y && r.cx == cx && r.cy == cy,
            r.rx == rx && r.ry == ry && r.alpha == alpha,
            r.flip_x == flip_x && r.front == front && r.ani == ani && r.types == types,
            r.resource == resource,
            r.tilemode == tilemode_of(types),
    {
        let tilemode = match types {
            1 => tile(true, false, false, false),
            2 => tile(false, true, false, false),
            3 => tile(true, true, false, false),
            4 => tile(true, false, true, false),
            5 => tile(false, true, false, true),
            6 => tile(true, true, true, false),
            7 => tile(true, true, false, true),
            _ => tile(false, false, false, false),
        };
        BackGround {
            id,
            x,
            y,
            cx,
            cy,
            rx,
            ry,
            alpha,
            flip_x,
            front,
            ani,
            types,
            resource,
            tilemode,
        }
    }
}

/// The horizontal extent of the map, where its side walls stand.
#[derive(Clone, Copy, Debug, PartialEq, Eq, Structural)]
pub struct BackGroundEdge {
    pub left: i32,
    pub right: i32,
}

/// The leftmost endpoint of the footholds, or 0 if all lie right of 0.
pub open spec fn edge_left(footholds: Seq<FootHold>) -> int
    decreases footholds.len(),
{
    if footholds.len() == 0 {
        0
    } else {
        let f = footholds.last();
        let rest = edge_left(footholds.drop_last());
        let m = if f.x1 < f.x2 {
            f.x1 as int
        } else {
            f.x2 as int
        };
        if m < rest {
            m
        } else {
            rest
        }
    }
}

/// The rightmost endpoint of the footholds, or 0 if all lie left of 0.
pub open spec fn edge_right(footholds: Seq<FootHold>) -> int
    decreases footholds.len(),
{
    if footholds.len() == 0 {
        0
    } else {
        let f = footholds.last();
        let rest = edge_right(footholds.drop_last());
        let m = if f.x1 > f.x2 {
            f.x1 as int
        } else {
            f.x2 as int
        };
        if m > rest {
            m
        } else {
            rest
        }
    }
}

/// The extent of the map: from the leftmost to the rightmost foothold
/// endpoint, always taking in 0.
pub fn map_edge(footholds: &Vec<FootHold>) -> (r: BackGroundEdge)
    ensures
        r.left == edge_left(footholds@),
        r.right == edge_right(footholds@),
{
    let mut left: i32 = 0;
    let mut right: i32 = 0;
    let mut k: usize = 0;
    while k < footholds.len()
        invariant
            k <= footholds@.len(),
            left == edge_left(footholds@.take(k as int)),
            right == edge_right(footholds@.take(k as int)),
        decreases footholds@.len() - k,
    {
        let f = footholds[k];
        assert(footholds@.take(k as int + 1).drop_last() =~= footholds@.take(k as int));
        let low = if f.x1 < f.x2 {
            f.x1
        } else {
            f.x2
        };
        let high = if f.x1 > f.x2 {
            f.x1
        } else {
            f.x2
        };
        if low < left {
            left = low;
        }
        if high > right {
            right = high;
        }
        k = k + 1;
    }
    assert(footholds@.take(footholds@.len() as int) =~= footholds@);
    BackGroundEdge { left, right }
}

impl BackGround {
    /// The size of one tile: the background's own spacing on each axis where
    /// it has one, else the size of its image.
    pub fn cell_size(&self, width: i32, height: i32) -> (r: (i32, i32))
        ensures
            r.0 == if self.cx == 0 {
                width
            } else {
                self.cx
            },
            r.1 == if self.cy == 0 {
                height
            } else {
                self.cy
            },
    {
        let cx = if self.cx == 0 {
            width
        } else {
            self.cx
        };
        let cy = if self.cy == 0 {
            height
        } else {
            self.cy
        };
        (cx, cy)
    }
}

/// Where a row of tiles of size `cell`, one of which lies at `base`, starts
/// so as to cover the screen from `low` to `high`, and how many tiles it
/// takes: the first tile is the last one at or before `low`, and one tile
/// more than needed is laid at the far end.
pub fn tile_span(base: i32, cell: i32, low: i32, high: i32) -> (r: (i64, i64))
    requires
        cell > 0,
        low <= high,
    ensures
        r.0 <= low < r.0 + cell,
        exists|k: int| r.0 - base == #[trigger] (k * cell),
        r.1 == (high - r.0) / (cell as int) + 2,
{
    let c = cell as i64;
    let lo = low as i64;
    let mut x = base as i64;
    let ghost mut k: int = 0;
    if x <= lo {
        while x <= lo
            invariant
                x <= lo + c,
                x == base + k * c,
                c == cell > 0,
                lo == low,
            decreases lo + c - x,
        {
            assert((k + 1) * c == k * c + c) by (nonlinear_arith);
            x = x + c;
            proof {
                k = k + 1;
            }
        }
        assert((k - 1) * c == k * c - c) by (nonlinear_arith);
        x = x - c;
        proof {
            k = k - 1;
        }
    } else {
        while x > lo
            invariant
                x > lo - c,
                x == base + k * c,
                c == cell > 0,
                lo == low,
            decreases x - lo + c,
        {
            assert((k - 1) * c == k * c - c) by (nonlinear_arith);
            x = x - c;
            proof {
                k = k - 1;
            }
        }
    }
    assert(x - base == k * cell);
    let span = (high as i64 - x) as u64;
    let count = (span / c as u64) as i64 + 2;
    (x, count)
}

} // verus!
