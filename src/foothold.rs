use vstd::prelude::*;

verus! {

/// Collision group collided with when moving from above to below.
pub const GROUP_1: u32 = 1;

/// Collision group collided with when moving from below to above.
pub const GROUP_2: u32 = 2;

/// Collision group collided with when moving from left to right.
pub const GROUP_3: u32 = 4;

/// Collision group collided with when moving from right to left.
pub const GROUP_4: u32 = 8;

/// Collision group that no foothold lists: a body in it passes through all of them.
pub const GROUP_5: u32 = 16;

/// Every collision group at once.
pub const GROUP_ALL: u32 = 0xffff_ffff;

/// A point in world space, with `y` growing upwards.
#[derive(Clone, Copy, Debug, PartialEq, Eq, Structural)]
pub struct Point {
    pub x: i64,
    pub y: i64,
}

/// A directed terrain segment as the map records it, with `y` growing downwards.
#[derive(Clone, Copy, Debug, PartialEq, Eq, Structural)]
pub struct FootHold {
    pub x1: i32,
    pub y1: i32,
    pub x2: i32,
    pub y2: i32,
    pub prev: i32,
    pub next: i32,
    pub piece: i32,
    pub layer: i32,
    pub id: i32,
}

/// The orientation of a foothold.
#[derive(Clone, Copy, Debug, PartialEq, Eq, Structural)]
pub enum FootHoldType {
    Slope,
    Horizontal,
    Vertical,
    Unknow,
}

/// The orientation of the segment from `a` to `b`. A segment of zero length
/// counts as horizontal.
pub open spec fn foothold_type_of(a: Point, b: Point) -> FootHoldType {
    if a.y == b.y {
        FootHoldType::Horizontal
    } else if a.x == b.x {
        FootHoldType::Vertical
    } else {
        FootHoldType::Slope
    }
}

/// The one approach direction in which the segment from `a` to `b` blocks a
/// body: the direction it is drawn in decides which side lets bodies through.
/// Slopes block only from above. A segment of zero length blocks from below.
pub open spec fn foothold_group_of(a: Point, b: Point) -> u32 {
    if a.y == b.y {
        if a.x < b.x {
            GROUP_1
        } else {
            GROUP_2
        }
    } else if a.x == b.x {
        if a.y < b.y {
            GROUP_3
        } else {
            GROUP_4
        }
    } else {
        GROUP_1
    }
}

/// The collision group of a terrain layer: one bit for each of the layers
/// 0 to 4, and every group for any other value.
pub open spec fn layer_group(layer: int) -> u32 {
    if layer == 0 {
        GROUP_1
    } else if layer == 1 {
        GROUP_2
    } else if layer == 2 {
        GROUP_3
    } else if layer == 3 {
        GROUP_4
    } else if layer == 4 {
        GROUP_5
    } else {
        GROUP_ALL
    }
}

impl FootHold {
    /// The first endpoint in world space.
    pub open spec fn start_spec(&self) -> Point {
        Point { x: self.x1 as i64, y: (-(self.y1 as int)) as i64 }
    }

    /// The second endpoint in world space.
    pub open spec fn end_spec(&self) -> Point {
        Point { x: self.x2 as i64, y: (-(self.y2 as int)) as i64 }
    }

    /// The first endpoint in world space, where `y` grows upwards.
    pub fn start(&self) -> (r: Point)
        ensures
            r == self.start_spec(),
    {
        Point { x: self.x1 as i64, y: -(self.y1 as i64) }
    }

    /// The second endpoint in world space, where `y` grows upwards.
    pub fn end(&self) -> (r: Point)
        ensures
            r == self.end_spec(),
    {
        Point { x: self.x2 as i64, y: -(self.y2 as i64) }
    }

    /// The approach direction that the segment from `p1` to `p2` blocks.
    pub fn get_foothold_group(p1: Point, p2: Point) -> (r: u32)
        ensures
            r == foothold_group_of(p1, p2),
    {
        if p1.y == p2.y {
            if p1.x < p2.x {
                GROUP_1
            } else {
                GROUP_2
            }
        } else if p1.x == p2.x {
            if p1.y < p2.y {
                GROUP_3
            } else {
                GROUP_4
            }
        } else {
            GROUP_1
        }
    }

    /// The orientation of the segment from `p1` to `p2`.
    pub fn get_foothold_type(p1: Point, p2: Point) -> (r: FootHoldType)
        ensures
            r == foothold_type_of(p1, p2),
    {
        if p1.y == p2.y {
            FootHoldType::Horizontal
        } else if p1.x == p2.x {
            FootHoldType::Vertical
        } else {
            FootHoldType::Slope
        }
    }

    /// The collision group of a terrain layer.
    pub fn get_foothold_layer(layer: i32) -> (r: u32)
        ensures
            r == layer_group(layer as int),
    {
        match layer {
            0 => GROUP_1,
            1 => GROUP_2,
            2 => GROUP_3,
            3 => GROUP_4,
            4 => GROUP_5,
            _ => GROUP_ALL,
        }
    }

    /// The layer of the foothold below an airborne point. Every point is
    /// taken to stand above layer 0.
    pub fn get_bottom_layer(p: Point) -> (r: i32)
        ensures
            r == 0,
    {
        0
    }
}

/// A horizontal segment drawn left to right blocks only bodies moving down
/// onto it; the same segment drawn right to left blocks only bodies moving up.
pub proof fn lemma_horizontal_orientation(a: Point, b: Point)
    requires
        a.y == b.y,
        a.x < b.x,
    ensures
        foothold_type_of(a, b) == FootHoldType::Horizontal,
        foothold_type_of(b, a) == FootHoldType::Horizontal,
        foothold_group_of(a, b) == GROUP_1,
        foothold_group_of(b, a) == GROUP_2,
{
}

/// A vertical segment drawn upwards blocks only bodies moving to the right;
/// the same segment drawn downwards blocks only bodies moving to the left.
pub proof fn lemma_vertical_orientation(a: Point, b: Point)
    requires
        a.x == b.x,
        a.y < b.y,
    ensures
        foothold_type_of(a, b) == FootHoldType::Vertical,
        foothold_type_of(b, a) == FootHoldType::Vertical,
        foothold_group_of(a, b) == GROUP_3,
        foothold_group_of(b, a) == GROUP_4,
{
}

/// A segment that is neither horizontal nor vertical is a slope, and blocks
/// only bodies moving down onto it, whichever way it is drawn.
pub proof fn lemma_slope_orientation(a: Point, b: Point)
    requires
        a.x != b.x,
        a.y != b.y,
    ensures
        foothold_type_of(a, b) == FootHoldType::Slope,
        foothold_type_of(b, a) == FootHoldType::Slope,
        foothold_group_of(a, b) == GROUP_1,
        foothold_group_of(b, a) == GROUP_1,
{
}

/// Classification depends on the two endpoints alone: equal endpoints give
/// equal orientations and equal blocking directions.
pub proof fn lemma_classification_deterministic(a1: Point, b1: Point, a2: Point, b2: Point)
    requires
        a1 == a2,
        b1 == b2,
    ensures
        foothold_type_of(a1, b1) == foothold_type_of(a2, b2),
        foothold_group_of(a1, b1) == foothold_group_of(a2, b2),
{
}

} // verus!
