use vstd::prelude::*;

use crate::background::{tilemode_of, BackGround};

verus! {

/// A map as its data file describes it: its id, its layers of tiles and
/// objects, and its backgrounds.
#[derive(Debug)]
pub struct MapInfo {
    pub id: u8,
    pub layers: Vec<Layers>,
    pub backs: Vec<Backs>,
}

/// One drawing layer of a map.
#[derive(Debug)]
pub struct Layers {
    pub tiles: Option<Vec<Tiles>>,
    pub objs: Option<Vec<Objs>>,
}

/// A tile placed on a layer.
#[derive(Debug)]
pub struct Tiles {
    pub id: i32,
    pub x: i32,
    pub y: i32,
    pub resource: Resource,
}

/// An image and where its origin lies in it.
#[derive(Debug)]
pub struct Resource {
    pub width: i32,
    pub height: i32,
    pub origin_x: i32,
    pub origin_y: i32,
    pub z: i32,
    pub resource_url: String,
}

/// A background of a map.
#[derive(Debug)]
pub struct Backs {
    pub id: i32,
    pub x: i32,
    pub y: i32,
    pub cx: i32,
    pub cy: i32,
    pub rx: i32,
    pub ry: i32,
    pub alpha: i32,
    pub flip_x: bool,
    pub front: bool,
    pub ani: i32,
    pub types: i32,
    pub resource: Resource,
}

/// An object placed on a layer, possibly animated.
#[derive(Debug)]
pub struct Objs {
    pub id: i32,
    pub x: i32,
    pub y: i32,
    pub z: i32,
    pub flip_x: bool,
    pub resource: Option<Resource2>,
}

/// The frames of an animated object.
#[derive(Debug)]
pub struct Resource2 {
    pub frames: Option<Vec<Frames>>,
}

/// One frame of an animated object, shown for `delay` milliseconds.
#[derive(Debug)]
pub struct Frames {
    pub delay: i32,
    pub a0: i32,
    pub a1: i32,
    pub width: i32,
    pub height: i32,
    pub origin_x: i32,
    pub origin_y: i32,
    pub z: i32,
    pub resource_url: String,
}

/// A map y coordinate turned to point upwards; the lowest `i32` has no
/// negation and stays as it is.
pub open spec fn flip_y(y: i32) -> i32 {
    if y == i32::MIN {
        i32::MIN
    } else {
        (-y) as i32
    }
}

impl Backs {
    /// The background this entry draws with the image `resource`. Only plain
    /// backgrounds (animation kind 0) are drawn; their y is turned to point upwards.
    pub fn to_background(&self, resource: String) -> (r: Option<BackGround>)
        ensures
            r is Some <==> self.ani == 0,
            r matches Some(b) ==> {
                &&& b.id == self.id && b.x == self.x && b.y == flip_y(self.y)
                &&& b.cx == self.cx && b.cy == self.cy && b.rx == self.rx && b.ry == self.ry
                &&& b.alpha == self.alpha && b.flip_x == self.flip_x && b.front == self.front
                &&& b.ani == self.ani && b.types == self.types
                &&& b.resource == resource
                &&& b.tilemode == tilemode_of(self.types)
            },
    {
        if self.ani != 0 {
            return None;
        }
        let y = if self.y == i32::MIN {
            i32::MIN
        } else {
            -self.y
        };
        Some(
            BackGround::new(
                self.id,
                self.x,
                y,
                self.cx,
                self.cy,
                self.rx,
                self.ry,
                self.alpha,
                self.flip_x,
                self.front,
                self.ani,
                self.types,
                resource,
            ),
        )
    }
}

} // verus!
