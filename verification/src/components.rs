//! Entity components carried by the world: camera extent, input marker,
//! renderable sprite data and the tile map component.

use vstd::prelude::*;
use crate::def::Size;

verus! {

/// Main camera component: the visible extent around its entity.
#[derive(Debug, PartialEq, Eq, Clone, Copy, Structural)]
pub struct MainCamera {
    pub size: Size,
}

impl MainCamera {
    /// A camera of the given pixel extent.
    pub fn new(w: u32, h: u32) -> (c: MainCamera)
        ensures
            c.size.w == w,
            c.size.h == h,
    {
        MainCamera { size: Size { w, h } }
    }

    /// The visible extent.
    pub fn size(&self) -> (s: Size)
        ensures
            s == self.size,
    {
        self.size
    }
}

/// Marker component: entities carrying it receive movement input.
#[derive(Debug, PartialEq, Eq, Clone, Copy, Structural)]
pub struct InputReceiver;

/// Category of a map tile.
#[derive(Debug, PartialEq, Eq, Clone, Copy, Structural)]
pub enum TileCategory {
    Grass,
    Soil,
}

/// One map tile: its category and a sub-type number for varied styling.
#[derive(Debug, PartialEq, Eq, Clone, Copy, Structural)]
pub struct Tile {
    pub category: TileCategory,
    pub sub_id: u32,
}

/// Map component: all terrain tiles plus the map's extent.
#[derive(Debug)]
pub struct TileMap {
    pub tiles: Vec<Tile>,
    pub size: Size,
}

impl TileMap {
    /// An empty test map of the given extent.
    pub fn test(w: u32, h: u32) -> (m: TileMap)
        ensures
            m.tiles@ == Seq::<Tile>::empty(),
            m.size.w == w,
            m.size.h == h,
    {
        TileMap { tiles: Vec::new(), size: Size { w, h } }
    }
}

/// Renderable component: a texture id, the drawn extent and an opacity.
#[derive(Debug)]
pub struct Renderable {
    pub tid: String,
    pub size: Size,
    pub alpha: u8,
}

impl Renderable {
    /// A fully opaque renderable.
    pub fn new(tid: String, w: u32, h: u32) -> (r: Renderable)
        ensures
            r.tid@ == tid@,
            r.size.w == w,
            r.size.h == h,
            r.alpha == 255,
    {
        Renderable::new_with_alpha(tid, w, h, 255)
    }

    /// A renderable with an explicit opacity.
    pub fn new_with_alpha(tid: String, w: u32, h: u32, alpha: u8) -> (r: Renderable)
        ensures
            r.tid@ == tid@,
            r.size.w == w,
            r.size.h == h,
            r.alpha == alpha,
    {
        Renderable { tid, size: Size { w, h }, alpha }
    }
}

} // verus!
