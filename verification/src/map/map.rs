//! A later iteration of the tile map with a larger built-in sample.

use vstd::prelude::*;
use crate::coordinates::{spec_new, Coordinates};
use crate::map::tile::{Surface, Terrain};

verus! {

/// A tile map: one coordinate, terrain and surface per cell, aligned by
/// index.
#[derive(Debug)]
pub struct GridMap {
    tiles: Vec<Coordinates>,
    terrains: Vec<Terrain>,
    surfaces: Vec<Surface>,
}

impl GridMap {
    /// The aligned columns of the map.
    pub closed spec fn rows(&self) -> Seq<(Coordinates, Terrain, Surface)> {
        Seq::new(
            self.tiles@.len(),
            |i: int| (self.tiles@[i], self.terrains@[i], self.surfaces@[i]),
        )
    }

    /// The columns are aligned.
    pub closed spec fn wf(&self) -> bool {
        self.tiles@.len() == self.terrains@.len() && self.tiles@.len() == self.surfaces@.len()
    }

    /// A built-in sample map of five cells.
    pub fn sample() -> (m: GridMap)
        ensures
            m.wf(),
            m.rows().len() == 5,
            m.rows()[0] == (spec_new(0, 0), Terrain::Plain, Surface::Grass),
            m.rows()[1] == (spec_new(1, 0), Terrain::Plain, Surface::Sand),
            m.rows()[2] == (spec_new(0, 1), Terrain::Hill, Surface::Snow),
            m.rows()[3] == (spec_new(2, 1), Terrain::Hill, Surface::Snow),
            m.rows()[4] == (spec_new(2, 2), Terrain::Basin, Surface::Ice),
    {
        let mut tiles: Vec<Coordinates> = Vec::new();
        tiles.push(Coordinates::new(0, 0));
        tiles.push(Coordinates::new(1, 0));
        tiles.push(Coordinates::new(0, 1));
        tiles.push(Coordinates::new(2, 1));
        tiles.push(Coordinates::new(2, 2));
        let mut terrains: Vec<Terrain> = Vec::new();
        terrains.push(Terrain::Plain);
        terrains.push(Terrain::Plain);
        terrains.push(Terrain::Hill);
        terrains.push(Terrain::Hill);
        terrains.push(Terrain::Basin);
        let mut surfaces: Vec<Surface> = Vec::new();
        surfaces.push(Surface::Grass);
        surfaces.push(Surface::Sand);
        surfaces.push(Surface::Snow);
        surfaces.push(Surface::Snow);
        surfaces.push(Surface::Ice);
        GridMap { tiles, terrains, surfaces }
    }

    /// How many cells the map holds.
    pub fn size(&self) -> (n: usize)
        requires
            self.wf(),
        ensures
            n == self.rows().len(),
    {
        self.tiles.len()
    }

    /// An iterator over the cells, in index order.
    pub fn iter(&self) -> (it: MapIterator<'_>)
        requires
            self.wf(),
        ensures
            it.map == self,
            it.index == 0,
            it.size == self.rows().len(),
    {
        MapIterator { map: self, index: 0, size: self.tiles.len() }
    }

    /// The cell at `i`.
    fn row_at(&self, i: usize) -> (r: (Coordinates, Terrain, Surface))
        requires
            self.wf(),
            i < self.rows().len(),
        ensures
            r == self.rows()[i as int],
    {
        (self.tiles[i], self.terrains[i], self.surfaces[i])
    }
}

/// A position in a [`GridMap`] walk.
pub struct MapIterator<'a> {
    pub map: &'a GridMap,
    pub index: usize,
    pub size: usize,
}

impl<'a> MapIterator<'a> {
    /// The next cell, or nothing once the walk is done.
    pub fn next(&mut self) -> (r: Option<(Coordinates, Terrain, Surface)>)
        requires
            old(self).map.wf(),
            old(self).size == old(self).map.rows().len(),
            old(self).index <= old(self).size,
        ensures
            final(self).map == old(self).map,
            final(self).size == old(self).size,
            old(self).index < old(self).size ==> r == Some(
                old(self).map.rows()[old(self).index as int],
            ) && final(self).index == old(self).index + 1,
            old(self).index >= old(self).size ==> r is None && final(self).index == old(
                self,
            ).index,
    {
        if self.index < self.size {
            let i = self.index;
            self.index += 1;
            Some(self.map.row_at(i))
        } else {
            None
        }
    }
}

} // verus!
