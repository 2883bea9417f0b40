//! The tile maps and the hexagonal world disc.

use hexcore::coordinates::Coordinates;
use hexcore::hex::Hex;
use hexcore::map::hexmap::HexMap;
use hexcore::map::map::GridMap as SampleMap;
use hexcore::map::tile::{Surface, Terrain};
use hexcore::map::GridMap;

#[test]
fn built_in_map_walks_three_cells() {
    let m = GridMap::new();
    assert_eq!(m.size(), 3);
    let mut it = m.iter();
    let (c, t, s) = it.next().unwrap();
    assert_eq!(c, Coordinates::new(0, 0));
    assert_eq!(t, Terrain::Plain);
    assert_eq!(s, Surface::Grass);
    let (c, t, s) = it.next().unwrap();
    assert_eq!(c, Coordinates::new(1, 0));
    assert_eq!(t, Terrain::Hill);
    assert_eq!(s, Surface::Sand);
    let (c, _, _) = it.next().unwrap();
    assert_eq!(c, Coordinates::new(0, 1));
    assert!(it.next().is_none());
    assert!(it.next().is_none());
}

#[test]
fn sample_map_walks_five_cells() {
    let m = SampleMap::sample();
    assert_eq!(m.size(), 5);
    let mut it = m.iter();
    let mut count = 0;
    while let Some(_) = it.next() {
        count += 1;
    }
    assert_eq!(count, 5);
}

#[test]
fn hexmap_disc_sizes() {
    // 1 + 3·r·(r+1) cells in a disc of radius r.
    assert_eq!(HexMap::new(0).cells().len(), 1);
    assert_eq!(HexMap::new(1).cells().len(), 7);
    assert_eq!(HexMap::new(2).cells().len(), 19);
    assert_eq!(HexMap::new(4).cells().len(), 61);
}

#[test]
fn hexmap_contains_exactly_the_disc() {
    let m = HexMap::new(2);
    assert_eq!(m.radius(), 2);
    let cells = m.cells();
    assert!(cells.contains(&Hex::new(0, 0)));
    assert!(cells.contains(&Hex::new(2, 0)));
    assert!(cells.contains(&Hex::new(-2, 2)));
    assert!(cells.contains(&Hex::new(1, 1)));
    // Distance three from the origin stays out.
    assert!(!cells.contains(&Hex::new(3, 0)));
    assert!(!cells.contains(&Hex::new(2, 1)));
    assert!(!cells.contains(&Hex::new(-2, -1)));
}
