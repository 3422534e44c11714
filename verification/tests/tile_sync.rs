use jlh_maps::keyed_map::KeyedMap;
use jlh_maps::tile::CanonicalTileId;
use jlh_maps::tile_sync::{contains_tile, reconcile_spawned_tiles};

fn t(z: u32, x: u32, y: u32) -> CanonicalTileId {
    CanonicalTileId { z, x, y }
}

#[test]
fn reconciling_despawns_stale_and_lists_missing() {
    let mut spawned: KeyedMap<CanonicalTileId, &str> = KeyedMap::new();
    spawned.insert(t(1, 0, 0), "e1");
    spawned.insert(t(1, 1, 0), "e2");
    spawned.insert(t(1, 0, 1), "e3");
    let active = [t(1, 1, 0), t(1, 1, 1), t(1, 1, 1), t(2, 0, 0)];
    let plan = reconcile_spawned_tiles(&mut spawned, &active);
    let mut stale = plan.stale.clone();
    stale.sort_by_key(|(tile, _)| (tile.z, tile.x, tile.y));
    assert_eq!(stale, vec![(t(1, 0, 0), "e1"), (t(1, 0, 1), "e3")]);
    assert_eq!(plan.missing, vec![t(1, 1, 1), t(2, 0, 0)]);
    assert_eq!(spawned.len(), 1);
    assert_eq!(spawned.get(&t(1, 1, 0)), Some(&"e2"));
    assert!(contains_tile(&active, &t(2, 0, 0)));
    assert!(!contains_tile(&active, &t(0, 0, 0)));
}
