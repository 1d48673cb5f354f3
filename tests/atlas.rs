use gpui::atlas::{AtlasError, AtlasLookup, AtlasTile, ShelfAllocator, SpriteAtlas, TileBounds, ATLAS_TEXTURE_SIZE};

#[test]
fn miss_then_hit_returns_first_tile() {
    let mut atlas = SpriteAtlas::new();
    assert_eq!(atlas.lookup(7), AtlasLookup::Build);
    let tile = atlas.finish_build(7, 10, 12).unwrap();
    assert_eq!(
        tile,
        AtlasTile { texture_id: 0, tile_id: 0, bounds: TileBounds { x: 0, y: 0, width: 10, height: 12 } }
    );
    assert_eq!(atlas.lookup(7), AtlasLookup::Ready(tile));
    assert_eq!(atlas.get(7), Some(tile));
}

#[test]
fn concurrent_lookups_build_once() {
    let mut atlas = SpriteAtlas::new();
    assert_eq!(atlas.lookup(1), AtlasLookup::Build);
    for _ in 0..5 {
        assert_eq!(atlas.lookup(1), AtlasLookup::Wait);
    }
    // Another key builds independently.
    assert_eq!(atlas.lookup(2), AtlasLookup::Build);
    let t = atlas.finish_build(1, 4, 4).unwrap();
    for _ in 0..5 {
        assert_eq!(atlas.lookup(1), AtlasLookup::Ready(t));
    }
}

#[test]
fn failed_build_inserts_nothing() {
    let mut atlas = SpriteAtlas::new();
    assert_eq!(atlas.lookup(3), AtlasLookup::Build);
    assert_eq!(atlas.abandon_build(3), Ok(()));
    assert_eq!(atlas.get(3), None);
    assert_eq!(atlas.abandon_build(3), Err(AtlasError::NotBuilding));
    assert_eq!(atlas.lookup(3), AtlasLookup::Build);
}

#[test]
fn finish_without_build_is_refused() {
    let mut atlas = SpriteAtlas::new();
    assert_eq!(atlas.finish_build(9, 1, 1), Err(AtlasError::NotBuilding));
    assert_eq!(atlas.get(9), None);
}

#[test]
fn oversized_tile_is_refused_and_key_released() {
    let mut atlas = SpriteAtlas::new();
    assert_eq!(atlas.lookup(5), AtlasLookup::Build);
    assert_eq!(atlas.finish_build(5, ATLAS_TEXTURE_SIZE + 1, 1), Err(AtlasError::TileTooLarge));
    assert_eq!(atlas.lookup(5), AtlasLookup::Build);
    assert_eq!(atlas.finish_build(5, ATLAS_TEXTURE_SIZE, ATLAS_TEXTURE_SIZE).unwrap().bounds.width, 1024);
}

#[test]
fn shelf_allocation_packs_rows_then_textures() {
    let mut a = ShelfAllocator::new();
    let t0 = a.allocate(600, 100).unwrap();
    assert_eq!(t0.bounds, TileBounds { x: 0, y: 0, width: 600, height: 100 });
    let t1 = a.allocate(400, 50).unwrap();
    assert_eq!(t1.bounds, TileBounds { x: 600, y: 0, width: 400, height: 50 });
    // Does not fit beside them: a new shelf below the tallest.
    let t2 = a.allocate(100, 900).unwrap();
    assert_eq!(t2.bounds, TileBounds { x: 0, y: 100, width: 100, height: 900 });
    assert_eq!(t2.texture_id, 0);
    // No room below either: a new texture.
    let t3 = a.allocate(1000, 100).unwrap();
    assert_eq!(t3.texture_id, 1);
    assert_eq!(t3.bounds, TileBounds { x: 0, y: 0, width: 1000, height: 100 });
    assert_eq!(t3.tile_id, 3);
}

#[test]
fn tiles_never_overlap() {
    let mut atlas = SpriteAtlas::new();
    let sizes: [(u32, u32); 12] = [
        (300, 200), (300, 50), (500, 120), (1024, 10), (10, 900), (700, 700),
        (400, 400), (0, 5), (5, 0), (1, 1), (1000, 1000), (24, 24),
    ];
    let mut tiles: Vec<AtlasTile> = Vec::new();
    for (key, (w, h)) in sizes.iter().enumerate() {
        assert_eq!(atlas.lookup(key as u64), AtlasLookup::Build);
        let t = atlas.finish_build(key as u64, *w, *h).unwrap();
        assert!(t.bounds.x + t.bounds.width <= ATLAS_TEXTURE_SIZE);
        assert!(t.bounds.y + t.bounds.height <= ATLAS_TEXTURE_SIZE);
        tiles.push(t);
    }
    for (i, a) in tiles.iter().enumerate() {
        for b in &tiles[i + 1..] {
            assert_ne!(a.tile_id, b.tile_id);
            let apart = a.texture_id != b.texture_id
                || a.bounds.x + a.bounds.width <= b.bounds.x
                || b.bounds.x + b.bounds.width <= a.bounds.x
                || a.bounds.y + a.bounds.height <= b.bounds.y
                || b.bounds.y + b.bounds.height <= a.bounds.y;
            assert!(apart, "{a:?} overlaps {b:?}");
        }
    }
}
