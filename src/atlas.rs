//! The sprite atlas: a cache from atlas keys to tiles of atlas textures.
//!
//! A lookup that misses makes its caller the one builder of that key; other
//! callers of the same key wait and look up again once the build has finished
//! or been abandoned. Tiles are placed in fixed-size textures row by row
//! ("shelves"); a new texture is opened when the current one is full. Nothing
//! is ever evicted.

use vstd::prelude::*;
use std::collections::{HashMap, HashSet};

verus! {

broadcast use vstd::std_specs::hash::group_hash_axioms;

/// Width and height of every atlas texture, in pixels.
pub const ATLAS_TEXTURE_SIZE: u32 = 1024;

/// A rectangle of an atlas texture, in pixels.
#[derive(Clone, Copy, Debug, PartialEq, Eq, Structural)]
pub struct TileBounds {
    pub x: u32,
    pub y: u32,
    pub width: u32,
    pub height: u32,
}

/// Where a rasterized unit lives: which texture, and which region of it.
#[derive(Clone, Copy, Debug, PartialEq, Eq, Structural)]
pub struct AtlasTile {
    pub texture_id: u32,
    pub tile_id: u32,
    pub bounds: TileBounds,
}

/// Why no tile was returned.
#[derive(Clone, Copy, Debug, PartialEq, Eq, Structural)]
pub enum AtlasError {
    /// `finish_build` or `abandon_build` for a key nobody is building.
    NotBuilding,
    /// The tile is wider or taller than an atlas texture.
    TileTooLarge,
    /// No texture or tile identifier is left.
    AtlasFull,
}

/// The placement state: the current texture, its open shelf, and the next
/// tile identifier.
#[derive(Clone, Copy, Debug, PartialEq, Eq, Structural)]
pub struct ShelfAllocator {
    pub texture_id: u32,
    pub shelf_y: u32,
    pub shelf_height: u32,
    pub cursor_x: u32,
    pub next_tile_id: u32,
}

/// The open shelf lies inside the texture.
pub open spec fn alloc_wf(a: ShelfAllocator) -> bool {
    &&& a.shelf_y + a.shelf_height <= ATLAS_TEXTURE_SIZE
    &&& a.cursor_x <= ATLAS_TEXTURE_SIZE
}

/// Places a `w` by `h` tile: on the open shelf if it fits to the right of
/// what is there, else on a new shelf below, else at the top left of a new
/// texture.
pub open spec fn alloc_spec(a: ShelfAllocator, w: u32, h: u32) -> (ShelfAllocator, Result<AtlasTile, AtlasError>) {
    let new_shelf = a.cursor_x + w > ATLAS_TEXTURE_SIZE;
    let y1 = if new_shelf { a.shelf_y + a.shelf_height } else { a.shelf_y as int };
    let sh1 = if new_shelf { 0 } else { a.shelf_height as int };
    let x1 = if new_shelf { 0 } else { a.cursor_x as int };
    let new_texture = y1 + h > ATLAS_TEXTURE_SIZE;
    if w > ATLAS_TEXTURE_SIZE || h > ATLAS_TEXTURE_SIZE {
        (a, Err(AtlasError::TileTooLarge))
    } else if a.next_tile_id == u32::MAX || (new_texture && a.texture_id == u32::MAX) {
        (a, Err(AtlasError::AtlasFull))
    } else {
        let tex = if new_texture { a.texture_id + 1 } else { a.texture_id as int };
        let y = if new_texture { 0 } else { y1 };
        let sh = if new_texture { 0 } else { sh1 };
        let x = if new_texture { 0 } else { x1 };
        let tile = AtlasTile {
            texture_id: tex as u32,
            tile_id: a.next_tile_id,
            bounds: TileBounds { x: x as u32, y: y as u32, width: w, height: h },
        };
        let a2 = ShelfAllocator {
            texture_id: tex as u32,
            shelf_y: y as u32,
            shelf_height: (if sh >= h { sh } else { h as int }) as u32,
            cursor_x: (x + w) as u32,
            next_tile_id: (a.next_tile_id + 1) as u32,
        };
        (a2, Ok(tile))
    }
}

impl ShelfAllocator {
    /// An empty first texture.
    pub fn new() -> (r: ShelfAllocator)
        ensures
            alloc_wf(r),
            r == (ShelfAllocator { texture_id: 0, shelf_y: 0, shelf_height: 0, cursor_x: 0, next_tile_id: 0 }),
    {
        ShelfAllocator { texture_id: 0, shelf_y: 0, shelf_height: 0, cursor_x: 0, next_tile_id: 0 }
    }

    /// Reserves a `width` by `height` region; the tile returned lies inside
    /// its texture and has exactly the size asked for.
    pub fn allocate(&mut self, width: u32, height: u32) -> (r: Result<AtlasTile, AtlasError>)
        requires
            alloc_wf(*old(self)),
        ensures
            alloc_wf(*final(self)),
            (*final(self), r) == alloc_spec(*old(self), width, height),
            r matches Ok(t) ==> t.bounds.width == width && t.bounds.height == height
                && t.bounds.x + width <= ATLAS_TEXTURE_SIZE && t.bounds.y + height
                <= ATLAS_TEXTURE_SIZE,
    {
        if width > ATLAS_TEXTURE_SIZE || height > ATLAS_TEXTURE_SIZE {
            return Err(AtlasError::TileTooLarge);
        }
        let new_shelf = self.cursor_x > ATLAS_TEXTURE_SIZE - width;
        let (mut y, mut sh, mut x) = if new_shelf {
            (self.shelf_y + self.shelf_height, 0u32, 0u32)
        } else {
            (self.shelf_y, self.shelf_height, self.cursor_x)
        };
        let new_texture = y > ATLAS_TEXTURE_SIZE - height;
        if self.next_tile_id == u32::MAX || (new_texture && self.texture_id == u32::MAX) {
            return Err(AtlasError::AtlasFull);
        }
        let mut tex = self.texture_id;
        if new_texture {
            tex = tex + 1;
            y = 0;
            sh = 0;
            x = 0;
        }
        let tile = AtlasTile {
            texture_id: tex,
            tile_id: self.next_tile_id,
            bounds: TileBounds { x, y, width, height },
        };
        self.texture_id = tex;
        self.shelf_y = y;
        self.shelf_height = if sh >= height { sh } else { height };
        self.cursor_x = x + width;
        self.next_tile_id = self.next_tile_id + 1;
        Ok(tile)
    }
}

/// What a lookup tells its caller to do.
#[derive(Clone, Copy, Debug, PartialEq, Eq, Structural)]
pub enum AtlasLookup {
    /// The key has this tile.
    Ready(AtlasTile),
    /// The caller is now the key's only builder: rasterize, then call
    /// `finish_build` or `abandon_build`.
    Build,
    /// Another caller is building the key: wait, then look up again.
    Wait,
}

/// The atlas as a mathematical value.
pub struct AtlasModel {
    pub tiles: Map<u64, AtlasTile>,
    pub building: Set<u64>,
    pub allocator: ShelfAllocator,
}

/// The two tiles share no pixel.
pub open spec fn disjoint(a: AtlasTile, b: AtlasTile) -> bool {
    ||| a.texture_id != b.texture_id
    ||| a.bounds.x + a.bounds.width <= b.bounds.x
    ||| b.bounds.x + b.bounds.width <= a.bounds.x
    ||| a.bounds.y + a.bounds.height <= b.bounds.y
    ||| b.bounds.y + b.bounds.height <= a.bounds.y
}

/// The tile was placed before the allocator's current position: on an
/// earlier texture, above the open shelf, or on the open shelf left of the
/// cursor; and its identifier was handed out already.
pub open spec fn placed_before(t: AtlasTile, a: ShelfAllocator) -> bool {
    &&& t.tile_id < a.next_tile_id
    &&& t.texture_id <= a.texture_id
    &&& t.texture_id == a.texture_id ==> {
        ||| t.bounds.y + t.bounds.height <= a.shelf_y
        ||| (t.bounds.y == a.shelf_y && t.bounds.x + t.bounds.width <= a.cursor_x
            && t.bounds.height <= a.shelf_height)
    }
}

/// A new tile overlaps no tile placed before it and gets a fresh identifier;
/// the old tile still lies behind the moved allocator.
pub proof fn lemma_alloc_fresh(a: ShelfAllocator, w: u32, h: u32, u: AtlasTile)
    requires
        alloc_wf(a),
        alloc_spec(a, w, h).1 is Ok,
        placed_before(u, a),
    ensures
        ({
            let (a2, r) = alloc_spec(a, w, h);
            let t = r->Ok_0;
            &&& disjoint(t, u)
            &&& t.tile_id != u.tile_id
            &&& placed_before(u, a2)
        }),
{
}

/// A new tile lies behind the moved allocator.
pub proof fn lemma_alloc_placed(a: ShelfAllocator, w: u32, h: u32)
    requires
        alloc_wf(a),
        alloc_spec(a, w, h).1 is Ok,
    ensures
        placed_before(alloc_spec(a, w, h).1->Ok_0, alloc_spec(a, w, h).0),
{
}

/// The atlas's invariant over its parts: no key is both present and being
/// built, the allocator is consistent, every tile lies behind it, and no two
/// tiles overlap or share an identifier.
pub open spec fn atlas_inv(tiles: Map<u64, AtlasTile>, building: Set<u64>, a: ShelfAllocator) -> bool {
    &&& forall|k: u64| #[trigger] building.contains(k) ==> !tiles.contains_key(k)
    &&& alloc_wf(a)
    &&& forall|k: u64| #[trigger] tiles.contains_key(k) ==> placed_before(tiles[k], a)
    &&& forall|k1: u64, k2: u64|
        #![trigger tiles[k1], tiles[k2]]
        tiles.contains_key(k1) && tiles.contains_key(k2) && k1 != k2 ==> disjoint(tiles[k1], tiles[k2])
            && tiles[k1].tile_id != tiles[k2].tile_id
}

pub open spec fn model_wf(m: AtlasModel) -> bool {
    atlas_inv(m.tiles, m.building, m.allocator)
}

pub open spec fn lookup_spec(m: AtlasModel, key: u64) -> (AtlasModel, AtlasLookup) {
    if m.tiles.contains_key(key) {
        (m, AtlasLookup::Ready(m.tiles[key]))
    } else if m.building.contains(key) {
        (m, AtlasLookup::Wait)
    } else {
        (AtlasModel { building: m.building.insert(key), ..m }, AtlasLookup::Build)
    }
}

pub open spec fn finish_spec(m: AtlasModel, key: u64, w: u32, h: u32) -> (AtlasModel, Result<AtlasTile, AtlasError>) {
    if !m.building.contains(key) {
        (m, Err(AtlasError::NotBuilding))
    } else {
        let (a2, r) = alloc_spec(m.allocator, w, h);
        match r {
            Ok(t) => (
                AtlasModel { tiles: m.tiles.insert(key, t), building: m.building.remove(key), allocator: a2 },
                Ok(t),
            ),
            Err(e) => (AtlasModel { building: m.building.remove(key), ..m }, Err(e)),
        }
    }
}

/// `n` lookups of one key in a row, as concurrent callers would make them
/// under the atlas's lock.
pub open spec fn lookup_many(m: AtlasModel, key: u64, n: nat) -> (AtlasModel, Seq<AtlasLookup>)
    decreases n,
{
    if n == 0 {
        (m, seq![])
    } else {
        let (m1, outs) = lookup_many(m, key, (n - 1) as nat);
        let (m2, o) = lookup_spec(m1, key);
        (m2, outs.push(o))
    }
}

proof fn lemma_lookup_many_after_first(m: AtlasModel, key: u64, n: nat)
    requires
        n >= 1,
        !m.tiles.contains_key(key),
        !m.building.contains(key),
    ensures
        lookup_many(m, key, n).0 == lookup_spec(m, key).0,
        lookup_many(m, key, n).1.len() == n,
        lookup_many(m, key, n).1[0] == AtlasLookup::Build,
        forall|i: int| 1 <= i < n ==> lookup_many(m, key, n).1[i] == AtlasLookup::Wait,
    decreases n,
{
    reveal_with_fuel(lookup_many, 2);
    if n > 1 {
        lemma_lookup_many_after_first(m, key, (n - 1) as nat);
        let m1 = lookup_spec(m, key).0;
        assert(m1.building.contains(key));
        assert(!m1.tiles.contains_key(key));
    }
}

proof fn lemma_lookup_many_present(m: AtlasModel, key: u64, n: nat)
    requires
        m.tiles.contains_key(key),
    ensures
        lookup_many(m, key, n).0 == m,
        lookup_many(m, key, n).1.len() == n,
        forall|i: int| 0 <= i < n ==> lookup_many(m, key, n).1[i] == AtlasLookup::Ready(m.tiles[key]),
    decreases n,
{
    if n > 0 {
        lemma_lookup_many_present(m, key, (n - 1) as nat);
    }
}

/// At most one build per key: of `n` callers that look up a key that is
/// neither present nor being built, exactly the first is told to build and
/// every other waits. When that build finishes with a tile, each of them
/// looks up again and gets that same tile.
pub proof fn lemma_build_once(m: AtlasModel, key: u64, n: nat, w: u32, h: u32)
    requires
        model_wf(m),
        n >= 1,
        !m.tiles.contains_key(key),
        !m.building.contains(key),
    ensures
        ({
            let (m1, outs) = lookup_many(m, key, n);
            &&& outs.len() == n
            &&& outs[0] == AtlasLookup::Build
            &&& forall|i: int| 1 <= i < n ==> outs[i] == AtlasLookup::Wait
            &&& finish_spec(m1, key, w, h).1 matches Ok(t) ==> {
                let m2 = finish_spec(m1, key, w, h).0;
                let (m3, again) = lookup_many(m2, key, n);
                &&& m3 == m2
                &&& forall|i: int| 0 <= i < n ==> again[i] == AtlasLookup::Ready(t)
            }
        }),
{
    lemma_lookup_many_after_first(m, key, n);
    let m1 = lookup_many(m, key, n).0;
    let m2 = finish_spec(m1, key, w, h).0;
    if finish_spec(m1, key, w, h).1 is Ok {
        assert(m2.tiles.contains_key(key));
        lemma_lookup_many_present(m2, key, n);
    }
}

/// Miss then hit: after a lookup of a key that is neither present nor being
/// built, and a build of it that yields a tile, the next lookup of the key
/// returns that tile and asks for no second build. A key that is present is
/// returned as it is, with nothing changed.
pub proof fn lemma_miss_then_hit(m: AtlasModel, key: u64, w: u32, h: u32)
    requires
        model_wf(m),
    ensures
        m.tiles.contains_key(key) ==> lookup_spec(m, key) == (m, AtlasLookup::Ready(m.tiles[key])),
        !m.tiles.contains_key(key) && !m.building.contains(key) ==> {
            let (m1, first) = lookup_spec(m, key);
            let (m2, built) = finish_spec(m1, key, w, h);
            &&& first == AtlasLookup::Build
            &&& built matches Ok(t) ==> lookup_spec(m2, key) == (m2, AtlasLookup::Ready(t))
        },
{
}

/// The atlas's state, kept behind one lock by its users.
#[derive(Debug)]
pub struct SpriteAtlas {
    tiles: HashMap<u64, AtlasTile>,
    building: HashSet<u64>,
    allocator: ShelfAllocator,
}

impl SpriteAtlas {
    pub closed spec fn model(&self) -> AtlasModel {
        AtlasModel { tiles: self.tiles@, building: self.building@, allocator: self.allocator }
    }

    pub closed spec fn wf(&self) -> bool {
        atlas_inv(self.tiles@, self.building@, self.allocator)
    }

    /// A well-formed atlas satisfies the invariant over its model: in
    /// particular no two of its tiles overlap or share an identifier.
    pub proof fn lemma_wf_model(&self)
        requires
            self.wf(),
        ensures
            model_wf(self.model()),
    {
    }

    /// An atlas with no tile.
    pub fn new() -> (r: SpriteAtlas)
        ensures
            r.wf(),
            r.model().tiles == Map::<u64, AtlasTile>::empty(),
            r.model().building == Set::<u64>::empty(),
            r.model().allocator == (ShelfAllocator { texture_id: 0, shelf_y: 0, shelf_height: 0, cursor_x: 0, next_tile_id: 0 }),
    {
        SpriteAtlas { tiles: HashMap::new(), building: HashSet::new(), allocator: ShelfAllocator::new() }
    }

    /// Looks `key` up: its tile where present; else `Wait` where another
    /// caller builds it; else `Build`, and the caller becomes its builder.
    pub fn lookup(&mut self, key: u64) -> (r: AtlasLookup)
        requires
            old(self).wf(),
        ensures
            final(self).wf(),
            (final(self).model(), r) == lookup_spec(old(self).model(), key),
    {
        match self.tiles.get(&key) {
            Some(t) => AtlasLookup::Ready(*t),
            None => {
                if self.building.contains(&key) {
                    AtlasLookup::Wait
                } else {
                    self.building.insert(key);
                    AtlasLookup::Build
                }
            },
        }
    }

    /// Records the build of `key` as a `width` by `height` tile, placed in
    /// the atlas; the caller uploads the pixels to that region. The key is no
    /// longer being built, whatever the result.
    pub fn finish_build(&mut self, key: u64, width: u32, height: u32) -> (r: Result<AtlasTile, AtlasError>)
        requires
            old(self).wf(),
        ensures
            final(self).wf(),
            (final(self).model(), r) == finish_spec(old(self).model(), key, width, height),
    {
        if !self.building.contains(&key) {
            return Err(AtlasError::NotBuilding);
        }
        self.building.remove(&key);
        let ghost a0 = self.allocator;
        let ghost tiles0 = self.tiles@;
        match self.allocator.allocate(width, height) {
            Ok(t) => {
                self.tiles.insert(key, t);
                proof {
                    assert forall|k: u64| #[trigger] tiles0.contains_key(k) implies disjoint(t, tiles0[k])
                        && t.tile_id != tiles0[k].tile_id && placed_before(tiles0[k], self.allocator) by {
                        lemma_alloc_fresh(a0, width, height, tiles0[k]);
                    }
                    lemma_alloc_placed(a0, width, height);
                }
                Ok(t)
            },
            Err(e) => Err(e),
        }
    }

    /// Gives up the build of `key` (rasterization failed): nothing is
    /// inserted and the key may be built again.
    pub fn abandon_build(&mut self, key: u64) -> (r: Result<(), AtlasError>)
        requires
            old(self).wf(),
        ensures
            final(self).wf(),
            r is Ok <==> old(self).model().building.contains(key),
            final(self).model() == (AtlasModel {
                building: old(self).model().building.remove(key),
                ..old(self).model()
            }),
    {
        if self.building.remove(&key) {
            Ok(())
        } else {
            Err(AtlasError::NotBuilding)
        }
    }

    /// The tile of `key`, where present.
    pub fn get(&self, key: u64) -> (r: Option<AtlasTile>)
        ensures
            r == (if self.model().tiles.contains_key(key) {
                Some(self.model().tiles[key])
            } else {
                None
            }),
    {
        match self.tiles.get(&key) {
            Some(t) => Some(*t),
            None => None,
        }
    }
}

} // verus!
