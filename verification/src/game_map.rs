//! The map: the tiles generated so far, and the tiles the player has visited.
use vstd::prelude::*;

use bevy::platform::collections::{HashMap, HashSet};

use crate::coords::HexCoord;
use crate::tiles::{fresh_tile, generate_tile, generated_kind, Forest, Tile, TileKind};

verus! {

#[verifier::external_type_specification]
#[verifier::external_body]
#[verifier::reject_recursive_types(K)]
#[verifier::reject_recursive_types(V)]
#[verifier::reject_recursive_types(S)]
pub struct ExBevyHashMap<K, V, S>(bevy::platform::collections::HashMap<K, V, S>);

#[verifier::external_type_specification]
#[verifier::external_body]
#[verifier::reject_recursive_types(T)]
#[verifier::reject_recursive_types(S)]
pub struct ExBevyHashSet<T, S>(bevy::platform::collections::HashSet<T, S>);

#[verifier::external_type_specification]
#[verifier::external_body]
pub struct ExFixedHasher(bevy::platform::hash::FixedHasher);

/// The axial coordinates `(q, r)` under which the map stores a tile.
pub type TileKey = (i32, i32);

/// The entries of a map of tiles, keyed by axial coordinates `(q, r)`.
pub uninterp spec fn tile_entries(m: HashMap<TileKey, Tile>) -> Map<TileKey, Tile>;

/// The members of a set of axial coordinates `(q, r)`.
pub uninterp spec fn coord_members(s: HashSet<TileKey>) -> Set<TileKey>;

/// Calls `HashMap::from([(key, tile)])`: a map holding that one entry.
#[verifier::external_body]
fn tiles_from_entry(key: TileKey, tile: Tile) -> (m: HashMap<TileKey, Tile>)
    ensures
        tile_entries(m) == Map::empty().insert(key, tile),
{
    HashMap::from([(key, tile)])
}

/// Calls `HashMap::get` and copies the tile found: the tile stored under `key`, `None`
/// when there is none.
#[verifier::external_body]
fn tiles_get(m: &HashMap<TileKey, Tile>, key: TileKey) -> (t: Option<Tile>)
    ensures
        t is Some <==> tile_entries(*m).contains_key(key),
        t matches Some(tile) ==> tile == tile_entries(*m)[key],
{
    m.get(&key).copied()
}

/// Calls `HashMap::insert`: afterwards `key` maps to `tile` and every other entry is as
/// before. The value it returns (the tile replaced, if any) is dropped.
#[verifier::external_body]
fn tiles_insert(m: &mut HashMap<TileKey, Tile>, key: TileKey, tile: Tile)
    ensures
        tile_entries(*final(m)) == tile_entries(*old(m)).insert(key, tile),
{
    m.insert(key, tile);
}

/// Calls `HashSet::from([key])`: a set holding that one member.
#[verifier::external_body]
fn coords_from_member(key: TileKey) -> (s: HashSet<TileKey>)
    ensures
        coord_members(s) == Set::empty().insert(key),
{
    HashSet::from([key])
}

/// Calls `HashSet::contains`: whether `key` is a member.
#[verifier::external_body]
fn coords_contains(s: &HashSet<TileKey>, key: TileKey) -> (b: bool)
    ensures
        b == coord_members(*s).contains(key),
{
    s.contains(&key)
}

/// Calls `HashSet::insert`: afterwards `key` is a member and the others are as before. The
/// flag it returns (whether `key` was new) is dropped.
#[verifier::external_body]
fn coords_insert(s: &mut HashSet<TileKey>, key: TileKey)
    ensures
        coord_members(*final(s)) == coord_members(*old(s)).insert(key),
{
    s.insert(key);
}

/// The key under which the map stores the tile at `c`.
pub open spec fn key_of(c: HexCoord) -> TileKey {
    (c.q, c.r)
}

/// The generated tiles and the visited hexagons.
pub struct GameMap {
    tiles: HashMap<TileKey, Tile>,
    visited_tiles: HashSet<TileKey>,
}

impl GameMap {
    /// The tiles generated so far, by key.
    pub closed spec fn tiles(&self) -> Map<TileKey, Tile> {
        tile_entries(self.tiles)
    }

    /// The keys of the visited hexagons.
    pub closed spec fn visited(&self) -> Set<TileKey> {
        coord_members(self.visited_tiles)
    }

    /// The map at the start: a forest at the origin, which counts as visited.
    pub fn new() -> (m: GameMap)
        ensures
            m.tiles() == Map::empty().insert(
                (0i32, 0i32),
                fresh_tile(TileKind::Forest, HexCoord { q: 0, r: 0 }),
            ),
            m.visited() == Set::empty().insert((0i32, 0i32)),
    {
        let starting_coord = HexCoord::new(0, 0);
        assert(starting_coord.norm_fits());
        GameMap {
            tiles: tiles_from_entry((0, 0), Forest::new(starting_coord)),
            visited_tiles: coords_from_member((0, 0)),
        }
    }

    /// The tile at `coord`, if it has been generated.
    pub fn tile_at(&self, coord: HexCoord) -> (t: Option<Tile>)
        ensures
            t is Some <==> self.tiles().contains_key(key_of(coord)),
            t matches Some(tile) ==> tile == self.tiles()[key_of(coord)],
    {
        tiles_get(&self.tiles, (coord.q, coord.r))
    }

    /// Whether the player has visited `coord`.
    pub fn is_visited(&self, coord: HexCoord) -> (b: bool)
        ensures
            b == self.visited().contains(key_of(coord)),
    {
        coords_contains(&self.visited_tiles, (coord.q, coord.r))
    }

    /// Marks `coord` as visited.
    pub fn visit(&mut self, coord: HexCoord)
        ensures
            final(self).visited() == old(self).visited().insert(key_of(coord)),
            final(self).tiles() == old(self).tiles(),
    {
        coords_insert(&mut self.visited_tiles, (coord.q, coord.r));
    }

    /// Stores `tile` at `coord`, replacing what was there.
    pub fn insert(&mut self, coord: HexCoord, tile: Tile)
        ensures
            final(self).tiles() == old(self).tiles().insert(key_of(coord), tile),
            final(self).visited() == old(self).visited(),
    {
        tiles_insert(&mut self.tiles, (coord.q, coord.r), tile);
    }

    /// The tile at `coord`; when there is none yet, a fresh tile of kind `kind` is stored
    /// there first.
    pub fn get_with(&mut self, coord: HexCoord, kind: TileKind) -> (t: Tile)
        requires
            !old(self).tiles().contains_key(key_of(coord)) ==> coord.norm_fits(),
        ensures
            old(self).tiles().contains_key(key_of(coord)) ==> final(self).tiles() == old(
                self,
            ).tiles(),
            !old(self).tiles().contains_key(key_of(coord)) ==> final(self).tiles() == old(
                self,
            ).tiles().insert(key_of(coord), fresh_tile(kind, coord)),
            final(self).visited() == old(self).visited(),
            t == final(self).tiles()[key_of(coord)],
    {
        match tiles_get(&self.tiles, (coord.q, coord.r)) {
            Some(tile) => tile,
            None => {
                let tile = Tile::new(kind, coord);
                tiles_insert(&mut self.tiles, (coord.q, coord.r), tile);
                tile
            },
        }
    }

    /// The tile at `coord`; when there is none yet, one of a random kind (never the
    /// fountain) is generated and stored there first.
    pub fn get(&mut self, coord: HexCoord) -> (t: Tile)
        requires
            !old(self).tiles().contains_key(key_of(coord)) ==> coord.norm_fits(),
        ensures
            old(self).tiles().contains_key(key_of(coord)) ==> final(self).tiles() == old(
                self,
            ).tiles(),
            !old(self).tiles().contains_key(key_of(coord)) ==> generated_kind(t.kind_of())
                && final(self).tiles() == old(self).tiles().insert(
                key_of(coord),
                fresh_tile(t.kind_of(), coord),
            ),
            final(self).visited() == old(self).visited(),
            t == final(self).tiles()[key_of(coord)],
    {
        match tiles_get(&self.tiles, (coord.q, coord.r)) {
            Some(tile) => tile,
            None => {
                let tile = generate_tile(coord);
                tiles_insert(&mut self.tiles, (coord.q, coord.r), tile);
                tile
            },
        }
    }
}

} // verus!
