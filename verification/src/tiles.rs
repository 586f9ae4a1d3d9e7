//! The kinds of terrain and the state each tile keeps.
use vstd::prelude::*;

use crate::checks::{AncientInscriptions, Climbing, FallingRock, FindFood, Mirage, WildThreat};
use crate::coords::HexCoord;
use crate::dice::choose_copied;

verus! {

/// The terrain of a tile.
#[derive(Clone, Copy, Debug, PartialEq, Eq, Hash, Structural)]
pub enum TileKind {
    Forest,
    Desert,
    Fountain,
    Chasm,
    Plain,
    Mountain,
}

/// A forest: a wild beast on entering, food to find on entering and resting.
#[derive(Clone, Copy, Debug, PartialEq, Eq, Structural)]
pub struct Forest {
    pub wild_threat: WildThreat,
    pub find_food: FindFood,
}

/// A desert: a mirage on entering.
#[derive(Clone, Copy, Debug, PartialEq, Eq, Structural)]
pub struct Desert {
    pub mirage: Mirage,
}

/// The fountain: reaching it wins the game.
#[derive(Clone, Copy, Debug, PartialEq, Eq, Structural)]
pub struct Fountain;

/// A chasm: entering it is deadly.
#[derive(Clone, Copy, Debug, PartialEq, Eq, Structural)]
pub struct Chasm;

/// A plain: ancient inscriptions to decipher while resting.
#[derive(Clone, Copy, Debug, PartialEq, Eq, Structural)]
pub struct Plain {
    pub ancient_inscriptions: AncientInscriptions,
}

/// A mountain: a climb and a falling rock on entering.
#[derive(Clone, Copy, Debug, PartialEq, Eq, Structural)]
pub struct Mountain {
    pub climbing: Climbing,
    pub falling_rock: FallingRock,
}

/// A tile of the map with the state of its checks.
#[derive(Clone, Copy, Debug, PartialEq, Eq, Structural)]
pub enum Tile {
    Forest(Forest),
    Desert(Desert),
    Fountain(Fountain),
    Chasm(Chasm),
    Plain(Plain),
    Mountain(Mountain),
}

/// The difficulty of every check on a fresh tile at `coord`: two, plus half the distance
/// from the origin.
pub open spec fn base_difficulty(coord: HexCoord) -> int {
    2 + coord.len() / 2
}

/// The kinds that the map generates at random (every kind but the fountain).
pub open spec fn generated_kind(k: TileKind) -> bool {
    k != TileKind::Fountain
}

/// The table that new tiles draw their kind from, in this order.
pub open spec fn generated_kinds() -> Seq<TileKind> {
    seq![TileKind::Forest, TileKind::Desert, TileKind::Chasm, TileKind::Plain, TileKind::Mountain]
}

/// The name of a kind of terrain, which also names its image.
pub open spec fn kind_name(k: TileKind) -> Seq<char> {
    match k {
        TileKind::Forest => "forest"@,
        TileKind::Desert => "desert"@,
        TileKind::Fountain => "fountain"@,
        TileKind::Chasm => "chasm"@,
        TileKind::Plain => "plain"@,
        TileKind::Mountain => "mountain"@,
    }
}

/// Stamina that entering a tile of this kind costs.
pub open spec fn kind_terrain_difficulty(k: TileKind) -> u32 {
    match k {
        TileKind::Desert => 2,
        TileKind::Mountain => 2,
        _ => 1,
    }
}

/// Stamina that resting on a tile of this kind gives back, before regeneration.
pub open spec fn kind_base_resting(k: TileKind) -> i32 {
    match k {
        TileKind::Desert => -2i32,
        TileKind::Plain => 2,
        TileKind::Mountain => 3,
        _ => 1,
    }
}

/// A fresh tile of kind `k` at `coord`.
pub open spec fn fresh_tile(k: TileKind, coord: HexCoord) -> Tile {
    let d = base_difficulty(coord) as i32;
    match k {
        TileKind::Forest => Tile::Forest(
            Forest { wild_threat: WildThreat { difficulty: d }, find_food: FindFood { difficulty: d } },
        ),
        TileKind::Desert => Tile::Desert(Desert { mirage: Mirage { difficulty: d } }),
        TileKind::Fountain => Tile::Fountain(Fountain),
        TileKind::Chasm => Tile::Chasm(Chasm),
        TileKind::Plain => Tile::Plain(
            Plain { ancient_inscriptions: AncientInscriptions { difficulty: d, deciphered: None } },
        ),
        TileKind::Mountain => Tile::Mountain(
            Mountain {
                climbing: Climbing { difficulty: d },
                falling_rock: FallingRock { difficulty: d },
            },
        ),
    }
}

fn check_difficulty(coord: HexCoord) -> (d: i32)
    requires
        coord.norm_fits(),
    ensures
        d == base_difficulty(coord),
{
    2 + coord.check_modifier()
}

impl TileKind {
    /// The name of this kind of terrain, which also names its image.
    pub fn name(self) -> (n: String)
        ensures
            n@ == kind_name(self),
    {
        match self {
            TileKind::Forest => Forest::name(),
            TileKind::Desert => Desert::name(),
            TileKind::Fountain => Fountain::name(),
            TileKind::Chasm => Chasm::name(),
            TileKind::Plain => Plain::name(),
            TileKind::Mountain => Mountain::name(),
        }
    }
}

impl Forest {
    pub fn name() -> (n: String)
        ensures
            n@ == kind_name(TileKind::Forest),
    {
        String::from_str("forest")
    }

    /// A fresh forest at `coord`.
    pub fn new(coord: HexCoord) -> (t: Tile)
        requires
            coord.norm_fits(),
        ensures
            t == fresh_tile(TileKind::Forest, coord),
    {
        let d = check_difficulty(coord);
        Tile::Forest(Forest { wild_threat: WildThreat::new(d), find_food: FindFood::new(d) })
    }
}

impl Desert {
    pub fn name() -> (n: String)
        ensures
            n@ == kind_name(TileKind::Desert),
    {
        String::from_str("desert")
    }

    /// A fresh desert at `coord`.
    pub fn new(coord: HexCoord) -> (t: Tile)
        requires
            coord.norm_fits(),
        ensures
            t == fresh_tile(TileKind::Desert, coord),
    {
        Tile::Desert(Desert { mirage: Mirage::new(check_difficulty(coord)) })
    }
}

impl Fountain {
    pub fn name() -> (n: String)
        ensures
            n@ == kind_name(TileKind::Fountain),
    {
        String::from_str("fountain")
    }

    /// The fountain at `coord`.
    pub fn new(coord: HexCoord) -> (t: Tile)
        ensures
            t == fresh_tile(TileKind::Fountain, coord),
    {
        Tile::Fountain(Fountain)
    }
}

impl Chasm {
    pub fn name() -> (n: String)
        ensures
            n@ == kind_name(TileKind::Chasm),
    {
        String::from_str("chasm")
    }

    /// A chasm at `coord`.
    pub fn new(coord: HexCoord) -> (t: Tile)
        ensures
            t == fresh_tile(TileKind::Chasm, coord),
    {
        Tile::Chasm(Chasm)
    }
}

impl Plain {
    pub fn name() -> (n: String)
        ensures
            n@ == kind_name(TileKind::Plain),
    {
        String::from_str("plain")
    }

    /// A fresh plain at `coord`.
    pub fn new(coord: HexCoord) -> (t: Tile)
        requires
            coord.norm_fits(),
        ensures
            t == fresh_tile(TileKind::Plain, coord),
    {
        Tile::Plain(Plain { ancient_inscriptions: AncientInscriptions::new(check_difficulty(coord)) })
    }
}

impl Mountain {
    pub fn name() -> (n: String)
        ensures
            n@ == kind_name(TileKind::Mountain),
    {
        String::from_str("mountain")
    }

    /// A fresh mountain at `coord`.
    pub fn new(coord: HexCoord) -> (t: Tile)
        requires
            coord.norm_fits(),
        ensures
            t == fresh_tile(TileKind::Mountain, coord),
    {
        let d = check_difficulty(coord);
        Tile::Mountain(Mountain { climbing: Climbing::new(d), falling_rock: FallingRock::new(d) })
    }
}

impl Tile {
    /// The kind of terrain of the tile.
    pub open spec fn kind_of(self) -> TileKind {
        match self {
            Tile::Forest(_) => TileKind::Forest,
            Tile::Desert(_) => TileKind::Desert,
            Tile::Fountain(_) => TileKind::Fountain,
            Tile::Chasm(_) => TileKind::Chasm,
            Tile::Plain(_) => TileKind::Plain,
            Tile::Mountain(_) => TileKind::Mountain,
        }
    }

    /// A fresh tile of kind `kind` at `coord`.
    pub fn new(kind: TileKind, coord: HexCoord) -> (t: Tile)
        requires
            coord.norm_fits(),
        ensures
            t == fresh_tile(kind, coord),
    {
        match kind {
            TileKind::Forest => Forest::new(coord),
            TileKind::Desert => Desert::new(coord),
            TileKind::Fountain => Fountain::new(coord),
            TileKind::Chasm => Chasm::new(coord),
            TileKind::Plain => Plain::new(coord),
            TileKind::Mountain => Mountain::new(coord),
        }
    }

    pub fn kind(&self) -> (k: TileKind)
        ensures
            k == self.kind_of(),
    {
        match self {
            Tile::Forest(_) => TileKind::Forest,
            Tile::Desert(_) => TileKind::Desert,
            Tile::Fountain(_) => TileKind::Fountain,
            Tile::Chasm(_) => TileKind::Chasm,
            Tile::Plain(_) => TileKind::Plain,
            Tile::Mountain(_) => TileKind::Mountain,
        }
    }

    pub fn tile_name(&self) -> (n: String)
        ensures
            n@ == kind_name(self.kind_of()),
    {
        match self {
            Tile::Forest(_) => Forest::name(),
            Tile::Desert(_) => Desert::name(),
            Tile::Fountain(_) => Fountain::name(),
            Tile::Chasm(_) => Chasm::name(),
            Tile::Plain(_) => Plain::name(),
            Tile::Mountain(_) => Mountain::name(),
        }
    }

    /// Stamina that entering the tile costs.
    pub fn terrain_difficulty(&self) -> (d: u32)
        ensures
            d == kind_terrain_difficulty(self.kind_of()),
    {
        match self {
            Tile::Desert(_) => 2,
            Tile::Mountain(_) => 2,
            _ => 1,
        }
    }

    /// Stamina that resting on the tile gives back, before regeneration.
    pub fn base_resting(&self) -> (r: i32)
        ensures
            r == kind_base_resting(self.kind_of()),
    {
        match self {
            Tile::Desert(_) => -2,
            Tile::Plain(_) => 2,
            Tile::Mountain(_) => 3,
            _ => 1,
        }
    }
}

/// The kind at `i` in the table that new tiles are drawn from.
pub fn kind_at(i: usize) -> (k: TileKind)
    requires
        i < 5,
    ensures
        k == generated_kinds()[i as int],
{
    match i {
        0 => TileKind::Forest,
        1 => TileKind::Desert,
        2 => TileKind::Chasm,
        3 => TileKind::Plain,
        _ => TileKind::Mountain,
    }
}

/// Picks a kind for a new tile at random: a position of the table drawn with rand's
/// `choose`, then the kind at that position.
pub fn random_kind() -> (k: TileKind)
    ensures
        exists|i: int| 0 <= i < 5 && k == #[trigger] generated_kinds()[i],
        generated_kind(k),
{
    let positions: [usize; 5] = [0, 1, 2, 3, 4];
    let picked = choose_copied(positions.as_slice());
    let i = picked.unwrap();
    assert(positions@.contains(i));
    let ghost j = choose|j: int| 0 <= j < 5 && positions@[j] == i;
    assert(positions@[j] == positions[j]);
    let k = kind_at(i);
    assert(k == generated_kinds()[i as int]);
    k
}

/// A new tile at `coord` of a random kind (never the fountain).
pub fn generate_tile(coord: HexCoord) -> (t: Tile)
    requires
        coord.norm_fits(),
    ensures
        generated_kind(t.kind_of()),
        t == fresh_tile(t.kind_of(), coord),
{
    Tile::new(random_kind(), coord)
}

} // verus!
