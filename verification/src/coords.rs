//! Axial coordinates on the hexagonal map.
use vstd::prelude::*;

use crate::dice::{is_permutation_of, random_bool, random_u32, shuffle};

verus! {

/// A hexagon of the map in axial coordinates; the cube coordinates are `(q, -q - r, r)`.
#[derive(Clone, Copy, Debug, PartialEq, Eq, Hash, Structural)]
pub struct HexCoord {
    pub q: i32,
    pub r: i32,
}

/// `|x|` over the integers.
pub open spec fn abs_int(x: int) -> int {
    if x < 0 {
        -x
    } else {
        x
    }
}

/// The number of steps from the origin to the hexagon `(q, r)`: half the sum of the
/// absolute cube coordinates.
pub open spec fn hex_len(q: int, r: int) -> int {
    (abs_int(q) + abs_int(r) + abs_int(q + r)) / 2
}

/// The number of steps between two hexagons.
pub open spec fn hex_distance(a: HexCoord, b: HexCoord) -> int {
    hex_len(a.q - b.q, a.r - b.r)
}

/// `a` comes before `b` when sorted by `q`, then by `r`.
pub open spec fn lex_lt(a: HexCoord, b: HexCoord) -> bool {
    a.q < b.q || (a.q == b.q && a.r < b.r)
}

/// The six axial steps to the neighbours, in the order `neighbors` lists them.
pub open spec fn direction(i: int) -> (int, int) {
    if i == 0 {
        (1, 0)
    } else if i == 1 {
        (1, -1)
    } else if i == 2 {
        (0, -1)
    } else if i == 3 {
        (-1, 0)
    } else if i == 4 {
        (-1, 1)
    } else {
        (0, 1)
    }
}

/// Half the sum of absolute values equals the largest of them, since the three cube
/// coordinates sum to zero.
pub proof fn lemma_hex_len_is_max(q: int, r: int)
    ensures
        hex_len(q, r) >= abs_int(q),
        hex_len(q, r) >= abs_int(r),
        hex_len(q, r) >= abs_int(q + r),
        hex_len(q, r) == abs_int(q) || hex_len(q, r) == abs_int(r) || hex_len(q, r) == abs_int(
            q + r,
        ),
        hex_len(q, r) >= 0,
        abs_int(q) + abs_int(r) + abs_int(q + r) == 2 * hex_len(q, r),
{
}

/// Steps add up: the hexagon `a + b` is no farther from the origin than `a` and `b` together.
pub proof fn lemma_hex_len_triangle(q1: int, r1: int, q2: int, r2: int)
    ensures
        hex_len(q1 + q2, r1 + r2) <= hex_len(q1, r1) + hex_len(q2, r2),
        hex_len(-q1, -r1) == hex_len(q1, r1),
{
    lemma_hex_len_is_max(q1, r1);
    lemma_hex_len_is_max(q2, r2);
    lemma_hex_len_is_max(q1 + q2, r1 + r2);
    lemma_hex_len_is_max(-q1, -r1);
}

/// `order` names each of the positions 0, 1 and 2 once.
pub open spec fn is_order(order: Seq<usize>) -> bool {
    &&& order.len() == 3
    &&& order[0] < 3 && order[1] < 3 && order[2] < 3
    &&& order[0] != order[1] && order[0] != order[2] && order[1] != order[2]
}

/// The cube coordinates `(q, -q - r, r)` of the hexagon with `q = draw % distance + 1` and
/// `r = distance - q`, both negated when `negate` holds.
pub open spec fn ring_cube(distance: u32, draw: u32, negate: bool) -> Seq<int> {
    let q0 = (draw % distance + 1) as int;
    let r0 = distance - q0;
    let q = if negate { -q0 } else { q0 };
    let r = if negate { -r0 } else { r0 };
    seq![q, -q - r, r]
}

/// The hexagon whose cube coordinates are those of `ring_cube`, taken in `order`.
pub open spec fn ring_point_of(distance: u32, draw: u32, negate: bool, order: Seq<usize>) -> HexCoord {
    let cube = ring_cube(distance, draw, negate);
    HexCoord { q: cube[order[0] as int] as i32, r: cube[order[2] as int] as i32 }
}

fn abs_i32(x: i32) -> (r: i32)
    requires
        x > i32::MIN,
    ensures
        r == abs_int(x as int),
{
    if x < 0 {
        -x
    } else {
        x
    }
}

impl Default for HexCoord {
    fn default() -> (c: HexCoord)
        ensures
            c == (HexCoord { q: 0, r: 0 }),
    {
        HexCoord { q: 0, r: 0 }
    }
}

impl HexCoord {
    /// The sum of the absolute cube coordinates fits in an `i32`, so that `modulus` can
    /// compute it.
    pub open spec fn norm_fits(self) -> bool {
        abs_int(self.q as int) + abs_int(self.r as int) + abs_int(self.q + self.r) <= i32::MAX
    }

    /// The componentwise difference, as `-` computes it when it does not overflow.
    pub open spec fn minus(self, other: HexCoord) -> HexCoord {
        HexCoord { q: (self.q - other.q) as i32, r: (self.r - other.r) as i32 }
    }

    /// Number of steps from the origin.
    pub open spec fn len(self) -> int {
        hex_len(self.q as int, self.r as int)
    }

    pub fn new(q: i32, r: i32) -> (c: HexCoord)
        ensures
            c.q == q,
            c.r == r,
    {
        HexCoord { q, r }
    }

    /// The cube coordinates `(x, y, z)` with `x + y + z == 0`.
    pub fn to_cube(self) -> (cube: (i32, i32, i32))
        requires
            self.q > i32::MIN,
            i32::MIN <= -self.q - self.r <= i32::MAX,
        ensures
            cube == (self.q, (-self.q - self.r) as i32, self.r),
    {
        let x = self.q;
        let z = self.r;
        let y = -x - z;
        (x, y, z)
    }

    /// The hexagon with cube coordinates `(x, y, z)`, which must sum to zero.
    pub fn from_cube(x: i32, y: i32, z: i32) -> (c: HexCoord)
        requires
            x + y + z == 0,
            i32::MIN <= x + y <= i32::MAX,
        ensures
            c.q == x,
            c.r == z,
    {
        HexCoord { q: x, r: z }
    }

    /// The six adjacent hexagons.
    pub fn neighbors(self) -> (ns: [HexCoord; 6])
        requires
            i32::MIN < self.q < i32::MAX,
            i32::MIN < self.r < i32::MAX,
        ensures
            forall|i: int|
                0 <= i < 6 ==> ns[i].q == self.q + direction(i).0 && ns[i].r == self.r + direction(
                    i,
                ).1,
            forall|i: int| 0 <= i < 6 ==> hex_distance(#[trigger] ns[i], self) == 1,
    {
        let ns = [
            HexCoord::new(self.q + 1, self.r),
            HexCoord::new(self.q + 1, self.r - 1),
            HexCoord::new(self.q, self.r - 1),
            HexCoord::new(self.q - 1, self.r),
            HexCoord::new(self.q - 1, self.r + 1),
            HexCoord::new(self.q, self.r + 1),
        ];
        assert(forall|i: int|
            0 <= i < 6 ==> ns[i].q == self.q + direction(i).0 && ns[i].r == self.r + direction(
                i,
            ).1);
        ns
    }

    /// Every hexagon at most `distance` steps away, sorted by `q` and then by `r`.
    /// A distance beyond `i32::MAX` turns negative when taken as an `i32`, and then no
    /// hexagon is listed.
    pub fn within_distance(self, distance: u32) -> (tiles: Vec<HexCoord>)
        requires
            distance <= i32::MAX ==> 2 * distance <= i32::MAX,
            distance <= i32::MAX ==> i32::MIN <= self.q - distance,
            distance <= i32::MAX ==> self.q + distance <= i32::MAX,
            distance <= i32::MAX ==> i32::MIN <= self.r - distance,
            distance <= i32::MAX ==> self.r + distance <= i32::MAX,
            distance != 0x8000_0000,
        ensures
            distance > i32::MAX ==> tiles.len() == 0,
            forall|i: int| 0 <= i < tiles.len() ==> hex_distance(#[trigger] tiles[i], self) <= distance,
            forall|c: HexCoord|
                distance <= i32::MAX && hex_distance(c, self) <= distance ==> #[trigger] tiles@.contains(c),
            forall|i: int, j: int| 0 <= i < j < tiles.len() ==> lex_lt(tiles[i], tiles[j]),
    {
        if distance > 0x7fff_ffff {
            return Vec::new();
        }
        let sd: i32 = distance as i32;
        let mut tiles: Vec<HexCoord> = Vec::new();
        let mut dq: i32 = -sd;
        while dq <= sd
            invariant
                -sd <= dq <= sd + 1,
                sd == distance,
                2 * distance <= i32::MAX,
                i32::MIN <= self.q - distance,
                self.q + distance <= i32::MAX,
                i32::MIN <= self.r - distance,
                self.r + distance <= i32::MAX,
                forall|i: int| 0 <= i < tiles.len() ==> hex_distance(#[trigger] tiles[i], self) <= distance,
                forall|i: int| 0 <= i < tiles.len() ==> #[trigger] tiles[i].q < self.q + dq,
                forall|c: HexCoord|
                    hex_distance(c, self) <= distance && c.q < self.q + dq ==> #[trigger] tiles@.contains(c),
                forall|i: int, j: int| 0 <= i < j < tiles.len() ==> lex_lt(tiles[i], tiles[j]),
            decreases sd + 1 - dq,
        {
            let lo: i32 = if -sd > -dq - sd { -sd } else { -dq - sd };
            let hi: i32 = if sd < -dq + sd { sd } else { -dq + sd };
            let mut dr: i32 = lo;
            while dr <= hi
                invariant
                    -sd <= dq <= sd,
                    lo <= dr <= hi + 1,
                    lo as int == (if -sd > -dq - sd { -sd as int } else { -dq - sd }),
                    hi as int == (if sd < -dq + sd { sd as int } else { -dq + sd }),
                    sd == distance,
                    2 * distance <= i32::MAX,
                    i32::MIN <= self.q - distance,
                    self.q + distance <= i32::MAX,
                    i32::MIN <= self.r - distance,
                    self.r + distance <= i32::MAX,
                    forall|i: int| 0 <= i < tiles.len() ==> hex_distance(#[trigger] tiles[i], self) <= distance,
                    forall|i: int|
                        0 <= i < tiles.len() ==> (#[trigger] tiles[i].q < self.q + dq || (tiles[i].q
                            == self.q + dq && tiles[i].r < self.r + dr)),
                    forall|c: HexCoord|
                        hex_distance(c, self) <= distance && (c.q < self.q + dq || (c.q == self.q + dq
                            && c.r < self.r + dr)) ==> #[trigger] tiles@.contains(c),
                    forall|i: int, j: int| 0 <= i < j < tiles.len() ==> lex_lt(tiles[i], tiles[j]),
                decreases hi + 1 - dr,
            {
                let c = HexCoord::new(self.q + dq, self.r + dr);
                proof {
                    lemma_hex_len_is_max(dq as int, dr as int);
                }
                let ghost before = tiles@;
                tiles.push(c);
                proof {
                    assert forall|x: HexCoord|
                        hex_distance(x, self) <= distance && (x.q < self.q + dq || (x.q == self.q + dq
                            && x.r < self.r + dr + 1)) implies #[trigger] tiles@.contains(x) by {
                        if x == c {
                            assert(tiles@[tiles.len() - 1] == x);
                        } else {
                            assert(before.contains(x));
                            let k = choose|k: int| 0 <= k < before.len() && before[k] == x;
                            assert(tiles@[k] == x);
                        }
                    }
                }
                dr = dr + 1;
            }
            proof {
                assert forall|x: HexCoord|
                    hex_distance(x, self) <= distance && x.q < self.q + dq + 1 implies #[trigger] tiles@.contains(
                    x,
                ) by {
                    lemma_hex_len_is_max(x.q - self.q, x.r - self.r);
                }
            }
            dq = dq + 1;
        }
        tiles
    }

    /// Number of steps from the origin.
    pub fn modulus(self) -> (m: u32)
        requires
            self.norm_fits(),
        ensures
            m == self.len(),
    {
        let (x, y, z) = self.to_cube();
        ((abs_i32(x) + abs_i32(y) + abs_i32(z)) / 2) as u32
    }

    /// Number of steps between `self` and `other`.
    pub fn distance(self, other: HexCoord) -> (d: u32)
        requires
            i32::MIN <= self.q - other.q <= i32::MAX,
            i32::MIN <= self.r - other.r <= i32::MAX,
            self.minus(other).norm_fits(),
        ensures
            d == hex_distance(self, other),
    {
        (self - other).modulus()
    }

    /// The difficulty that checks gain on this hexagon: half its distance from the origin.
    pub fn check_modifier(self) -> (m: i32)
        requires
            self.norm_fits(),
        ensures
            m == self.len() / 2,
    {
        (self.modulus() / 2) as i32
    }

    /// The hexagon on the ring of radius `distance` that `draw`, `negate` and `order` pick:
    /// `q` is `draw % distance + 1` and `r` is `distance - q`, both negated when `negate`
    /// holds, and the cube coordinates `(q, -q - r, r)` are then taken in `order`.
    pub fn ring_point(distance: u32, draw: u32, negate: bool, order: [usize; 3]) -> (c: HexCoord)
        requires
            0 < distance <= i32::MAX,
            is_order(order@),
        ensures
            c == ring_point_of(distance, draw, negate, order@),
            c.len() == distance,
            2 * distance <= i32::MAX ==> c.norm_fits(),
    {
        let mut q: i32 = (draw % distance + 1) as i32;
        let mut r: i32 = distance as i32 - q;
        if negate {
            q = -q;
            r = -r;
        }
        let (x, y, z) = HexCoord::new(q, r).to_cube();
        let coords: Vec<i32> = vec![x, y, z];
        let c = HexCoord::from_cube(coords[order[0]], coords[order[1]], coords[order[2]]);
        proof {
            lemma_hex_len_is_max(c.q as int, c.r as int);
        }
        c
    }

    /// A hexagon exactly `distance` steps from the origin, picked at random: a drawn number,
    /// a drawn sign and a shuffled order of the cube coordinates, handed to `ring_point`.
    pub fn random_in_distance(distance: u32) -> (c: HexCoord)
        requires
            0 < distance <= i32::MAX,
        ensures
            c.len() == distance,
            2 * distance <= i32::MAX ==> c.norm_fits(),
            exists|draw: u32, negate: bool, order: Seq<usize>|
                is_order(order) && c == #[trigger] ring_point_of(distance, draw, negate, order),
    {
        let draw = random_u32();
        let negate = random_bool();
        let mut shuffled: Vec<usize> = vec![0usize, 1, 2];
        let ghost before = shuffled@;
        shuffle(&mut shuffled);
        proof {
            let p = choose|p: Seq<int>| is_permutation_of(shuffled@, before, p);
            assert(shuffled@[0] == before[p[0]]);
            assert(shuffled@[1] == before[p[1]]);
            assert(shuffled@[2] == before[p[2]]);
        }
        let order: [usize; 3] = [shuffled[0], shuffled[1], shuffled[2]];
        assert(order@ =~= shuffled@);
        let c = HexCoord::ring_point(distance, draw, negate, order);
        assert(is_order(order@) && c == ring_point_of(distance, draw, negate, order@));
        c
    }
}

/// Componentwise difference of two hexagons.
impl core::ops::Sub for HexCoord {
    type Output = HexCoord;

    fn sub(self, rhs: HexCoord) -> (d: HexCoord) {
        HexCoord { q: self.q - rhs.q, r: self.r - rhs.r }
    }
}

impl vstd::std_specs::ops::SubSpecImpl for HexCoord {
    open spec fn obeys_sub_spec() -> bool {
        true
    }

    open spec fn sub_req(self, rhs: HexCoord) -> bool {
        &&& i32::MIN <= self.q - rhs.q <= i32::MAX
        &&& i32::MIN <= self.r - rhs.r <= i32::MAX
    }

    open spec fn sub_spec(self, rhs: HexCoord) -> HexCoord {
        self.minus(rhs)
    }
}

} // verus!
