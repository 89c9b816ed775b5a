//! Positions, rectangles and grid snapping for entity placement.
//!
//! The editor works in fixed-point world units: a coordinate is an `i64`.
//! Placement snaps a point to the nearest grid crossing.

use vstd::prelude::*;
use vstd::arithmetic::div_mod::{
    lemma_basic_div, lemma_fundamental_div_mod, lemma_hoist_over_denominator,
    lemma_mod_division_less_than_divisor, lemma_mod_multiples_basic,
};
use vstd::arithmetic::mul::{lemma_mul_is_commutative, lemma_mul_is_distributive_add};

verus! {

/// A point of the editor's world, in fixed-point world units.
#[derive(Clone, Copy, Debug, PartialEq, Eq, Structural)]
pub struct Pos {
    pub x: i64,
    pub y: i64,
}

/// An axis-aligned rectangle, given by its center and its size.
#[derive(Clone, Copy, Debug, PartialEq, Eq, Structural)]
pub struct RectData {
    pub center: Pos,
    pub size: Pos,
}

/// Largest magnitude of a coordinate the editor accepts.
pub const MAX_COORD: i64 = 1_000_000_000;

/// Largest grid spacing the editor accepts.
pub const MAX_GRID: i64 = 1_000_000;

/// A usable grid spacing: positive and within the editor's limit.
pub open spec fn grid_ok(g: i64) -> bool {
    1 <= g <= MAX_GRID
}

/// A coordinate within the editor's world limits.
pub open spec fn coord_ok(x: i64) -> bool {
    -MAX_COORD <= x <= MAX_COORD
}

/// A position whose two coordinates are within the world limits.
pub open spec fn pos_ok(p: Pos) -> bool {
    coord_ok(p.x) && coord_ok(p.y)
}

/// The multiple of `g` nearest to `x`; on a tie, the greater one.
pub open spec fn snapped_coord(x: int, g: int) -> int {
    g * ((x + g / 2) / g)
}

/// `p` with both coordinates snapped to the grid of spacing `g`.
pub open spec fn snapped_pos(p: Pos, g: i64) -> Pos {
    Pos {
        x: snapped_coord(p.x as int, g as int) as i64,
        y: snapped_coord(p.y as int, g as int) as i64,
    }
}

/// A snapped coordinate lies on the grid: it is a multiple of the spacing.
pub proof fn lemma_snapped_coord_is_multiple(x: int, g: int)
    requires
        g >= 1,
    ensures
        snapped_coord(x, g) % g == 0,
{
    let q = (x + g / 2) / g;
    lemma_mod_multiples_basic(q, g);
    lemma_mul_is_commutative(g, q);
}

/// Snapping moves a coordinate by at most half a grid spacing
/// (downwards, strictly less than half on the odd side of a tie).
pub proof fn lemma_snapped_coord_close(x: int, g: int)
    requires
        g >= 1,
    ensures
        x + g / 2 - g < snapped_coord(x, g) <= x + g / 2,
{
    let t = x + g / 2;
    lemma_fundamental_div_mod(t, g);
    lemma_mod_division_less_than_divisor(t, g);
}

/// A coordinate already on the grid snaps to itself.
pub proof fn lemma_snapped_coord_fixed(x: int, g: int)
    requires
        g >= 1,
        x % g == 0,
    ensures
        snapped_coord(x, g) == x,
{
    let k = x / g;
    lemma_fundamental_div_mod(x, g);
    assert(x == g * k);
    lemma_hoist_over_denominator(g / 2, k, g as nat);
    lemma_mul_is_commutative(k, g);
    assert(x + g / 2 == g / 2 + k * g);
    lemma_basic_div(g / 2, g);
    assert((x + g / 2) / g == k);
    lemma_mul_is_commutative(g, k);
}

/// Snapping is idempotent: a snapped coordinate snaps to itself.
pub proof fn lemma_snapped_coord_idempotent(x: int, g: int)
    requires
        g >= 1,
    ensures
        snapped_coord(snapped_coord(x, g), g) == snapped_coord(x, g),
{
    lemma_snapped_coord_is_multiple(x, g);
    lemma_snapped_coord_fixed(snapped_coord(x, g), g);
}

/// Snap one coordinate to the nearest multiple of `g`.
pub fn snap_coord(x: i64, g: i64) -> (r: i64)
    requires
        grid_ok(g),
        coord_ok(x),
    ensures
        r as int == snapped_coord(x as int, g as int),
{
    proof {
        lemma_fundamental_div_mod(MAX_COORD as int, g as int);
        lemma_mod_division_less_than_divisor(MAX_COORD as int, g as int);
        lemma_mul_is_commutative((MAX_COORD as int) / (g as int), g as int);
        assert(((MAX_COORD as int) / (g as int)) * (g as int)
            == MAX_COORD as int - (MAX_COORD as int) % (g as int));
    }
    let m: i64 = MAX_COORD / g;
    let k: i64 = m * g + g;
    let h: i64 = g / 2;
    let t: i64 = x + k + h;
    proof {
        lemma_fundamental_div_mod(t as int, g as int);
        lemma_mod_division_less_than_divisor(t as int, g as int);
    }
    let q: i64 = t / g;
    proof {
        lemma_mul_is_commutative(q as int, g as int);
        assert(q as int * (g as int) == t as int - (t as int) % (g as int));
        // t = (x + g/2) + (m + 1) * g, so t / g = (x + g/2) / g + (m + 1).
        lemma_hoist_over_denominator(x as int + (g as int) / 2, m as int + 1, g as nat);
        lemma_mul_is_distributive_add(
            g as int,
            (x as int + (g as int) / 2) / (g as int),
            m as int + 1,
        );
        lemma_mul_is_commutative(m as int + 1, g as int);
        lemma_mul_is_distributive_add(g as int, m as int, 1);
        lemma_mul_is_commutative(g as int, m as int);
    }
    q * g - k
}

/// Snap a position to the nearest grid crossing of spacing `grid_size`.
pub fn snap_to_grid(p: Pos, grid_size: i64) -> (r: Pos)
    requires
        grid_ok(grid_size),
        pos_ok(p),
    ensures
        r == snapped_pos(p, grid_size),
{
    Pos { x: snap_coord(p.x, grid_size), y: snap_coord(p.y, grid_size) }
}

} // verus!
