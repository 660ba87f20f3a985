//! The grid: its settings, snapping a point to it, and whether it is worth
//! drawing at the current scale.

use vstd::prelude::*;
use vstd::arithmetic::div_mod::lemma_fundamental_div_mod;
use vstd::arithmetic::div_mod::lemma_mod_multiples_basic;
use vstd::arithmetic::div_mod::lemma_div_pos_is_pos;
use vstd::arithmetic::mul::lemma_mul_is_commutative;
use crate::geometry::Pos2;
use crate::geometry::Rect;

verus! {

/// The grid of the canvas. One instance serves both drawing and snapping.
#[derive(Clone, Copy, Debug, PartialEq, Eq, Hash, Structural)]
pub struct GridSettings {
    pub enabled: bool,
    pub spacing_pixels: i32,
    pub dot_size: i32,
    pub snap_enabled: bool,
    pub show_grid: bool,
}

impl GridSettings {
    /// A grid of 20 units with dots of 2, neither shown nor snapped to.
    pub open spec fn spec_default() -> GridSettings {
        GridSettings {
            enabled: false,
            spacing_pixels: 20,
            dot_size: 2,
            snap_enabled: false,
            show_grid: false,
        }
    }
}

impl Default for GridSettings {
    fn default() -> (g: GridSettings)
        ensures
            g == GridSettings::spec_default(),
    {
        GridSettings {
            enabled: false,
            spacing_pixels: 20,
            dot_size: 2,
            snap_enabled: false,
            show_grid: false,
        }
    }
}

/// Whether grid dots are drawn, and if so how far apart on screen.
#[derive(Clone, Copy, Debug, PartialEq, Eq, Structural)]
pub enum GridStatus {
    /// The dots would be too close together to tell apart.
    TooFine,
    /// Too few dots would fall into view.
    TooCoarse,
    /// The dots are drawn this many screen units apart.
    Visible(i32),
}

/// On-screen spacings below this are not drawn when the canvas can be zoomed.
pub const MIN_ZOOMED_SPACING: i32 = 8;

/// On-screen spacings above this are not drawn when the canvas can be zoomed.
pub const MAX_ZOOMED_SPACING: i32 = 100;

/// Spacings below this are not drawn on a canvas without zoom.
pub const MIN_FIXED_SPACING: i32 = 5;

/// The whole number nearest to `v / s`; a tie goes away from zero.
pub open spec fn round_div(v: int, s: int) -> int
    recommends
        s > 0,
{
    if v >= 0 {
        (2 * v + s) / (2 * s)
    } else {
        -((2 * (-v) + s) / (2 * s))
    }
}

/// `v / s` with the fraction dropped.
pub open spec fn trunc_div(v: int, s: int) -> int
    recommends
        s > 0,
{
    if v >= 0 {
        v / s
    } else {
        -((-v) / s)
    }
}

/// The multiple of `s` nearest to `v`. Where that multiple lies beyond the
/// coordinate range, the nearest multiple towards zero takes its place.
pub open spec fn snap_axis(v: int, s: int) -> int
    recommends
        s > 0,
{
    let near = round_div(v, s) * s;
    if i32::MIN <= near <= i32::MAX {
        near
    } else {
        trunc_div(v, s) * s
    }
}

/// Where `pos` lands on a grid of the given spacing. A spacing of zero or
/// less leaves the point where it is.
pub open spec fn snapped(pos: Pos2, grid_spacing: i32) -> Pos2 {
    if grid_spacing <= 0 {
        pos
    } else {
        Pos2 {
            x: snap_axis(pos.x as int, grid_spacing as int) as i32,
            y: snap_axis(pos.y as int, grid_spacing as int) as i32,
        }
    }
}

/// A snapped coordinate stays within the coordinate range.
pub proof fn lemma_snap_axis_in_range(v: int, s: int)
    requires
        i32::MIN <= v <= i32::MAX,
        s > 0,
    ensures
        i32::MIN <= snap_axis(v, s) <= i32::MAX,
{
    let near = round_div(v, s) * s;
    if !(i32::MIN <= near <= i32::MAX) {
        if v >= 0 {
            lemma_fundamental_div_mod(v, s);
            lemma_div_pos_is_pos(v, s);
            lemma_mul_is_commutative(s, v / s);
            assert(0 <= (v / s) * s) by (nonlinear_arith)
                requires
                    0 <= v / s,
                    s > 0,
            ;
        } else {
            lemma_fundamental_div_mod(-v, s);
            lemma_div_pos_is_pos(-v, s);
            lemma_mul_is_commutative(s, (-v) / s);
            assert(0 <= ((-v) / s) * s) by (nonlinear_arith)
                requires
                    0 <= (-v) / s,
                    s > 0,
            ;
            assert((-((-v) / s)) * s == -(((-v) / s) * s)) by (nonlinear_arith);
        }
    }
}

/// A snapped coordinate is an exact whole multiple of the spacing.
pub proof fn lemma_snap_axis_is_multiple(v: int, s: int)
    requires
        s > 0,
    ensures
        snap_axis(v, s) % s == 0,
        snap_axis(v, s) == (snap_axis(v, s) / s) * s,
{
    let near = round_div(v, s) * s;
    if i32::MIN <= near <= i32::MAX {
        lemma_mod_multiples_basic(round_div(v, s), s);
    } else {
        lemma_mod_multiples_basic(trunc_div(v, s), s);
    }
    lemma_fundamental_div_mod(snap_axis(v, s), s);
    lemma_mul_is_commutative(s, snap_axis(v, s) / s);
}

/// Unless the range cuts it short, a snapped coordinate lies at most half a
/// spacing from where it started.
pub proof fn lemma_snap_axis_is_nearest(v: int, s: int)
    requires
        s > 0,
        i32::MIN <= round_div(v, s) * s <= i32::MAX,
    ensures
        -s <= 2 * (v - snap_axis(v, s)) <= s,
{
    if v >= 0 {
        let q = (2 * v + s) / (2 * s);
        lemma_fundamental_div_mod(2 * v + s, 2 * s);
        assert((2 * s) * q == 2 * (q * s)) by (nonlinear_arith);
    } else {
        let q = (2 * (-v) + s) / (2 * s);
        lemma_fundamental_div_mod(2 * (-v) + s, 2 * s);
        assert((2 * s) * q == 2 * (q * s)) by (nonlinear_arith);
        assert((-q) * s == -(q * s)) by (nonlinear_arith);
    }
}

/// Divides and rounds to the nearest whole number, a tie going away from
/// zero.
pub fn rounded_quotient(v: i128, s: i128) -> (q: i128)
    requires
        0 < s <= 0x1_0000_0000,
        -0x1_0000_0000_0000_0000 <= v <= 0x1_0000_0000_0000_0000,
    ensures
        q == round_div(v as int, s as int),
        -0x1_0000_0000_0000_0000 <= q <= 0x1_0000_0000_0000_0000,
{
    let magnitude: i128 = if v >= 0 { v } else { -v };
    let rounded: i128 = (2 * magnitude + s) / (2 * s);
    proof {
        lemma_fundamental_div_mod(2 * magnitude + s, 2 * s);
        lemma_div_pos_is_pos(2 * magnitude + s, 2 * s);
        assert(rounded <= magnitude) by (nonlinear_arith)
            requires
                2 * magnitude + s == (2 * s) * rounded + (2 * magnitude + s) % (2 * s),
                0 <= (2 * magnitude + s) % (2 * s),
                rounded >= 0,
                s >= 1,
                magnitude >= 0,
        ;
    }
    if v >= 0 {
        rounded
    } else {
        -rounded
    }
}

/// Snaps one coordinate.
fn snap_coordinate(v: i32, s: i32) -> (r: i32)
    requires
        s > 0,
    ensures
        r as int == snap_axis(v as int, s as int),
{
    let wide: i64 = v as i64;
    let step: i64 = s as i64;
    let magnitude: i64 = if wide >= 0 { wide } else { -wide };
    let rounded: i64 = (2 * magnitude + step) / (2 * step);
    let truncated: i64 = magnitude / step;
    proof {
        lemma_fundamental_div_mod(2 * magnitude + step, 2 * step);
        lemma_div_pos_is_pos(2 * magnitude + step, 2 * step);
        lemma_fundamental_div_mod(magnitude as int, step as int);
        lemma_div_pos_is_pos(magnitude as int, step as int);
        assert(rounded * step <= 2 * magnitude + step) by (nonlinear_arith)
            requires
                2 * magnitude + step == (2 * step) * rounded + (2 * magnitude + step) % (2 * step),
                0 <= (2 * magnitude + step) % (2 * step),
                rounded >= 0,
                step > 0,
        ;
        assert(0 <= rounded * step) by (nonlinear_arith)
            requires
                rounded >= 0,
                step > 0,
        ;
        assert(0 <= truncated * step <= magnitude) by (nonlinear_arith)
            requires
                magnitude == step * truncated + magnitude % step,
                0 <= magnitude % step,
                truncated >= 0,
                step > 0,
        ;
    }
    let near: i64 = if wide >= 0 { rounded * step } else { -(rounded * step) };
    let toward_zero: i64 = if wide >= 0 { truncated * step } else { -(truncated * step) };
    proof {
        assert((-rounded) * step == -(rounded * step)) by (nonlinear_arith);
        assert((-truncated) * step == -(truncated * step)) by (nonlinear_arith);
    }
    if -2147483648 <= near && near <= 2147483647 {
        near as i32
    } else {
        toward_zero as i32
    }
}

/// Snaps a position to the nearest grid point.
///
/// With a spacing of zero or less the position comes back unchanged.
/// Otherwise each coordinate of the result is a whole multiple of the
/// spacing: the nearest one, a tie going away from zero.
pub fn snap_to_grid(pos: Pos2, grid_spacing: i32) -> (snapped_pos: Pos2)
    ensures
        snapped_pos == snapped(pos, grid_spacing),
        grid_spacing <= 0 ==> snapped_pos == pos,
        grid_spacing > 0 ==> snapped_pos.x as int % grid_spacing as int == 0
            && snapped_pos.y as int % grid_spacing as int == 0,
{
    if grid_spacing <= 0 {
        return pos;
    }
    proof {
        lemma_snap_axis_is_multiple(pos.x as int, grid_spacing as int);
        lemma_snap_axis_is_multiple(pos.y as int, grid_spacing as int);
    }
    Pos2 { x: snap_coordinate(pos.x, grid_spacing), y: snap_coordinate(pos.y, grid_spacing) }
}

/// What `get_grid_status` answers for a zoom given in percent.
pub open spec fn zoomed_grid_status(zoom: u32, spacing: i32) -> GridStatus {
    let scaled = spacing * zoom;
    if scaled < MIN_ZOOMED_SPACING * 100 {
        GridStatus::TooFine
    } else if scaled > MAX_ZOOMED_SPACING * 100 {
        GridStatus::TooCoarse
    } else {
        GridStatus::Visible((scaled / 100) as i32)
    }
}

/// Classifies the grid on a canvas that can be zoomed.
///
/// `zoom` is in percent, so the spacing on screen is `spacing * zoom / 100`.
/// Below 8 screen units the grid is too fine, above 100 too coarse; in
/// between it is visible at that spacing, fractions of a unit dropped.
pub fn get_grid_status(zoom: u32, spacing: i32) -> (status: GridStatus)
    ensures
        status == zoomed_grid_status(zoom, spacing),
{
    proof {
        assert(-0x8000_0000 * 0x1_0000_0000 <= spacing * zoom <= 0x8000_0000 * 0xffff_ffff)
            by (nonlinear_arith)
            requires
                -0x8000_0000 <= spacing <= 0x8000_0000,
                0 <= zoom <= 0xffff_ffff,
        ;
    }
    let scaled: i64 = (spacing as i64) * (zoom as i64);
    if scaled < 800 {
        GridStatus::TooFine
    } else if scaled > 10000 {
        GridStatus::TooCoarse
    } else {
        GridStatus::Visible((scaled / 100) as i32)
    }
}

/// What `get_viewport_grid_status` answers.
pub open spec fn viewport_grid_status(spacing: i32, viewport: Rect) -> GridStatus {
    if spacing < MIN_FIXED_SPACING {
        GridStatus::TooFine
    } else if 2 * spacing > viewport.max.x - viewport.min.x || 2 * spacing > viewport.max.y
        - viewport.min.y {
        GridStatus::TooCoarse
    } else {
        GridStatus::Visible(spacing)
    }
}

/// Classifies the grid on a canvas without zoom.
///
/// A spacing below 5 is too fine; one above half the width or half the
/// height of the viewport is too coarse; any other is visible as it is.
pub fn get_viewport_grid_status(grid_settings: &GridSettings, viewport: Rect) -> (status:
    GridStatus)
    ensures
        status == viewport_grid_status(grid_settings.spacing_pixels, viewport),
{
    let spacing: i64 = grid_settings.spacing_pixels as i64;
    if grid_settings.spacing_pixels < MIN_FIXED_SPACING {
        GridStatus::TooFine
    } else if 2 * spacing > viewport.width() || 2 * spacing > viewport.height() {
        GridStatus::TooCoarse
    } else {
        GridStatus::Visible(grid_settings.spacing_pixels)
    }
}

} // verus!
