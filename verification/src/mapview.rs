//! The map panel of the terminal frontend: the window of the map it shows
//! around the player, the dots of the route to a modern-mode objective, and
//! the character each square is drawn with.
use vstd::prelude::*;

use crate::paths::{line_path, points_view, spec_line_path};

verus! {

pub open spec fn spec_clamp(v: int, lo: int, hi: int) -> int {
    if v < lo {
        lo
    } else if v > hi {
        hi
    } else {
        v
    }
}

pub open spec fn spec_max(a: int, b: int) -> int {
    if a >= b {
        a
    } else {
        b
    }
}

pub open spec fn spec_min(a: int, b: int) -> int {
    if a <= b {
        a
    } else {
        b
    }
}

/// The squares the map panel shows, corners included.
#[derive(Debug, Clone, Copy, PartialEq, Eq, Structural)]
pub struct MapWindow {
    pub min_x: i32,
    pub min_y: i32,
    pub max_x: i32,
    pub max_y: i32,
}

/// The span of one axis: as many squares as the view and the map both
/// allow, centred on the player where the map's edges leave room.
pub open spec fn spec_axis(view: u16, extent: i32, center: i32) -> (int, int) {
    let span = spec_min(spec_max(view as int, 1), spec_max(extent as int, 1));
    let lo = spec_clamp(center - span / 2, 0, spec_max(extent - span, 0));
    let hi = spec_clamp(lo + span - 1, 0, extent - 1);
    (lo, hi)
}

pub open spec fn spec_map_window(view_width: u16, view_height: u16, width: i32, height: i32, cx: i32, cy: i32) -> MapWindow {
    let (min_x, max_x) = spec_axis(view_width, width, cx);
    let (min_y, max_y) = spec_axis(view_height, height, cy);
    MapWindow { min_x: min_x as i32, min_y: min_y as i32, max_x: max_x as i32, max_y: max_y as i32 }
}

fn clamp_i64(v: i64, lo: i64, hi: i64) -> (r: i64)
    requires
        lo <= hi,
    ensures
        r == spec_clamp(v as int, lo as int, hi as int),
{
    if v < lo {
        lo
    } else if v > hi {
        hi
    } else {
        v
    }
}

fn axis(view: u16, extent: i32, center: i32) -> (r: (i32, i32))
    requires
        extent >= 1,
    ensures
        r.0 as int == spec_axis(view, extent, center).0,
        r.1 as int == spec_axis(view, extent, center).1,
{
    let v: i64 = if view >= 1 { view as i64 } else { 1 };
    let e: i64 = extent as i64;
    let span: i64 = if v <= e { v } else { e };
    let room: i64 = if e - span >= 0 { e - span } else { 0 };
    let lo = clamp_i64(center as i64 - span / 2, 0, room);
    let hi = clamp_i64(lo + span - 1, 0, e - 1);
    (lo as i32, hi as i32)
}

/// The map panel's window for a view of `view_width` by `view_height`
/// cells on a `width` by `height` map with the player at `(cx, cy)`.
pub fn map_window(view_width: u16, view_height: u16, width: i32, height: i32, cx: i32, cy: i32) -> (r: MapWindow)
    requires
        width >= 1,
        height >= 1,
    ensures
        r == spec_map_window(view_width, view_height, width, height, cx, cy),
{
    let (min_x, max_x) = axis(view_width, width, cx);
    let (min_y, max_y) = axis(view_height, height, cy);
    MapWindow { min_x, min_y, max_x, max_y }
}

/// A square of the line to the objective carries a route dot when it is
/// the third or a later square, at a position divisible by three, and is
/// neither the player's square nor the objective's.
pub open spec fn spec_route_dot(line: Seq<(int, int)>, i: int, from: (int, int), to: (int, int)) -> bool {
    i >= 2 && i % 3 == 0 && line[i] != from && line[i] != to
}

/// The route dots among the first `n` squares of `line`, in order.
pub open spec fn spec_route_prefix(line: Seq<(int, int)>, n: int, from: (int, int), to: (int, int)) -> Seq<(int, int)>
    decreases n,
{
    if n <= 0 {
        Seq::empty()
    } else if spec_route_dot(line, n - 1, from, to) {
        spec_route_prefix(line, n - 1, from, to).push(line[n - 1])
    } else {
        spec_route_prefix(line, n - 1, from, to)
    }
}

pub open spec fn spec_objective_route(from: (i32, i32), to: (i32, i32)) -> Seq<(int, int)> {
    let line = spec_line_path(from, to);
    spec_route_prefix(line, line.len() as int, (from.0 as int, from.1 as int), (to.0 as int, to.1 as int))
}

/// The squares of the dotted route from the player at `from` to the
/// objective at `to`.
pub fn objective_route(from: (i32, i32), to: (i32, i32)) -> (r: Vec<(i32, i32)>)
    ensures
        points_view(r@) == spec_objective_route(from, to),
{
    let line = line_path(from, to);
    let ghost lv = points_view(line@);
    let ghost f = (from.0 as int, from.1 as int);
    let ghost t = (to.0 as int, to.1 as int);
    let mut out: Vec<(i32, i32)> = Vec::new();
    let mut i: usize = 0;
    while i < line.len()
        invariant
            i <= line.len(),
            lv == points_view(line@),
            f == (from.0 as int, from.1 as int),
            t == (to.0 as int, to.1 as int),
            points_view(out@) == spec_route_prefix(lv, i as int, f, t),
        decreases line.len() - i,
    {
        let p = line[i];
        if i >= 2 && i % 3 == 0 && !(p.0 == from.0 && p.1 == from.1) && !(p.0 == to.0 && p.1 == to.1) {
            out.push(p);
            assert(points_view(out@) =~= spec_route_prefix(lv, i as int, f, t).push(lv[i as int]));
        }
        i = i + 1;
    }
    out
}

/// What lies on a square of the map panel: the targeting cursor, a
/// projectile's impact or trail, the player, a monster, an item, the
/// objective or its route, and the map's own glyph.
#[derive(Debug, Clone, Copy)]
pub struct MapSquare {
    pub cursor: bool,
    pub impact: bool,
    pub trail: bool,
    pub player: bool,
    pub monster: bool,
    pub item: bool,
    pub objective: bool,
    pub route: bool,
    pub glyph: char,
}

/// The first marker that applies wins; the objective and its route are
/// drawn only over plain floor.
pub open spec fn spec_square_char(s: MapSquare) -> char {
    if s.cursor {
        'X'
    } else if s.impact {
        '!'
    } else if s.trail {
        ':'
    } else if s.player {
        '@'
    } else if s.monster {
        'm'
    } else if s.item {
        '*'
    } else if s.objective && s.glyph == '.' {
        'o'
    } else if s.route && s.glyph == '.' {
        ':'
    } else {
        s.glyph
    }
}

pub fn square_char(s: MapSquare) -> (r: char)
    ensures
        r == spec_square_char(s),
{
    if s.cursor {
        'X'
    } else if s.impact {
        '!'
    } else if s.trail {
        ':'
    } else if s.player {
        '@'
    } else if s.monster {
        'm'
    } else if s.item {
        '*'
    } else if s.objective && s.glyph == '.' {
        'o'
    } else if s.route && s.glyph == '.' {
        ':'
    } else {
        s.glyph
    }
}

} // verus!
