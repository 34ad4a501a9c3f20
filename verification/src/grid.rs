//! Searches over the tile grids of a map that the parity probes make: where
//! a cell of some kind lies, which way one tile lies from another, which
//! closed door can be bumped open, what the map window around the player
//! shows, and where the merc guild marker is placed.
use vstd::prelude::*;

use crate::replay::ReplayDirection;

verus! {

broadcast use crate::views::group_view_lemmas;

// ---------------------------------------------------------------------------
// Cells of a row-major grid
// ---------------------------------------------------------------------------

/// Index of the first cell that matches, or the number of cells.
pub open spec fn spec_first_match(m: Seq<bool>) -> nat
    decreases m.len(),
{
    if m.len() == 0 {
        0
    } else if m[0] {
        0
    } else {
        1 + spec_first_match(m.drop_first())
    }
}

proof fn lemma_first_match(m: Seq<bool>)
    ensures
        spec_first_match(m) <= m.len(),
        spec_first_match(m) < m.len() ==> m[spec_first_match(m) as int],
        forall|i: int| 0 <= i < spec_first_match(m) ==> !m[i],
    decreases m.len(),
{
    if m.len() > 0 && !m[0] {
        lemma_first_match(m.drop_first());
        assert forall|i: int| 0 <= i < spec_first_match(m) implies !m[i] by {
            if i > 0 {
                assert(m.drop_first()[i - 1] == m[i]);
            }
        }
    }
}

/// The position of the first matching cell of a grid `width` cells wide,
/// as `(index % width, index / width)`; none when no cell matches, when
/// the width is negative or when the row does not fit in an `i32`.
pub open spec fn spec_cell_position(m: Seq<bool>, width: i32) -> Option<(i32, i32)> {
    let i = spec_first_match(m);
    if width < 0 || i >= m.len() || i / (width as nat) > i32::MAX {
        None
    } else {
        Some(((i % (width as nat)) as i32, (i / (width as nat)) as i32))
    }
}

/// A grid of width 0 cannot place a matching cell.
pub open spec fn spec_placeable(m: Seq<bool>, width: i32) -> bool {
    width == 0 ==> forall|i: int| 0 <= i < m.len() ==> !m[i]
}

fn first_match(m: &Vec<bool>) -> (r: usize)
    ensures
        r == spec_first_match(m@),
{
    proof {
        lemma_first_match(m@);
    }
    let mut i: usize = 0;
    while i < m.len()
        invariant
            i <= m.len(),
            forall|k: int| 0 <= k < i ==> !m@[k],
            spec_first_match(m@) <= m.len(),
            spec_first_match(m@) < m.len() ==> m@[spec_first_match(m@) as int],
            forall|k: int| 0 <= k < spec_first_match(m@) ==> !m@[k],
        decreases m.len() - i,
    {
        if m[i] {
            return i;
        }
        i = i + 1;
    }
    i
}

/// The position of the first matching cell.
pub fn find_cell_position(m: &Vec<bool>, width: i32) -> (r: Option<(i32, i32)>)
    requires
        spec_placeable(m@, width),
    ensures
        r == spec_cell_position(m@, width),
{
    proof {
        lemma_first_match(m@);
    }
    if width < 0 {
        return None;
    }
    let i = first_match(m);
    if i >= m.len() {
        return None;
    }
    let w = width as usize;
    let x = i % w;
    let y = i / w;
    if y > i32::MAX as usize {
        return None;
    }
    assert(x < w);
    Some((x as i32, y as i32))
}

/// The first service, in the given order, that has a cell on the grid,
/// with the position of its first cell; none when no service has one, or
/// when that position does not fit (the search then stops).
pub open spec fn spec_service_tile(aux: Seq<i32>, width: i32, services: Seq<i32>) -> Option<(i32, (i32, i32))>
    decreases services.len(),
{
    if services.len() == 0 || width < 0 {
        None
    } else {
        let m = Seq::new(aux.len(), |i: int| aux[i] == services[0]);
        if spec_first_match(m) < m.len() {
            match spec_cell_position(m, width) {
                Some(p) => Some((services[0], p)),
                None => None,
            }
        } else {
            spec_service_tile(aux, width, services.drop_first())
        }
    }
}

fn matches_of(aux: &Vec<i32>, want: i32) -> (r: Vec<bool>)
    ensures
        r@ == Seq::new(aux@.len(), |i: int| aux@[i] == want),
{
    let mut out: Vec<bool> = Vec::new();
    let mut i: usize = 0;
    while i < aux.len()
        invariant
            i <= aux.len(),
            out@ == Seq::new(i as nat, |k: int| aux@[k] == want),
        decreases aux.len() - i,
    {
        out.push(aux[i] == want);
        assert(out@ =~= Seq::new((i + 1) as nat, |k: int| aux@[k] == want));
        i = i + 1;
    }
    out
}

/// The first service of the list that has a cell on the grid of `aux`
/// values, and where.
pub fn service_tile(aux: &Vec<i32>, width: i32, services: &Vec<i32>) -> (r: Option<(i32, (i32, i32))>)
    requires
        width == 0 ==> forall|i: int, j: int| 0 <= i < aux.len() && 0 <= j < services.len() ==> aux@[i] != services@[j],
    ensures
        r == spec_service_tile(aux@, width, services@),
{
    if width < 0 {
        return None;
    }
    assert(services@.skip(0) =~= services@);
    let mut j: usize = 0;
    while j < services.len()
        invariant
            j <= services.len(),
            width >= 0,
            width == 0 ==> forall|i: int, k: int| 0 <= i < aux.len() && 0 <= k < services.len() ==> aux@[i] != services@[k],
            spec_service_tile(aux@, width, services@) == spec_service_tile(aux@, width, services@.skip(j as int)),
        decreases services.len() - j,
    {
        let ghost rest = services@.skip(j as int);
        assert(rest[0] == services@[j as int]);
        assert(rest.drop_first() =~= services@.skip(j + 1));
        let m = matches_of(aux, services[j]);
        assert(m@ =~= Seq::new(aux@.len(), |i: int| aux@[i] == rest[0]));
        proof {
            lemma_first_match(m@);
        }
        let i = first_match(&m);
        if i < m.len() {
            let p = find_cell_position(&m, width);
            return match p {
                Some(pos) => Some((services[j], pos)),
                None => None,
            };
        }
        j = j + 1;
    }
    None
}

/// Which cardinal direction leads from one tile to the next, if they are
/// neighbours.
pub open spec fn spec_direction_between(from: (i32, i32), to: (i32, i32)) -> Option<ReplayDirection> {
    let dx = to.0 - from.0;
    let dy = to.1 - from.1;
    if dx == 1 && dy == 0 {
        Some(ReplayDirection::East)
    } else if dx == -1 && dy == 0 {
        Some(ReplayDirection::West)
    } else if dx == 0 && dy == 1 {
        Some(ReplayDirection::South)
    } else if dx == 0 && dy == -1 {
        Some(ReplayDirection::North)
    } else {
        None
    }
}

pub fn direction_between(from: (i32, i32), to: (i32, i32)) -> (r: Option<ReplayDirection>)
    requires
        i32::MIN <= to.0 - from.0 <= i32::MAX,
        i32::MIN <= to.1 - from.1 <= i32::MAX,
    ensures
        r == spec_direction_between(from, to),
{
    let dx = to.0 - from.0;
    let dy = to.1 - from.1;
    if dx == 1 && dy == 0 {
        Some(ReplayDirection::East)
    } else if dx == -1 && dy == 0 {
        Some(ReplayDirection::West)
    } else if dx == 0 && dy == 1 {
        Some(ReplayDirection::South)
    } else if dx == 0 && dy == -1 {
        Some(ReplayDirection::North)
    } else {
        None
    }
}


// ---------------------------------------------------------------------------
// A closed door that can be bumped open
// ---------------------------------------------------------------------------

/// A closed door glyph.
pub open spec fn spec_is_door(c: char) -> bool {
    c == '-' || c == 'D' || c == 'J'
}

/// A grid of `height` rows of `width` cells.
pub open spec fn spec_is_grid<T>(g: Seq<Seq<T>>, width: int, height: int) -> bool {
    &&& g.len() == height
    &&& forall|y: int| 0 <= y < height ==> (#[trigger] g[y]).len() == width
}

pub open spec fn spec_walkable_at(walk: Seq<Seq<bool>>, w: int, h: int, x: int, y: int) -> bool {
    0 <= x < w && 0 <= y < h && walk[y][x]
}

/// The first walkable neighbour of a tile: east, west, south, then north.
pub open spec fn spec_bump_from(walk: Seq<Seq<bool>>, w: int, h: int, x: int, y: int) -> Option<(int, int)> {
    if spec_walkable_at(walk, w, h, x + 1, y) {
        Some((x + 1, y))
    } else if spec_walkable_at(walk, w, h, x - 1, y) {
        Some((x - 1, y))
    } else if spec_walkable_at(walk, w, h, x, y + 1) {
        Some((x, y + 1))
    } else if spec_walkable_at(walk, w, h, x, y - 1) {
        Some((x, y - 1))
    } else {
        None
    }
}

/// The first closed door, row by row from `(x, y)` on, that has a walkable
/// neighbour, with that neighbour.
pub open spec fn spec_door_scan(glyphs: Seq<Seq<char>>, walk: Seq<Seq<bool>>, w: int, h: int, y: int, x: int) -> Option<((int, int), (int, int))>
    decreases h - y, w - x,
{
    if y < 0 || x < 0 || y >= h {
        None
    } else if x >= w {
        spec_door_scan(glyphs, walk, w, h, y + 1, 0)
    } else {
        match spec_bump_from(walk, w, h, x, y) {
            Some(from) => if spec_is_door(glyphs[y][x]) {
                Some((from, (x, y)))
            } else {
                spec_door_scan(glyphs, walk, w, h, y, x + 1)
            },
            None => spec_door_scan(glyphs, walk, w, h, y, x + 1),
        }
    }
}

pub open spec fn pair_view(r: Option<((i32, i32), (i32, i32))>) -> Option<((int, int), (int, int))> {
    match r {
        Some((a, b)) => Some(((a.0 as int, a.1 as int), (b.0 as int, b.1 as int))),
        None => None,
    }
}

fn bump_from(walk: &Vec<Vec<bool>>, w: usize, h: usize, x: usize, y: usize) -> (r: Option<(usize, usize)>)
    requires
        spec_is_grid(walk.deep_view(), w as int, h as int),
        x < w,
        y < h,
    ensures
        match r {
            Some((a, b)) => spec_bump_from(walk.deep_view(), w as int, h as int, x as int, y as int) == Some((a as int, b as int)),
            None => spec_bump_from(walk.deep_view(), w as int, h as int, x as int, y as int) is None,
        },
{
    let ghost g = walk.deep_view();
    assert(g[y as int] == walk@[y as int]@);
    if x + 1 < w && walk[y][x + 1] {
        return Some((x + 1, y));
    }
    if x >= 1 && walk[y][x - 1] {
        return Some((x - 1, y));
    }
    if y + 1 < h {
        assert(g[y + 1] == walk@[y + 1]@);
        if walk[y + 1][x] {
            return Some((x, y + 1));
        }
    }
    if y >= 1 {
        assert(g[y - 1] == walk@[y - 1]@);
        if walk[y - 1][x] {
            return Some((x, y - 1));
        }
    }
    None
}

/// The first closed door of the map that a walkable neighbour can bump
/// open, with that neighbour; the glyph and walkable grids cover the map.
pub fn closed_door_bump_positions(glyphs: &Vec<Vec<char>>, walkable: &Vec<Vec<bool>>, width: i32, height: i32) -> (r: Option<((i32, i32), (i32, i32))>)
    requires
        width >= 0,
        height >= 0,
        spec_is_grid(glyphs.deep_view(), width as int, height as int),
        spec_is_grid(walkable.deep_view(), width as int, height as int),
    ensures
        pair_view(r) == spec_door_scan(glyphs.deep_view(), walkable.deep_view(), width as int, height as int, 0, 0),
{
    let w = width as usize;
    let h = height as usize;
    let ghost gv = glyphs.deep_view();
    let ghost wv = walkable.deep_view();
    let mut y: usize = 0;
    while y < h
        invariant
            y <= h,
            w == width,
            h == height,
            gv == glyphs.deep_view(),
            wv == walkable.deep_view(),
            spec_is_grid(gv, w as int, h as int),
            spec_is_grid(wv, w as int, h as int),
            spec_door_scan(gv, wv, w as int, h as int, 0, 0) == spec_door_scan(gv, wv, w as int, h as int, y as int, 0),
        decreases h - y,
    {
        assert(gv[y as int] == glyphs@[y as int]@);
        let mut x: usize = 0;
        while x < w
            invariant
                x <= w,
                y < h,
                w == width,
                h == height,
                gv == glyphs.deep_view(),
                wv == walkable.deep_view(),
                spec_is_grid(gv, w as int, h as int),
                spec_is_grid(wv, w as int, h as int),
                gv[y as int] == glyphs@[y as int]@,
                spec_door_scan(gv, wv, w as int, h as int, 0, 0) == spec_door_scan(gv, wv, w as int, h as int, y as int, x as int),
            decreases w - x,
        {
            let b = bump_from(walkable, w, h, x, y);
            match b {
                Some((cx, cy)) => {
                    if glyphs[y][x] == '-' || glyphs[y][x] == 'D' || glyphs[y][x] == 'J' {
                        return Some(((cx as i32, cy as i32), (x as i32, y as i32)));
                    }
                },
                None => {},
            }
            x = x + 1;
        }
        y = y + 1;
    }
    None
}

// ---------------------------------------------------------------------------
// The map window around the player
// ---------------------------------------------------------------------------

pub open spec fn spec_max(a: int, b: int) -> int {
    if a >= b {
        a
    } else {
        b
    }
}

pub open spec fn spec_min(a: int, b: int) -> int {
    if a <= b {
        a
    } else {
        b
    }
}

/// What the window shows at a tile: the player, a monster, a ground item,
/// or the map's glyph.
pub open spec fn spec_window_char(player: (i32, i32), monsters: Seq<(i32, i32)>, items: Seq<(i32, i32)>, glyphs: Seq<Seq<char>>, x: int, y: int) -> char {
    if player.0 == x && player.1 == y {
        '@'
    } else if exists|k: int| 0 <= k < monsters.len() && monsters[k].0 == x && monsters[k].1 == y {
        'm'
    } else if exists|k: int| 0 <= k < items.len() && items[k].0 == x && items[k].1 == y {
        '*'
    } else {
        glyphs[y][x]
    }
}

/// The rows of the map window of `win_w` by `win_h` tiles around the
/// player, cut to the map's bounds.
pub open spec fn spec_map_window(
    player: (i32, i32),
    width: int,
    height: int,
    monsters: Seq<(i32, i32)>,
    items: Seq<(i32, i32)>,
    glyphs: Seq<Seq<char>>,
    win_w: int,
    win_h: int,
) -> Seq<Seq<char>> {
    let min_x = spec_max(player.0 - win_w / 2, 0);
    let max_x = spec_min(player.0 + win_w / 2, width - 1);
    let min_y = spec_max(player.1 - win_h / 2, 0);
    let max_y = spec_min(player.1 + win_h / 2, height - 1);
    let rows = if max_y >= min_y { max_y - min_y + 1 } else { 0 };
    let cols = if max_x >= min_x { max_x - min_x + 1 } else { 0 };
    Seq::new(rows as nat, |r: int| Seq::new(cols as nat, |c: int| spec_window_char(player, monsters, items, glyphs, min_x + c, min_y + r)))
}

pub open spec fn texts_view(v: Seq<String>) -> Seq<Seq<char>> {
    Seq::new(v.len(), |i: int| v[i]@)
}

fn has_position(ps: &Vec<(i32, i32)>, x: i32, y: i32) -> (r: bool)
    ensures
        r == exists|k: int| 0 <= k < ps.len() && ps@[k].0 == x && ps@[k].1 == y,
{
    let mut i: usize = 0;
    while i < ps.len()
        invariant
            i <= ps.len(),
            forall|k: int| 0 <= k < i ==> !(ps@[k].0 == x && ps@[k].1 == y),
        decreases ps.len() - i,
    {
        if ps[i].0 == x && ps[i].1 == y {
            return true;
        }
        i = i + 1;
    }
    false
}

/// The map window around the player: `@` for the player, `m` for a
/// monster, `*` for a ground item, else the map's glyph.
pub fn visible_map_window(
    player: (i32, i32),
    width: i32,
    height: i32,
    monsters: &Vec<(i32, i32)>,
    items: &Vec<(i32, i32)>,
    glyphs: &Vec<Vec<char>>,
    win_w: i32,
    win_h: i32,
) -> (r: Vec<String>)
    requires
        width >= 0,
        height >= 0,
        win_w >= 0,
        win_h >= 0,
        spec_is_grid(glyphs.deep_view(), width as int, height as int),
        i32::MIN <= player.0 - win_w / 2,
        player.0 + win_w / 2 <= i32::MAX,
        i32::MIN <= player.1 - win_h / 2,
        player.1 + win_h / 2 <= i32::MAX,
    ensures
        texts_view(r@) == spec_map_window(player, width as int, height as int, monsters@, items@, glyphs.deep_view(), win_w as int, win_h as int),
{
    let ghost gv = glyphs.deep_view();
    let half_w = win_w / 2;
    let half_h = win_h / 2;
    let min_x = if player.0 - half_w >= 0 { player.0 - half_w } else { 0 };
    let max_x = if player.0 + half_w <= width - 1 { player.0 + half_w } else { width - 1 };
    let min_y = if player.1 - half_h >= 0 { player.1 - half_h } else { 0 };
    let max_y = if player.1 + half_h <= height - 1 { player.1 + half_h } else { height - 1 };
    let ghost target = spec_map_window(player, width as int, height as int, monsters@, items@, gv, win_w as int, win_h as int);
    let ghost cols = if max_x >= min_x { max_x - min_x + 1 } else { 0 };
    let mut rows: Vec<String> = Vec::new();
    if max_y >= min_y {
        let mut y = min_y;
        while y <= max_y
            invariant
                min_y <= y <= max_y + 1,
                0 <= min_y,
                max_y <= height - 1,
                0 <= min_x,
                max_x <= width - 1,
                gv == glyphs.deep_view(),
                spec_is_grid(gv, width as int, height as int),
                target == spec_map_window(player, width as int, height as int, monsters@, items@, gv, win_w as int, win_h as int),
                min_x == spec_max(player.0 - win_w / 2, 0),
                max_x == spec_min(player.0 + win_w / 2, width - 1),
                min_y == spec_max(player.1 - win_h / 2, 0),
                max_y == spec_min(player.1 + win_h / 2, height - 1),
                cols == if max_x >= min_x { max_x - min_x + 1 } else { 0 },
                texts_view(rows@) == target.take(y - min_y),
            decreases max_y - y + 1,
        {
            let ghost want = Seq::new(cols as nat, |c: int| spec_window_char(player, monsters@, items@, gv, min_x + c, y as int));
            let mut row: Vec<char> = Vec::new();
            if max_x >= min_x {
                assert(gv[y as int] == glyphs@[y as int]@);
                let mut x = min_x;
                while x <= max_x
                    invariant
                        min_x <= x <= max_x + 1,
                        0 <= min_x,
                        max_x <= width - 1,
                        0 <= y < height,
                        gv == glyphs.deep_view(),
                        spec_is_grid(gv, width as int, height as int),
                        gv[y as int] == glyphs@[y as int]@,
                        cols == max_x - min_x + 1,
                        want == Seq::new(cols as nat, |c: int| spec_window_char(player, monsters@, items@, gv, min_x + c, y as int)),
                        row@ == want.take(x - min_x),
                    decreases max_x - x + 1,
                {
                    let ch = if player.0 == x && player.1 == y {
                        '@'
                    } else if has_position(monsters, x, y) {
                        'm'
                    } else if has_position(items, x, y) {
                        '*'
                    } else {
                        glyphs[y as usize][x as usize]
                    };
                    assert(ch == want[x - min_x]);
                    row.push(ch);
                    assert(row@ =~= want.take(x - min_x + 1));
                    x = x + 1;
                }
            }
            assert(row@ =~= want);
            let ghost before = texts_view(rows@);
            let s = crate::text::string_of(&row);
            rows.push(s);
            assert(target[y - min_y] =~= want);
            assert(texts_view(rows@) =~= before.push(want));
            assert(target.take(y - min_y + 1) =~= target.take(y - min_y).push(target[y - min_y]));
            y = y + 1;
        }
        assert(target.take(max_y - min_y + 1) =~= target);
    } else {
        assert(target =~= Seq::<Seq<char>>::empty());
    }
    rows
}


// ---------------------------------------------------------------------------
// The glyphs of the map window
// ---------------------------------------------------------------------------

/// The glyphs of the rows, each as a one-character key, row by row.
pub open spec fn spec_glyph_keys(rows: Seq<Seq<char>>) -> Seq<Seq<char>>
    decreases rows.len(),
{
    if rows.len() == 0 {
        Seq::empty()
    } else {
        spec_glyph_keys(rows.drop_last()) + Seq::new(rows.last().len(), |i: int| seq![rows.last()[i]])
    }
}

/// Each glyph of the window with the number of cells that show it, in
/// ascending order.
pub fn glyph_counts(rows: &Vec<String>) -> (r: Vec<(Vec<char>, usize)>)
    ensures
        crate::tally::is_tally_of(crate::tally::tally_view(r@), spec_glyph_keys(texts_view(rows@))),
{
    let ghost rv = texts_view(rows@);
    let mut keys: Vec<Vec<char>> = Vec::new();
    let mut i: usize = 0;
    while i < rows.len()
        invariant
            i <= rows.len(),
            rv == texts_view(rows@),
            keys.deep_view() == spec_glyph_keys(rv.take(i as int)),
        decreases rows.len() - i,
    {
        assert(rv.take(i + 1).drop_last() =~= rv.take(i as int));
        let row = crate::text::chars_of(rows[i].as_str());
        let ghost head = keys.deep_view();
        let ghost add = Seq::new(row@.len(), |k: int| seq![row@[k]]);
        let mut j: usize = 0;
        while j < row.len()
            invariant
                j <= row.len(),
                add == Seq::new(row@.len(), |k: int| seq![row@[k]]),
                keys.deep_view() == head + add.take(j as int),
            decreases row.len() - j,
        {
            let ghost before = keys.deep_view();
            let k = vec![row[j]];
            assert(k@ =~= seq![row@[j as int]]);
            keys.push(k);
            assert(keys.deep_view() =~= before.push(seq![row@[j as int]]));
            assert(add.take(j + 1) =~= add.take(j as int).push(add[j as int]));
            j = j + 1;
        }
        assert(add.take(row.len() as int) =~= add);
        assert(rv.take(i + 1).last() == row@);
        i = i + 1;
    }
    assert(rv.take(rows.len() as int) =~= rv);
    crate::tally::tally(&keys)
}

/// A glyph of the window that shows the map itself, not the player, a
/// monster, a ground item or nothing.
pub open spec fn spec_non_void(c: char) -> bool {
    c != '.' && c != '@' && c != 'm' && c != '*'
}

pub open spec fn spec_row_non_void(r: Seq<char>) -> nat
    decreases r.len(),
{
    if r.len() == 0 {
        0
    } else {
        spec_row_non_void(r.drop_last()) + if spec_non_void(r.last()) {
            1nat
        } else {
            0nat
        }
    }
}

pub open spec fn spec_non_void_cells(rows: Seq<Seq<char>>) -> nat
    decreases rows.len(),
{
    if rows.len() == 0 {
        0
    } else {
        spec_non_void_cells(rows.drop_last()) + spec_row_non_void(rows.last())
    }
}

pub open spec fn spec_cell_count(rows: Seq<Seq<char>>) -> nat
    decreases rows.len(),
{
    if rows.len() == 0 {
        0
    } else {
        spec_cell_count(rows.drop_last()) + rows.last().len()
    }
}

proof fn lemma_row_non_void_le(r: Seq<char>)
    ensures
        spec_row_non_void(r) <= r.len(),
    decreases r.len(),
{
    if r.len() > 0 {
        lemma_row_non_void_le(r.drop_last());
    }
}

proof fn lemma_non_void_le(rows: Seq<Seq<char>>)
    ensures
        spec_non_void_cells(rows) <= spec_cell_count(rows),
    decreases rows.len(),
{
    if rows.len() > 0 {
        lemma_non_void_le(rows.drop_last());
        lemma_row_non_void_le(rows.last());
    }
}

proof fn lemma_cell_count_mono(rows: Seq<Seq<char>>, i: int)
    requires
        0 <= i <= rows.len(),
    ensures
        spec_cell_count(rows.take(i)) <= spec_cell_count(rows),
    decreases rows.len() - i,
{
    if i < rows.len() {
        lemma_cell_count_mono(rows, i + 1);
        assert(rows.take(i + 1).drop_last() =~= rows.take(i));
    } else {
        assert(rows.take(i) =~= rows);
    }
}

/// Number of window cells that show the map itself.
pub fn non_void_cells(rows: &Vec<String>) -> (r: usize)
    requires
        spec_cell_count(texts_view(rows@)) <= usize::MAX,
    ensures
        r == spec_non_void_cells(texts_view(rows@)),
{
    let ghost rv = texts_view(rows@);
    let mut n: usize = 0;
    let mut i: usize = 0;
    while i < rows.len()
        invariant
            i <= rows.len(),
            rv == texts_view(rows@),
            spec_cell_count(rv) <= usize::MAX,
            n == spec_non_void_cells(rv.take(i as int)),
        decreases rows.len() - i,
    {
        assert(rv.take(i + 1).drop_last() =~= rv.take(i as int));
        proof {
            lemma_cell_count_mono(rv, i + 1);
            lemma_non_void_le(rv.take(i + 1));
        }
        let row = crate::text::chars_of(rows[i].as_str());
        assert(rv.take(i + 1).last() == row@);
        let ghost base = n;
        let mut j: usize = 0;
        while j < row.len()
            invariant
                j <= row.len(),
                n == base + spec_row_non_void(row@.take(j as int)),
                base + spec_row_non_void(row@) <= usize::MAX,
            decreases row.len() - j,
        {
            assert(row@.take(j + 1).drop_last() =~= row@.take(j as int));
            proof {
                lemma_row_non_void_le(row@.take(j + 1));
                let t = row@.take(j + 1);
                assert(spec_row_non_void(row@.take(j as int)) + (if spec_non_void(row@[j as int]) { 1nat } else { 0nat }) == spec_row_non_void(t));
            }
            assert(spec_row_non_void(row@.take(j + 1)) <= spec_row_non_void(row@)) by {
                lemma_row_prefix_le(row@, j + 1);
            }
            let c = row[j];
            if c != '.' && c != '@' && c != 'm' && c != '*' {
                n = n + 1;
            }
            j = j + 1;
        }
        assert(row@.take(row.len() as int) =~= row@);
        i = i + 1;
    }
    assert(rv.take(rows.len() as int) =~= rv);
    n
}

proof fn lemma_row_prefix_le(r: Seq<char>, i: int)
    requires
        0 <= i <= r.len(),
    ensures
        spec_row_non_void(r.take(i)) <= spec_row_non_void(r),
    decreases r.len() - i,
{
    if i < r.len() {
        lemma_row_prefix_le(r, i + 1);
        assert(r.take(i + 1).drop_last() =~= r.take(i));
    } else {
        assert(r.take(i) =~= r);
    }
}

// ---------------------------------------------------------------------------
// The merc guild marker
// ---------------------------------------------------------------------------

/// What placing the merc guild marker on a site grid does: when the grid
/// does not cover the map it is reset to that many default cells, and
/// when no cell then holds the marker, the middle cell gets it.
#[derive(Debug, Clone, Copy, PartialEq, Eq)]
pub struct MarkerPlan {
    pub reset_len: Option<usize>,
    pub mark_index: Option<usize>,
}

pub open spec fn spec_marker_plan(aux: Seq<i32>, width: i32, height: i32, marker: i32, default_aux: i32) -> MarkerPlan {
    let n = spec_clamp_nat(width) * spec_clamp_nat(height);
    let reset = aux.len() != n && n > 0;
    let len = if reset { n } else { aux.len() };
    let marked = if reset { default_aux == marker } else { aux.contains(marker) };
    MarkerPlan {
        reset_len: if reset { Some(n as usize) } else { None },
        mark_index: if !marked && len > 0 { Some((len / 2) as usize) } else { None },
    }
}

pub open spec fn spec_clamp_nat(x: i32) -> nat {
    if x < 0 {
        0
    } else {
        x as nat
    }
}

pub fn merc_marker_plan(aux: &Vec<i32>, width: i32, height: i32, marker: i32, default_aux: i32) -> (r: MarkerPlan)
    requires
        spec_clamp_nat(width) * spec_clamp_nat(height) <= i32::MAX,
    ensures
        r == spec_marker_plan(aux@, width, height, marker, default_aux),
{
    let w: i32 = if width < 0 { 0 } else { width };
    let h: i32 = if height < 0 { 0 } else { height };
    let n = (w * h) as usize;
    let reset = aux.len() != n && n > 0;
    let len = if reset { n } else { aux.len() };
    let marked = if reset {
        default_aux == marker
    } else {
        let mut found = false;
        let mut i: usize = 0;
        while i < aux.len()
            invariant
                i <= aux.len(),
                found == exists|k: int| 0 <= k < i && aux@[k] == marker,
            decreases aux.len() - i,
        {
            if aux[i] == marker {
                found = true;
            }
            i = i + 1;
        }
        found
    };
    MarkerPlan {
        reset_len: if reset { Some(n) } else { None },
        mark_index: if !marked && len > 0 { Some(len / 2) } else { None },
    }
}

} // verus!
