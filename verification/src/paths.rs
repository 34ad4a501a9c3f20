//! The straight line between two map squares, as the map panel traces a
//! projectile's flight: Bresenham's algorithm over all octants.
use vstd::prelude::*;

verus! {

pub open spec fn spec_abs(v: int) -> int {
    if v < 0 {
        -v
    } else {
        v
    }
}

pub open spec fn spec_sign_toward(a: int, b: int) -> int {
    if a < b {
        1
    } else {
        -1
    }
}

/// The squares from `(x, y)` on, with error term `err`, stepping toward
/// `to` with the line's `dx` (non-negative) and `dy` (non-positive): the
/// doubled error decides whether x steps (when it is at least `dy`) and
/// whether y steps (when it is at most `dx`). `fuel` bounds the steps.
pub open spec fn spec_line_from(x: int, y: int, err: int, to: (int, int), dx: int, dy: int, sx: int, sy: int, fuel: nat) -> Seq<(int, int)>
    decreases fuel,
{
    if (x, y) == to || fuel == 0 {
        seq![(x, y)]
    } else {
        let e2 = err * 2;
        let (x1, err1) = if e2 >= dy {
            (x + sx, err + dy)
        } else {
            (x, err)
        };
        let (y1, err2) = if e2 <= dx {
            (y + sy, err1 + dx)
        } else {
            (y, err1)
        };
        seq![(x, y)] + spec_line_from(x1, y1, err2, to, dx, dy, sx, sy, (fuel - 1) as nat)
    }
}

/// The squares of the line from `from` to `to`, both included.
pub open spec fn spec_line_path(from: (i32, i32), to: (i32, i32)) -> Seq<(int, int)> {
    let dx = spec_abs(to.0 - from.0);
    let dy = -spec_abs(to.1 - from.1);
    spec_line_from(
        from.0 as int,
        from.1 as int,
        dx + dy,
        (to.0 as int, to.1 as int),
        dx,
        dy,
        spec_sign_toward(from.0 as int, to.0 as int),
        spec_sign_toward(from.1 as int, to.1 as int),
        (dx - dy) as nat,
    )
}

pub open spec fn points_view(v: Seq<(i32, i32)>) -> Seq<(int, int)> {
    Seq::new(v.len(), |i: int| (v[i].0 as int, v[i].1 as int))
}

/// Two squares that touch, by a side or a corner.
pub open spec fn spec_adjacent(p: (int, int), q: (int, int)) -> bool {
    p != q && spec_abs(p.0 - q.0) <= 1 && spec_abs(p.1 - q.1) <= 1
}

/// The exact error term of Bresenham's walk after `a` steps in x and `b`
/// in y keeps the doubled error between the axes' bounds; and neither
/// coordinate steps past the end.
proof fn lemma_step(dx: int, ady: int, a: int, b: int, err: int)
    requires
        0 <= a <= dx,
        0 <= b <= ady,
        !(a == dx && b == ady),
        err == dx * (b + 1) - ady * (a + 1),
    ensures
        a == dx ==> err * 2 < -ady,
        b == ady ==> err * 2 > dx,
{
    if a == dx {
        assert(dx * (b + 1) <= dx * ady) by (nonlinear_arith)
            requires
                0 <= dx,
                b + 1 <= ady,
        ;
        assert(ady * (a + 1) == ady * dx + ady) by (nonlinear_arith)
            requires
                a == dx,
        ;
    }
    if b == ady {
        assert(ady * (a + 1) <= ady * dx) by (nonlinear_arith)
            requires
                0 <= ady,
                a + 1 <= dx,
        ;
        assert(dx * (b + 1) == dx * ady + dx) by (nonlinear_arith)
            requires
                b == ady,
        ;
    }
}

proof fn lemma_err_update(dx: int, ady: int, a: int, b: int, err: int, mx: bool, my: bool)
    requires
        err == dx * (b + 1) - ady * (a + 1),
    ensures
        (err + (if mx { -ady } else { 0 }) + (if my { dx } else { 0 })) == dx * ((b + if my { 1int } else { 0 }) + 1) - ady * (
        (a + if mx { 1int } else { 0 }) + 1),
{
    assert(dx * ((b + 1) + 1) == dx * (b + 1) + dx) by (nonlinear_arith);
    assert(ady * ((a + 1) + 1) == ady * (a + 1) + ady) by (nonlinear_arith);
}

/// The squares of the straight line from `from` to `to`, both included,
/// each touching the one before.
pub fn line_path(from: (i32, i32), to: (i32, i32)) -> (path: Vec<(i32, i32)>)
    ensures
        points_view(path@) == spec_line_path(from, to),
        path.len() >= 1,
        path@[0] == from,
        path@.last() == to,
        forall|i: int| 0 <= i < path.len() - 1 ==> spec_adjacent(points_view(path@)[i], #[trigger] points_view(path@)[i + 1]),
{
    let fx = from.0 as i64;
    let fy = from.1 as i64;
    let tx = to.0 as i64;
    let ty = to.1 as i64;
    let dx: i64 = if tx >= fx { tx - fx } else { fx - tx };
    let ady: i64 = if ty >= fy { ty - fy } else { fy - ty };
    let dy: i64 = -ady;
    let sx: i64 = if fx < tx { 1 } else { -1 };
    let sy: i64 = if fy < ty { 1 } else { -1 };
    let mut err: i64 = dx + dy;
    let mut x: i64 = fx;
    let mut y: i64 = fy;
    let mut path: Vec<(i32, i32)> = Vec::new();
    let ghost mut a: int = 0;
    let ghost mut b: int = 0;
    let ghost target = spec_line_path(from, to);
    let ghost toi = (tx as int, ty as int);
    let ghost mut fuel: int = dx + ady;
    let ghost mut sfuel: nat = (dx - dy) as nat;
    assert(dx * (0 + 1) - ady * (0 + 1) == dx - ady) by (nonlinear_arith);
    loop
        invariant_except_break
            target == points_view(path@) + spec_line_from(x as int, y as int, err as int, toi, dx as int, dy as int, sx as int, sy as int, sfuel),
            path.len() == 0 ==> x == fx && y == fy,
            path.len() > 0 ==> spec_adjacent(points_view(path@).last(), (x as int, y as int)),
        invariant
            0 <= dx <= 0x1_0000_0000,
            0 <= ady <= 0x1_0000_0000,
            dy == -ady,
            sx == spec_sign_toward(fx as int, tx as int),
            sy == spec_sign_toward(fy as int, ty as int),
            dx == spec_abs(tx - fx),
            ady == spec_abs(ty - fy),
            toi == (tx as int, ty as int),
            fx == from.0,
            fy == from.1,
            tx == to.0,
            ty == to.1,
            0 <= a <= dx,
            0 <= b <= ady,
            x == fx + sx * a,
            y == fy + sy * b,
            err == dx * (b + 1) - ady * (a + 1),
            -2 * (dx + ady) <= err <= 2 * (dx + ady),
            fuel == (dx - a) + (ady - b),
            sfuel >= fuel,
            path.len() > 0 ==> path@[0] == from,
            forall|i: int| 0 <= i < path.len() - 1 ==> spec_adjacent(points_view(path@)[i], #[trigger] points_view(path@)[i + 1]),
        ensures
            target == points_view(path@),
            path.len() >= 1,
            path@[0] == from,
            path@.last() == to,
            forall|i: int| 0 <= i < path.len() - 1 ==> spec_adjacent(points_view(path@)[i], #[trigger] points_view(path@)[i + 1]),
        decreases fuel,
    {
        assert(sx * a == if sx == 1 { a } else { -a }) by (nonlinear_arith)
            requires
                sx == 1 || sx == -1,
        ;
        assert(sy * b == if sy == 1 { b } else { -b }) by (nonlinear_arith)
            requires
                sy == 1 || sy == -1,
        ;
        let ghost pv = points_view(path@);
        let ghost rest = spec_line_from(x as int, y as int, err as int, toi, dx as int, dy as int, sx as int, sy as int, sfuel);
        let ghost (ox, oy, oerr) = (x as int, y as int, err as int);
        path.push((x as i32, y as i32));
        assert(points_view(path@) =~= pv.push((x as int, y as int)));
        if x == tx && y == ty {
            assert(rest == seq![(x as int, y as int)]);
            assert(target =~= points_view(path@));
            break;
        }
        proof {
            lemma_step(dx as int, ady as int, a, b, err as int);
        }
        let e2 = err * 2;
        let mx = e2 >= dy;
        let my = e2 <= dx;
        proof {
            lemma_err_update(dx as int, ady as int, a, b, err as int, mx, my);
        }
        if mx {
            err = err + dy;
            x = x + sx;
        }
        if my {
            err = err + dx;
            y = y + sy;
        }
        proof {
            if mx {
                a = a + 1;
            }
            if my {
                b = b + 1;
            }
            fuel = (dx - a) + (ady - b);
            assert(sfuel > 0);
            assert(rest == seq![(ox, oy)] + spec_line_from(x as int, y as int, err as int, toi, dx as int, dy as int, sx as int, sy as int, (sfuel - 1) as nat));
            sfuel = (sfuel - 1) as nat;
            assert(target =~= points_view(path@) + spec_line_from(x as int, y as int, err as int, toi, dx as int, dy as int, sx as int, sy as int, sfuel));
        }
    }
    path
}

} // verus!
