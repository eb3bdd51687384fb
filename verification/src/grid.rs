//! Tile grids stored row by row, and resizing them by a row or a column.
use vstd::prelude::*;

use crate::tile::Tile;

verus! {

/// The tile at column `x` and row `y` of a grid `w` tiles wide, stored row by row.
pub open spec fn cell(s: Seq<Tile>, w: int, x: int, y: int) -> Tile {
    s[y * w + x]
}

/// A grid of `w` by `h` tiles.
pub open spec fn grid_ok(s: Seq<Tile>, w: int, h: int) -> bool {
    0 <= w && 0 <= h && s.len() == w * h
}

/// How one axis of a grid changes: unchanged, a line inserted at an index, or a line
/// removed at an index.
#[derive(Clone, Copy, PartialEq, Eq, Structural, Debug)]
pub enum Resize {
    Keep,
    Insert(usize),
    Remove(usize),
}

/// The number of lines along an axis after a resize.
pub open spec fn resized_len(n: int, r: Resize) -> int {
    match r {
        Resize::Keep => n,
        Resize::Insert(_) => n + 1,
        Resize::Remove(_) => n - 1,
    }
}

/// Where line `v` after a resize comes from, or `None` for an inserted line.
pub open spec fn source_line(v: int, r: Resize) -> Option<int> {
    match r {
        Resize::Keep => Some(v),
        Resize::Insert(at) => if v == at {
            None
        } else if v < at {
            Some(v)
        } else {
            Some(v - 1)
        },
        Resize::Remove(at) => if v < at {
            Some(v)
        } else {
            Some(v + 1)
        },
    }
}

/// A resize that can be applied to an axis of `n` lines.
pub open spec fn resize_ok(n: int, r: Resize) -> bool {
    match r {
        Resize::Keep => true,
        Resize::Insert(at) => at <= n,
        Resize::Remove(at) => at < n,
    }
}

/// The tile at column `x`, row `y` after resizing columns by `rc` and rows by `rr`: an empty
/// tile on an inserted line, and the tile it came from otherwise.
pub open spec fn resized_cell(s: Seq<Tile>, w: int, x: int, y: int, rc: Resize, rr: Resize) -> Tile {
    match (source_line(x, rc), source_line(y, rr)) {
        (Some(sx), Some(sy)) => cell(s, w, sx, sy),
        _ => Tile::Empty,
    }
}

proof fn lemma_source_in_range(v: int, n: int, r: Resize)
    requires
        0 <= v < resized_len(n, r),
        resize_ok(n, r),
    ensures
        source_line(v, r) matches Some(s) ==> 0 <= s < n,
{
}

/// The grid `s` (`w` by `h`) with its columns resized by `rc` and its rows by `rr`.
pub open spec fn resized_grid(s: Seq<Tile>, w: int, h: int, rc: Resize, rr: Resize) -> Seq<Tile> {
    let nw = resized_len(w, rc);
    let nh = resized_len(h, rr);
    Seq::new((nw * nh) as nat, |j: int| resized_cell(s, w, j % nw, j / nw, rc, rr))
}

/// The cells of `resized_grid` are the resized cells.
pub proof fn lemma_resized_grid_cells(s: Seq<Tile>, w: int, h: int, rc: Resize, rr: Resize)
    requires
        0 <= w,
        0 <= h,
        resize_ok(w, rc),
        resize_ok(h, rr),
    ensures
        grid_ok(resized_grid(s, w, h, rc, rr), resized_len(w, rc), resized_len(h, rr)),
        forall|x: int, y: int|
            0 <= x < resized_len(w, rc) && 0 <= y < resized_len(h, rr) ==> #[trigger] cell(
                resized_grid(s, w, h, rc, rr),
                resized_len(w, rc),
                x,
                y,
            ) == resized_cell(s, w, x, y, rc, rr),
{
    let nw = resized_len(w, rc);
    let nh = resized_len(h, rr);
    assert(0 <= nw * nh) by (nonlinear_arith)
        requires
            0 <= nw,
            0 <= nh,
    ;
    assert forall|x: int, y: int| 0 <= x < nw && 0 <= y < nh implies #[trigger] cell(
        resized_grid(s, w, h, rc, rr),
        nw,
        x,
        y,
    ) == resized_cell(s, w, x, y, rc, rr) by {
        lemma_index_in_grid(x, y, nw, nh);
        vstd::arithmetic::div_mod::lemma_fundamental_div_mod_converse(y * nw + x, nw, y, x);
    }
}

fn source_line_exec(v: usize, r: Resize) -> (res: Option<usize>)
    requires
        v < usize::MAX,
    ensures
        match source_line(v as int, r) {
            Some(s) => res == Some(s as usize) && s >= 0,
            None => res is None,
        },
{
    match r {
        Resize::Keep => Some(v),
        Resize::Insert(at) => if v == at {
            None
        } else if v < at {
            Some(v)
        } else {
            Some(v - 1)
        },
        Resize::Remove(at) => if v < at {
            Some(v)
        } else {
            Some(v + 1)
        },
    }
}

proof fn lemma_index_in_grid(x: int, y: int, w: int, h: int)
    requires
        0 <= x < w,
        0 <= y < h,
    ensures
        0 <= y * w + x < w * h,
        y * w + x < (y + 1) * w,
        (y + 1) * w <= h * w,
{
    assert(y * w + x < (y + 1) * w) by (nonlinear_arith)
        requires
            x < w,
    ;
    assert((y + 1) * w <= h * w) by (nonlinear_arith)
        requires
            y + 1 <= h,
            w > 0,
    ;
    assert(0 <= y * w) by (nonlinear_arith)
        requires
            0 <= y,
            0 <= w,
    ;
    assert(w * h == h * w) by (nonlinear_arith);
}

proof fn lemma_rows_before(x: int, y: int, w: int, y2: int)
    requires
        0 <= x < w,
        0 <= y < y2,
    ensures
        y * w + x < y2 * w,
{
    assert(y * w + x < (y + 1) * w) by (nonlinear_arith)
        requires
            x < w,
    ;
    assert((y + 1) * w <= y2 * w) by (nonlinear_arith)
        requires
            y + 1 <= y2,
            w > 0,
    ;
}

/// The grid `tiles` (`w` by `h`) with its columns resized by `rc` and its rows by `rr`.
pub fn resize_grid(tiles: &Vec<Tile>, w: usize, h: usize, rc: Resize, rr: Resize) -> (res: Vec<Tile>)
    requires
        grid_ok(tiles@, w as int, h as int),
        w <= 256,
        h <= 256,
        resize_ok(w as int, rc),
        resize_ok(h as int, rr),
    ensures
        res@ == resized_grid(tiles@, w as int, h as int, rc, rr),
{
    let nw: usize = match rc {
        Resize::Keep => w,
        Resize::Insert(_) => w + 1,
        Resize::Remove(_) => w - 1,
    };
    let nh: usize = match rr {
        Resize::Keep => h,
        Resize::Insert(_) => h + 1,
        Resize::Remove(_) => h - 1,
    };
    let tiles_len = tiles.len();
    let mut res: Vec<Tile> = Vec::new();
    let mut y: usize = 0;
    while y < nh
        invariant
            nw == resized_len(w as int, rc),
            nh == resized_len(h as int, rr),
            nw <= 257,
            nh <= 257,
            grid_ok(tiles@, w as int, h as int),
            tiles_len == tiles@.len(),
            resize_ok(w as int, rc),
            resize_ok(h as int, rr),
            y <= nh,
            res@.len() == y * nw,
            forall|xx: int, yy: int|
                0 <= xx < nw && 0 <= yy < y ==> #[trigger] cell(res@, nw as int, xx, yy) == resized_cell(
                    tiles@,
                    w as int,
                    xx,
                    yy,
                    rc,
                    rr,
                ),
        decreases nh - y,
    {
        let sy = source_line_exec(y, rr);
        proof {
            lemma_source_in_range(y as int, h as int, rr);
        }
        let mut x: usize = 0;
        while x < nw
            invariant
                nw == resized_len(w as int, rc),
                nh == resized_len(h as int, rr),
                nw <= 257,
                nh <= 257,
                grid_ok(tiles@, w as int, h as int),
                tiles_len == tiles@.len(),
                resize_ok(w as int, rc),
                resize_ok(h as int, rr),
                y < nh,
                x <= nw,
                match source_line(y as int, rr) {
                    Some(s) => sy == Some(s as usize) && 0 <= s < h,
                    None => sy is None,
                },
                res@.len() == y * nw + x,
                forall|xx: int, yy: int|
                    0 <= xx < nw && 0 <= yy < y ==> #[trigger] cell(res@, nw as int, xx, yy)
                        == resized_cell(tiles@, w as int, xx, yy, rc, rr),
                forall|xx: int|
                    0 <= xx < x ==> #[trigger] cell(res@, nw as int, xx, y as int) == resized_cell(
                        tiles@,
                        w as int,
                        xx,
                        y as int,
                        rc,
                        rr,
                    ),
            decreases nw - x,
        {
            let sx = source_line_exec(x, rc);
            proof {
                lemma_source_in_range(x as int, w as int, rc);
            }
            let t = match (sx, sy) {
                (Some(sx), Some(sy)) => {
                    proof {
                        lemma_index_in_grid(sx as int, sy as int, w as int, h as int);
                        assert(sy * w + sx < tiles@.len());
                        assert(tiles@.len() == tiles_len);
                    }
                    tiles[sy * w + sx]
                },
                _ => Tile::Empty,
            };
            let ghost before = res@;
            proof {
                lemma_index_in_grid(x as int, y as int, nw as int, nh as int);
            }
            res.push(t);
            proof {
                assert forall|xx: int, yy: int|
                    0 <= xx < nw && 0 <= yy < y implies #[trigger] cell(res@, nw as int, xx, yy)
                        == resized_cell(tiles@, w as int, xx, yy, rc, rr) by {
                    lemma_rows_before(xx, yy, nw as int, y as int);
                    assert(cell(res@, nw as int, xx, yy) == cell(before, nw as int, xx, yy));
                }
                assert forall|xx: int|
                    0 <= xx < x + 1 implies #[trigger] cell(res@, nw as int, xx, y as int)
                        == resized_cell(tiles@, w as int, xx, y as int, rc, rr) by {
                    if xx < x {
                        assert(cell(res@, nw as int, xx, y as int) == cell(before, nw as int, xx, y as int));
                    }
                }
            }
            x += 1;
        }
        proof {
            assert((y + 1) * nw == y * nw + nw) by (nonlinear_arith);
        }
        y += 1;
    }
    proof {
        assert(resized_len(w as int, rc) * resized_len(h as int, rr) == nh * nw) by (nonlinear_arith)
            requires
                nw == resized_len(w as int, rc),
                nh == resized_len(h as int, rr),
        ;
        lemma_resized_grid_cells(tiles@, w as int, h as int, rc, rr);
        lemma_grid_ext(res@, resized_grid(tiles@, w as int, h as int, rc, rr), nw as int, nh as int);
    }
    res
}

/// Two grids of the same size with the same tile in every cell are equal.
pub proof fn lemma_grid_ext(a: Seq<Tile>, b: Seq<Tile>, w: int, h: int)
    requires
        grid_ok(a, w, h),
        grid_ok(b, w, h),
        forall|x: int, y: int| 0 <= x < w && 0 <= y < h ==> #[trigger] cell(a, w, x, y) == cell(b, w, x, y),
    ensures
        a == b,
{
    assert forall|j: int| 0 <= j < a.len() implies a[j] == b[j] by {
        let x = j % w;
        let y = j / w;
        assert(w > 0) by (nonlinear_arith)
            requires
                0 <= j < w * h,
                0 <= w,
                0 <= h,
        ;
        vstd::arithmetic::div_mod::lemma_fundamental_div_mod(j, w);
        assert(0 <= x < w);
        assert(0 <= y < h) by (nonlinear_arith)
            requires
                y == j / w,
                0 <= j < w * h,
                w > 0,
                j == w * y + x,
                0 <= x < w,
        ;
        assert(cell(a, w, x, y) == cell(b, w, x, y));
        assert(y * w + x == j) by (nonlinear_arith)
            requires
                j == w * y + x,
        ;
    }
    assert(a =~= b);
}

} // verus!
