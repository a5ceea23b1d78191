use vstd::prelude::*;

verus! {

/// A signed two-dimensional integer coordinate identifying one vertical
/// chunk stack.
#[derive(Clone, Copy, PartialEq, Eq, Structural, Debug)]
pub struct Column {
    pub x: i32,
    pub z: i32,
}

/// Absolute value over unbounded integers.
pub open spec fn abs_val(v: int) -> int {
    if v < 0 {
        -v
    } else {
        v
    }
}

/// Maximum of two unbounded integers.
pub open spec fn max_val(a: int, b: int) -> int {
    if a < b {
        b
    } else {
        a
    }
}

/// Chebyshev (chessboard) distance between the columns `(ox, oz)` and
/// `(px, pz)`: the number of the ring around `(ox, oz)` that `(px, pz)`
/// lies on.
pub open spec fn cheb_dist(ox: int, oz: int, px: int, pz: int) -> int {
    max_val(abs_val(px - ox), abs_val(pz - oz))
}

} // verus!
