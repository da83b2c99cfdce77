//! A grid of cells with one byte each, and the order in which a rendered
//! image's pixels are emitted.
use vstd::prelude::*;
use crate::ppm::{Rgb, header_text, pixel_text, ppm_header, push_pixel};

verus! {

/// A `width` by `height` grid; the cell at column `x` of row `y` is
/// `inner[y * width + x]`. A cell holding 1 is foreground.
pub struct Image {
    pub width: usize,
    pub height: usize,
    pub inner: Vec<u8>,
}

/// The squared distance from cell `(x, y)` to the centre cell of a
/// `width` by `height` grid, which is `(width / 2, height / 2)`.
pub open spec fn center_distance_sq(width: nat, height: nat, x: int, y: int) -> int {
    let dx = x - (width / 2) as int;
    let dy = y - (height / 2) as int;
    dx * dx + dy * dy
}

/// The text of a grid shown in two colours, one line per cell in order.
pub open spec fn two_tone_body(cells: Seq<u8>, fg: Rgb, bg: Rgb) -> Seq<u8>
    decreases cells.len(),
{
    if cells.len() == 0 {
        Seq::empty()
    } else {
        two_tone_body(cells.drop_last(), fg, bg) + pixel_text(
            if cells.last() == 1 { fg } else { bg },
        )
    }
}

/// The position `(x, y)` of the `i`-th pixel emitted for a `width` by `height`
/// image: rows from the top (`y == height - 1`) down, each from left to right.
pub open spec fn scan_spec(width: nat, height: nat, i: nat) -> (nat, nat) {
    ((i % width) as nat, (height - 1 - i / width) as nat)
}

/// The position of the `i`-th pixel emitted for a `width` by `height` image.
pub fn scan_position(width: usize, height: usize, i: usize) -> (r: (usize, usize))
    requires
        i < width * height,
    ensures
        (r.0 as nat, r.1 as nat) == scan_spec(width as nat, height as nat, i as nat),
        r.0 < width,
        r.1 < height,
{
    proof {
        assert(width > 0) by (nonlinear_arith)
            requires
                i < width * height,
        ;
        assert(i / width < height) by (nonlinear_arith)
            requires
                i < width * height,
                width > 0,
        ;
    }
    (i % width, height - 1 - i / width)
}

impl Image {
    pub open spec fn wf(&self) -> bool {
        self.inner@.len() == self.width * self.height
    }

    /// A grid of `width` by `height` background cells.
    pub fn new(width: usize, height: usize) -> (r: Image)
        requires
            width * height <= usize::MAX,
        ensures
            r.wf(),
            r.width == width,
            r.height == height,
            forall|k: int| 0 <= k < r.inner@.len() ==> #[trigger] r.inner@[k] == 0,
    {
        let n = width * height;
        let mut inner: Vec<u8> = Vec::new();
        let mut k: usize = 0;
        while k < n
            invariant
                k <= n,
                inner@.len() == k,
                forall|j: int| 0 <= j < k ==> #[trigger] inner@[j] == 0,
            decreases n - k,
        {
            inner.push(0u8);
            k = k + 1;
        }
        Image { width, height, inner }
    }

    /// Marks as foreground every cell whose squared distance to the centre
    /// cell is below `reach`; the other cells keep their value.
    /// (A disc of radius `r` is drawn with `reach` the least integer not
    /// below `r * r`.)
    pub fn fill_center_circle(&mut self, reach: u64)
        requires
            old(self).wf(),
        ensures
            final(self).wf(),
            final(self).width == old(self).width,
            final(self).height == old(self).height,
            forall|k: int|
                0 <= k < old(self).inner@.len() ==> #[trigger] final(self).inner@[k] == if center_distance_sq(
                    old(self).width as nat,
                    old(self).height as nat,
                    k % old(self).width as int,
                    k / old(self).width as int,
                ) < reach {
                    1u8
                } else {
                    old(self).inner@[k]
                },
    {
        let n = self.inner.len();
        let w = self.width;
        let h = self.height;
        let cx = w / 2;
        let cy = h / 2;
        let mut k: usize = 0;
        while k < n
            invariant
                k <= n,
                n == old(self).inner@.len(),
                self.inner@.len() == n,
                self.width == w,
                self.height == h,
                w == old(self).width,
                h == old(self).height,
                n == w * h,
                cx == w / 2,
                cy == h / 2,
                forall|j: int|
                    0 <= j < n ==> #[trigger] self.inner@[j] == if j < k && center_distance_sq(
                        w as nat,
                        h as nat,
                        j % w as int,
                        j / w as int,
                    ) < reach {
                        1u8
                    } else {
                        old(self).inner@[j]
                    },
            decreases n - k,
        {
            let (x, y) = (k % w, k / w);
            proof {
                assert(y < h) by (nonlinear_arith)
                    requires
                        k < w * h,
                        y == k / w,
                        w > 0,
                ;
            }
            let dx: u128 = if x >= cx { (x - cx) as u128 } else { (cx - x) as u128 };
            let dy: u128 = if y >= cy { (y - cy) as u128 } else { (cy - y) as u128 };
            proof {
                assert(dx * dx <= u128::MAX && dy * dy <= u128::MAX) by (nonlinear_arith)
                    requires
                        dx <= usize::MAX,
                        dy <= usize::MAX,
                        usize::MAX <= u64::MAX,
                ;
            }
            let inside = if dx * dx >= reach as u128 || dy * dy >= reach as u128 {
                false
            } else {
                dx * dx + dy * dy < reach as u128
            };
            proof {
                let ddx = x as int - cx as int;
                let ddy = y as int - cy as int;
                assert(dx * dx == ddx * ddx) by (nonlinear_arith)
                    requires
                        dx == ddx || dx == -ddx,
                ;
                assert(dy * dy == ddy * ddy) by (nonlinear_arith)
                    requires
                        dy == ddy || dy == -ddy,
                ;
                assert(ddx * ddx >= 0 && ddy * ddy >= 0) by (nonlinear_arith);
                assert(inside == (center_distance_sq(w as nat, h as nat, k as int % w as int, k as int / w as int) < reach));
            }
            if inside {
                self.inner.set(k, 1u8);
            }
            k = k + 1;
        }
    }

    /// The pixel-map text of the grid, foreground cells in `fg` and the others
    /// in `bg`, rows in grid order.
    pub fn two_tone_ppm(&self, fg: Rgb, bg: Rgb) -> (r: Vec<u8>)
        requires
            self.wf(),
        ensures
            r@ == header_text(self.width as nat, self.height as nat) + two_tone_body(
                self.inner@,
                fg,
                bg,
            ),
    {
        let mut out = ppm_header(self.width, self.height);
        let mut k: usize = 0;
        while k < self.inner.len()
            invariant
                k <= self.inner@.len(),
                out@ == header_text(self.width as nat, self.height as nat) + two_tone_body(
                    self.inner@.take(k as int),
                    fg,
                    bg,
                ),
            decreases self.inner@.len() - k,
        {
            let c = if self.inner[k] == 1 { fg } else { bg };
            push_pixel(&mut out, c);
            proof {
                let next = self.inner@.take(k + 1);
                assert(next.drop_last() == self.inner@.take(k as int));
                assert(next.last() == self.inner@[k as int]);
            }
            k = k + 1;
            assert(out@ =~= header_text(self.width as nat, self.height as nat) + two_tone_body(
                self.inner@.take(k as int),
                fg,
                bg,
            ));
        }
        assert(self.inner@.take(k as int) == self.inner@);
        out
    }
}

} // verus!
