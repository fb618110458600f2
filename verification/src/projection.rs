//! The screen-to-clip-space orthographic projection uploaded each frame.
//!
//! The matrix maps screen pixel space (origin top left, y down) to clip
//! space (origin center, y up): x is scaled by 2/width, y by -2/height, and
//! the origin is translated to (-1, 1). Entries are exact fractions; the
//! caller turns them into the floating-point words the uniform buffer holds.

use vstd::prelude::*;
use crate::fixed::Frac;
use crate::fixed::frac_wf;

verus! {

/// A 4x4 projection matrix, sixteen exact fractions in column-major order.
#[derive(Debug, PartialEq, Eq)]
pub struct ProjectionMatrix {
    pub entries: Vec<Frac>,
}

/// The sixteen entries for a `width` by `height` pixel screen: 2/width and
/// -2/height on the diagonal, -1 depth scale, translation (-1, 1, 0), unit w.
pub open spec fn projection_entries_spec(width: u32, height: u32) -> Seq<Frac> {
    seq![
        Frac { num: 2, den: width },
        Frac { num: 0, den: 1 },
        Frac { num: 0, den: 1 },
        Frac { num: 0, den: 1 },
        Frac { num: 0, den: 1 },
        Frac { num: -2i32, den: height },
        Frac { num: 0, den: 1 },
        Frac { num: 0, den: 1 },
        Frac { num: 0, den: 1 },
        Frac { num: 0, den: 1 },
        Frac { num: -1i32, den: 1 },
        Frac { num: 0, den: 1 },
        Frac { num: -1i32, den: 1 },
        Frac { num: 1, den: 1 },
        Frac { num: 0, den: 1 },
        Frac { num: 1, den: 1 },
    ]
}

/// The clip-space x of pixel x, multiplied out by `w` so that it is an
/// integer: the matrix takes pixel `px` to `(2*px - w) / w`.
pub open spec fn clip_x_times_w(w: int, px: int) -> int {
    2 * px - w
}

/// The clip-space y of pixel y, multiplied out by `h`: the matrix takes
/// pixel `py` to `(h - 2*py) / h`.
pub open spec fn clip_y_times_h(h: int, py: int) -> int {
    h - 2 * py
}

/// Builds the projection matrix for a screen of `width` by `height` pixels.
pub fn projection(width: u32, height: u32) -> (m: ProjectionMatrix)
    requires
        width >= 1,
        height >= 1,
    ensures
        m.entries@ == projection_entries_spec(width, height),
        forall|i: int| 0 <= i < 16 ==> frac_wf(#[trigger] m.entries@[i]),
{
    let mut entries: Vec<Frac> = Vec::new();
    entries.push(Frac { num: 2, den: width });
    entries.push(Frac { num: 0, den: 1 });
    entries.push(Frac { num: 0, den: 1 });
    entries.push(Frac { num: 0, den: 1 });
    entries.push(Frac { num: 0, den: 1 });
    entries.push(Frac { num: -2, den: height });
    entries.push(Frac { num: 0, den: 1 });
    entries.push(Frac { num: 0, den: 1 });
    entries.push(Frac { num: 0, den: 1 });
    entries.push(Frac { num: 0, den: 1 });
    entries.push(Frac { num: -1, den: 1 });
    entries.push(Frac { num: 0, den: 1 });
    entries.push(Frac { num: -1, den: 1 });
    entries.push(Frac { num: 1, den: 1 });
    entries.push(Frac { num: 0, den: 1 });
    entries.push(Frac { num: 1, den: 1 });
    proof {
        assert(entries@ =~= projection_entries_spec(width, height));
    }
    ProjectionMatrix { entries }
}

/// The matrix's first column scale and fourth column translation realize the
/// pixel map: entry 0 is the x scale over denominator `width`, entry 12 the x
/// translation, and applying them to pixel `px` gives `clip_x_times_w`; the
/// same holds of entries 5 and 13 for y.
pub proof fn lemma_matrix_realizes_pixel_map(width: u32, height: u32, px: int, py: int)
    requires
        width >= 1,
        height >= 1,
    ensures
        ({
            let m = projection_entries_spec(width, height);
            &&& m[0].den == width
            &&& m[5].den == height
            &&& m[0].num * px + m[12].num * (m[0].den as int) == clip_x_times_w(width as int, px)
            &&& m[5].num * py + m[13].num * (m[5].den as int) == clip_y_times_h(height as int, py)
        }),
{
    let m = projection_entries_spec(width, height);
    assert(m[0] == Frac { num: 2i32, den: width });
    assert(m[5] == Frac { num: -2i32, den: height });
    assert(m[12] == Frac { num: -1i32, den: 1u32 });
    assert(m[13] == Frac { num: 1i32, den: 1u32 });
    assert(2 * px + (-1) * (width as int) == clip_x_times_w(width as int, px));
    assert((-2) * py + 1 * (height as int) == clip_y_times_h(height as int, py));
}

/// For every screen size with positive width and height, pixel (0, 0) maps
/// to clip-space (-1, 1) and pixel (width, height) maps to (1, -1): the
/// multiplied-out coordinates equal minus or plus the denominator exactly.
pub proof fn lemma_projection_maps_corners(width: u32, height: u32)
    requires
        width >= 1,
        height >= 1,
    ensures
        clip_x_times_w(width as int, 0) == -1 * (width as int),
        clip_y_times_h(height as int, 0) == 1 * (height as int),
        clip_x_times_w(width as int, width as int) == 1 * (width as int),
        clip_y_times_h(height as int, height as int) == -1 * (height as int),
{
}

} // verus!
