//! The picture of one frame: 256 x 240 pixels of three bytes each.

use vstd::prelude::*;

verus! {

/// Width of the picture in pixels.
pub const WIDTH: usize = 256;

/// Height of the picture in pixels.
pub const HIGHT: usize = 240;

/// Size of the picture in bytes.
pub const FRAME_BYTES: usize = 184320;

pub struct Frame {
    pub data: Vec<u8>,
}

impl Frame {
    /// The picture has its size.
    pub open spec fn wf(&self) -> bool {
        self.data@.len() == FRAME_BYTES
    }

    /// Index of the first byte of the pixel at column `x` of row `y`.
    pub open spec fn spec_base(x: int, y: int) -> int {
        y * 3 * WIDTH + x * 3
    }

    /// The pixel at column `x` of row `y`, as red, green and blue.
    pub open spec fn spec_pixel(&self, x: int, y: int) -> (u8, u8, u8) {
        let base = Self::spec_base(x, y);
        (self.data@[base], self.data@[base + 1], self.data@[base + 2])
    }

    /// The bytes of the picture after a pixel was set. A position whose
    /// three bytes do not all lie in the picture is left out.
    pub open spec fn spec_set_pixel(data: Seq<u8>, x: int, y: int, rgb: (u8, u8, u8)) -> Seq<u8> {
        let base = Self::spec_base(x, y);
        if base + 2 < data.len() {
            data.update(base, rgb.0).update(base + 1, rgb.1).update(base + 2, rgb.2)
        } else {
            data
        }
    }

    /// Tells whether the picture has its size.
    pub fn well_formed(&self) -> (r: bool)
        ensures
            r == self.wf(),
    {
        self.data.len() == FRAME_BYTES
    }

    /// A black picture.
    pub fn new() -> (r: Self)
        ensures
            r.wf(),
            forall|i: int| 0 <= i < FRAME_BYTES ==> r.data@[i] == 0,
    {
        Frame { data: vec![0u8; FRAME_BYTES] }
    }

    /// Sets the pixel at column `x` of row `y`.
    pub fn set_pixel(&mut self, x: usize, y: usize, rgb: (u8, u8, u8))
        requires
            y * 3 * WIDTH + x * 3 + 2 <= usize::MAX,
        ensures
            final(self).data@ == Self::spec_set_pixel(old(self).data@, x as int, y as int, rgb),
    {
        let base = y * 3 * WIDTH + x * 3;
        if base + 2 < self.data.len() {
            self.data[base] = rgb.0;
            self.data[base + 1] = rgb.1;
            self.data[base + 2] = rgb.2;
        }
    }

    /// Reads the pixel at column `x` of row `y`.
    pub fn pixel(&self, x: usize, y: usize) -> (rgb: (u8, u8, u8))
        requires
            self.wf(),
            x < WIDTH,
            y < HIGHT,
        ensures
            rgb == self.spec_pixel(x as int, y as int),
    {
        let base = y * 3 * WIDTH + x * 3;
        (self.data[base], self.data[base + 1], self.data[base + 2])
    }
}

/// Setting a pixel of the picture sets that pixel and no other.
pub proof fn lemma_set_pixel(frame: Frame, x: int, y: int, rgb: (u8, u8, u8), after: Frame)
    requires
        frame.wf(),
        0 <= x < WIDTH,
        0 <= y < HIGHT,
        after.data@ == Frame::spec_set_pixel(frame.data@, x, y, rgb),
    ensures
        after.wf(),
        after.spec_pixel(x, y) == rgb,
        forall|other_x: int, other_y: int|
            0 <= other_x < WIDTH && 0 <= other_y < HIGHT && (other_x != x || other_y != y)
                ==> #[trigger] after.spec_pixel(other_x, other_y) == frame.spec_pixel(
                other_x,
                other_y,
            ),
{
    let base = Frame::spec_base(x, y);
    assert(0 <= base && base + 2 < FRAME_BYTES);
    assert forall|other_x: int, other_y: int|
        0 <= other_x < WIDTH && 0 <= other_y < HIGHT && (other_x != x || other_y != y)
            implies #[trigger] after.spec_pixel(other_x, other_y) == frame.spec_pixel(
        other_x,
        other_y,
    ) by {
        let other = Frame::spec_base(other_x, other_y);
        assert(other + 2 < base || base + 2 < other);
    }
}

} // verus!
