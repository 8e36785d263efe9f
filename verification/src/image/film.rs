use crate::error::KernelError;
use crate::image::color::Color;
use vstd::prelude::*;

verus! {

/// The channel the byte at offset `k % 4` of a pixel holds under the
/// cyclic RGBA layout `clear` writes.
pub open spec fn rgba_channel(c: Color, k: int) -> u8 {
    if k == 0 {
        c.r
    } else if k == 1 {
        c.g
    } else if k == 2 {
        c.b
    } else {
        c.a
    }
}

/// A `width x height` framebuffer of 4-byte pixels.
///
/// A pixel is addressed by a row `x` in `[0, height)` and a column `y`
/// in `[0, width)`; its four bytes start at offset `(x*width + y) * 4`.
#[derive(Debug)]
pub struct Film {
    pub width: usize,
    pub height: usize,
    pub frame_buffer: Vec<u8>,
}

impl Film {
    /// A well-formed film's buffer holds exactly 4 bytes per pixel.
    pub open spec fn wf(self) -> bool {
        self.frame_buffer@.len() == self.width * self.height * 4
    }

    /// Construct a film with an all-zero frame buffer.
    pub fn new(width: usize, height: usize) -> (f: Film)
        requires
            width * height * 4 <= usize::MAX,
        ensures
            f.width == width,
            f.height == height,
            f.wf(),
            forall|k: int| 0 <= k < f.frame_buffer@.len() ==> f.frame_buffer@[k] == 0,
    {
        proof {
            assert(width * height <= width * height * 4) by (nonlinear_arith)
                requires width * height >= 0;
            assert(width * height >= 0) by (nonlinear_arith)
                requires width >= 0, height >= 0;
        }
        let n = width * height * 4;
        let mut buf: Vec<u8> = Vec::with_capacity(n);
        let mut k: usize = 0;
        while k < n
            invariant
                k <= n,
                buf@.len() == k,
                forall|j: int| 0 <= j < k ==> buf@[j] == 0,
            decreases n - k,
        {
            buf.push(0);
            k = k + 1;
        }
        Film { width, height, frame_buffer: buf }
    }

    /// Clear the whole frame buffer to the given color, laid out as
    /// cyclic RGBA bytes.
    pub fn clear(&mut self, color: Color)
        requires
            old(self).wf(),
        ensures
            final (self).wf(),
            final (self).width == old(self).width,
            final (self).height == old(self).height,
            final (self).frame_buffer@.len() == old(self).frame_buffer@.len(),
            forall|k: int|
                0 <= k < final (self).frame_buffer@.len() ==> final (self).frame_buffer@[k]
                    == rgba_channel(color, k % 4),
    {
        let n = self.frame_buffer.len();
        let mut k: usize = 0;
        while k < n
            invariant
                k <= n,
                n == self.frame_buffer@.len(),
                self.width == old(self).width,
                self.height == old(self).height,
                self.frame_buffer@.len() == old(self).frame_buffer@.len(),
                forall|j: int|
                    0 <= j < k ==> self.frame_buffer@[j] == rgba_channel(color, j % 4),
            decreases n - k,
        {
            let rem = k % 4;
            let v = if rem == 0 {
                color.r
            } else if rem == 1 {
                color.g
            } else if rem == 2 {
                color.b
            } else {
                color.a
            };
            self.frame_buffer[k] = v;
            k = k + 1;
        }
    }

    /// Write a color to the pixel at row `x`, column `y`, as the four
    /// bytes `b, g, r, a`.  A row or column out of range fails with
    /// `IndexOutOfRange` and leaves the film unchanged.
    pub fn write_pixel(&mut self, x: usize, y: usize, color: Color) -> (res: Result<
        (),
        KernelError,
    >)
        requires
            old(self).wf(),
        ensures
            final (self).wf(),
            final (self).width == old(self).width,
            final (self).height == old(self).height,
            x < old(self).height && y < old(self).width ==> {
                let base = (x * old(self).width + y) * 4;
                &&& res == Ok::<(), KernelError>(())
                &&& final (self).frame_buffer@ == old(self).frame_buffer@.update(
                    base as int,
                    color.b,
                ).update(base + 1, color.g).update(base + 2, color.r).update(
                    base + 3,
                    color.a,
                )
            },
            !(x < old(self).height && y < old(self).width) ==> res == Err::<(), KernelError>(
                KernelError::IndexOutOfRange,
            ) && *final (self) == *old(self),
    {
        if x >= self.height || y >= self.width {
            return Err(KernelError::IndexOutOfRange);
        }
        let n = self.frame_buffer.len();
        proof {
            assert(x * self.width + y < self.width * self.height) by (nonlinear_arith)
                requires x < self.height, y < self.width;
            assert((x * self.width + y) * 4 + 3 < self.width * self.height * 4)
                by (nonlinear_arith)
                requires x * self.width + y < self.width * self.height;
        }
        let base = (x * self.width + y) * 4;
        self.frame_buffer[base] = color.b;
        self.frame_buffer[base + 1] = color.g;
        self.frame_buffer[base + 2] = color.r;
        self.frame_buffer[base + 3] = color.a;
        Ok(())
    }
}

} // verus!
