//! The pixel buffer that the display adapter presents.
use vstd::prelude::*;

use crate::color::Color;

verus! {

/// A `width` x `height` grid of packed RGB values, row by row, and the color that
/// the next pixel write uses.
pub struct Canvas {
    buffer: Vec<u32>,
    x_size: usize,
    y_size: usize,
    current_draw_color: Color,
}

#[derive(Clone, Copy, PartialEq, Eq, Structural, Debug)]
pub enum CanvasFail {
    IndexOutOfBounds,
    WindowUpdate,
}

impl View for Canvas {
    type V = Seq<u32>;

    closed spec fn view(&self) -> Seq<u32> {
        self.buffer@
    }
}

impl Canvas {
    pub closed spec fn width(&self) -> nat {
        self.x_size as nat
    }

    pub closed spec fn height(&self) -> nat {
        self.y_size as nat
    }

    pub closed spec fn draw_color(&self) -> Color {
        self.current_draw_color
    }

    /// The buffer holds one entry per pixel.
    pub closed spec fn wf(&self) -> bool {
        self.buffer@.len() == self.x_size as int * self.y_size as int
    }

    /// A well-formed canvas holds `width * height` pixels.
    pub proof fn lemma_len(&self)
        requires
            self.wf(),
        ensures
            self@.len() == self.width() * self.height(),
    {
    }

    pub fn new(width: usize, height: usize) -> (r: Self)
        requires
            width * height <= usize::MAX,
        ensures
            r.wf(),
            r.width() == width,
            r.height() == height,
            r@ == Seq::new((width * height) as nat, |_i: int| 0u32),
            r.draw_color() == Color::white_spec(),
    {
        let n = width * height;
        let mut buffer: Vec<u32> = Vec::new();
        let mut i: usize = 0;
        while i < n
            invariant
                i <= n,
                n == width * height,
                buffer@ == Seq::new(i as nat, |_j: int| 0u32),
            decreases n - i,
        {
            buffer.push(0);
            i = i + 1;
        }
        Canvas { buffer, x_size: width, y_size: height, current_draw_color: Color::white() }
    }

    pub fn set_draw_color(&mut self, color: Color)
        ensures
            final(self).draw_color() == color,
            final(self)@ == old(self)@,
            final(self).width() == old(self).width(),
            final(self).height() == old(self).height(),
            final(self).wf() == old(self).wf(),
    {
        self.current_draw_color = color;
    }

    /// Paints the pixel at column `x`, row `y` with the draw color.
    pub fn set_pixel(&mut self, x: usize, y: usize) -> (r: Result<(), CanvasFail>)
        requires
            old(self).wf(),
        ensures
            final(self).wf(),
            final(self).width() == old(self).width(),
            final(self).height() == old(self).height(),
            final(self).draw_color() == old(self).draw_color(),
            x < old(self).width() && y < old(self).height() ==> r == Ok::<(), CanvasFail>(())
                && final(self)@ == old(self)@.update(
                y * old(self).width() + x,
                old(self).draw_color().packed(),
            ),
            !(x < old(self).width() && y < old(self).height()) ==> r == Err::<(), CanvasFail>(
                CanvasFail::IndexOutOfBounds,
            ) && final(self)@ == old(self)@,
    {
        if x >= self.x_size || y >= self.y_size {
            return Err(CanvasFail::IndexOutOfBounds);
        }
        let len = self.buffer.len();
        proof {
            assert(y * self.x_size <= len && y * self.x_size + x < len) by (nonlinear_arith)
                requires
                    x < self.x_size,
                    y < self.y_size,
                    len == self.x_size * self.y_size,
            ;
        }
        let i = y * self.x_size + x;
        let c = self.current_draw_color.as_u32();
        self.buffer.set(i, c);
        Ok(())
    }

    /// The pixel at column `x`, row `y`.
    pub fn get_pixel(&self, x: usize, y: usize) -> (r: Result<u32, CanvasFail>)
        requires
            self.wf(),
        ensures
            x < self.width() && y < self.height() ==> r == Ok::<u32, CanvasFail>(
                self@[y * self.width() + x],
            ),
            !(x < self.width() && y < self.height()) ==> r == Err::<u32, CanvasFail>(
                CanvasFail::IndexOutOfBounds,
            ),
    {
        if x >= self.x_size || y >= self.y_size {
            return Err(CanvasFail::IndexOutOfBounds);
        }
        let len = self.buffer.len();
        proof {
            assert(y * self.x_size <= len && y * self.x_size + x < len) by (nonlinear_arith)
                requires
                    x < self.x_size,
                    y < self.y_size,
                    len == self.x_size * self.y_size,
            ;
        }
        Ok(self.buffer[y * self.x_size + x])
    }

    /// Paints every pixel with the draw color.
    pub fn fill_with_color(&mut self)
        requires
            old(self).wf(),
        ensures
            final(self).wf(),
            final(self).width() == old(self).width(),
            final(self).height() == old(self).height(),
            final(self).draw_color() == old(self).draw_color(),
            final(self)@ == Seq::new(old(self)@.len(), |_i: int| old(self).draw_color().packed()),
    {
        let c = self.current_draw_color.as_u32();
        let n = self.buffer.len();
        let mut i: usize = 0;
        while i < n
            invariant
                i <= n,
                n == self.buffer@.len(),
                self.wf(),
                self.width() == old(self).width(),
                self.height() == old(self).height(),
                self.draw_color() == old(self).draw_color(),
                c == old(self).draw_color().packed(),
                n == old(self)@.len(),
                forall|j: int| 0 <= j < i ==> self.buffer@[j] == c,
            decreases n - i,
        {
            self.buffer.set(i, c);
            i = i + 1;
        }
        proof {
            assert(self@ =~= Seq::new(old(self)@.len(), |_i: int| old(self).draw_color().packed()));
        }
    }

    /// The pixel buffer, row by row.
    pub fn buffer(&self) -> (r: &Vec<u32>)
        ensures
            r@ == self@,
    {
        &self.buffer
    }
}

} // verus!
