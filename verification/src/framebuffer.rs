//! An in-memory pixel surface that a generation is drawn onto.
//!
//! The surface is a plain rectangle of colours, stored row by row. Showing it
//! in a window or writing it to an image file is left to the program that
//! uses the library.

use vstd::prelude::*;

verus! {

/// A colour with red, green, blue and alpha channels.
#[derive(Clone, Copy, Debug, PartialEq, Eq, Structural)]
pub struct Color {
    pub r: u8,
    pub g: u8,
    pub b: u8,
    pub a: u8,
}

impl Color {
    /// Opaque black, in contracts.
    pub open spec fn spec_black() -> Color {
        Color { r: 0, g: 0, b: 0, a: 255 }
    }

    /// Opaque white, in contracts.
    pub open spec fn spec_white() -> Color {
        Color { r: 255, g: 255, b: 255, a: 255 }
    }

    /// Opaque black.
    #[verifier::when_used_as_spec(spec_black)]
    pub fn black() -> (c: Color)
        ensures
            c == Color::spec_black(),
    {
        Color { r: 0, g: 0, b: 0, a: 255 }
    }

    /// Opaque white.
    #[verifier::when_used_as_spec(spec_white)]
    pub fn white() -> (c: Color)
        ensures
            c == Color::spec_white(),
    {
        Color { r: 255, g: 255, b: 255, a: 255 }
    }
}

/// What a [`Framebuffer`] is, as a mathematical value.
pub struct FramebufferView {
    /// Number of pixel columns.
    pub width: nat,
    /// Number of pixel rows.
    pub height: nat,
    /// The pixels, row by row from the top, each row from the left.
    pub pixels: Seq<Color>,
    /// The colour that [`Framebuffer::point`] draws with.
    pub current_color: Color,
    /// The colour that [`Framebuffer::clear`] fills the surface with.
    pub background_color: Color,
}

impl FramebufferView {
    /// Whether `(x, y)` is a pixel of the surface.
    pub open spec fn contains(self, x: int, y: int) -> bool {
        0 <= x < self.width && 0 <= y < self.height
    }

    /// Position of the pixel `(x, y)` in `pixels`.
    pub open spec fn position(self, x: int, y: int) -> int {
        y * self.width + x
    }

    /// Colour of the pixel `(x, y)`.
    pub open spec fn pixel(self, x: int, y: int) -> Color {
        self.pixels[self.position(x, y)]
    }

    /// The surface with the pixel `(x, y)` set to `color`; the surface itself
    /// if it has no such pixel.
    pub open spec fn painted(self, x: int, y: int, color: Color) -> FramebufferView {
        if self.contains(x, y) {
            FramebufferView { pixels: self.pixels.update(self.position(x, y), color), ..self }
        } else {
            self
        }
    }

    /// The surface with every pixel set to `color`.
    pub open spec fn filled(self, color: Color) -> FramebufferView {
        FramebufferView { pixels: Seq::new(self.pixels.len(), |i: int| color), ..self }
    }
}

/// A rectangle of pixels together with a drawing colour and a background
/// colour.
pub struct Framebuffer {
    width: u32,
    height: u32,
    color_buffer: Vec<Color>,
    current_color: Color,
    background_color: Color,
}

impl View for Framebuffer {
    type V = FramebufferView;

    closed spec fn view(&self) -> FramebufferView {
        FramebufferView {
            width: self.width as nat,
            height: self.height as nat,
            pixels: self.color_buffer@,
            current_color: self.current_color,
            background_color: self.background_color,
        }
    }
}

/// A pixel inside the surface has its position inside the pixel sequence.
pub proof fn lemma_position_in_range(x: int, y: int, width: int, height: int)
    by (nonlinear_arith)
    requires
        0 <= x < width,
        0 <= y < height,
    ensures
        0 <= y * width,
        0 <= y * width + x < width * height,
{
}

/// Different pixels of a surface have different positions.
pub proof fn lemma_position_injective(x1: int, y1: int, x2: int, y2: int, width: int)
    by (nonlinear_arith)
    requires
        0 <= x1 < width,
        0 <= x2 < width,
        0 <= y1,
        0 <= y2,
        y1 * width + x1 == y2 * width + x2,
    ensures
        x1 == x2,
        y1 == y2,
{
}

impl Framebuffer {
    /// The surface holds one colour for each of its `width * height` pixels.
    pub open spec fn wf(&self) -> bool {
        self@.pixels.len() == self@.width * self@.height
    }

    /// A surface of `width` by `height` pixels, all black, that draws in
    /// white on a black background.
    pub fn new(width: u32, height: u32) -> (fb: Framebuffer)
        requires
            width * height <= usize::MAX,
        ensures
            fb.wf(),
            fb@ == (FramebufferView {
                width: width as nat,
                height: height as nat,
                pixels: Seq::new((width * height) as nat, |i: int| Color::black()),
                current_color: Color::white(),
                background_color: Color::black(),
            }),
    {
        let total: usize = (width as usize) * (height as usize);
        let mut color_buffer: Vec<Color> = Vec::new();
        for i in 0..total
            invariant
                color_buffer@.len() == i,
                forall|j: int| 0 <= j < i ==> color_buffer@[j] == Color::black(),
        {
            color_buffer.push(Color::black());
        }
        assert(color_buffer@ =~= Seq::new((width * height) as nat, |i: int| Color::black()));
        Framebuffer {
            width,
            height,
            color_buffer,
            current_color: Color::white(),
            background_color: Color::black(),
        }
    }

    /// Number of pixel columns.
    pub fn width(&self) -> (w: u32)
        ensures
            w == self@.width,
    {
        self.width
    }

    /// Number of pixel rows.
    pub fn height(&self) -> (h: u32)
        ensures
            h == self@.height,
    {
        self.height
    }

    /// The colour that `point` draws with.
    pub fn current_color(&self) -> (c: Color)
        ensures
            c == self@.current_color,
    {
        self.current_color
    }

    /// The colour that `clear` fills the surface with.
    pub fn background_color(&self) -> (c: Color)
        ensures
            c == self@.background_color,
    {
        self.background_color
    }

    /// Colour of the pixel `(x, y)`, or `None` where the surface has no such
    /// pixel.
    pub fn pixel(&self, x: u32, y: u32) -> (c: Option<Color>)
        requires
            self.wf(),
        ensures
            c == if self@.contains(x as int, y as int) {
                Some(self@.pixel(x as int, y as int))
            } else {
                None
            },
    {
        if x < self.width && y < self.height {
            let column: usize = x as usize;
            let row: usize = y as usize;
            let stride: usize = self.width as usize;
            proof {
                lemma_position_in_range(
                    column as int,
                    row as int,
                    stride as int,
                    self.height as int,
                );
                assert(self.color_buffer.len() == stride * self.height);
            }
            let at: usize = row * stride + column;
            Some(self.color_buffer[at])
        } else {
            None
        }
    }

    /// Chooses the colour that `clear` fills the surface with.
    pub fn set_background_color(&mut self, color: Color)
        ensures
            final(self)@ == (FramebufferView { background_color: color, ..old(self)@ }),
    {
        self.background_color = color;
    }

    /// Sets every pixel to the background colour.
    pub fn clear(&mut self)
        ensures
            final(self)@ == old(self)@.filled(old(self)@.background_color),
    {
        let n: usize = self.color_buffer.len();
        for i in 0..n
            invariant
                n == self.color_buffer@.len(),
                self.width == old(self).width,
                self.height == old(self).height,
                self.current_color == old(self).current_color,
                self.background_color == old(self).background_color,
                forall|j: int| 0 <= j < i ==> self.color_buffer@[j] == self.background_color,
        {
            self.color_buffer[i] = self.background_color;
        }
        assert(self.color_buffer@ =~= Seq::new(n as nat, |i: int| self.background_color));
    }

    /// Chooses the colour that `point` draws with.
    pub fn set_current_color(&mut self, color: Color)
        ensures
            final(self)@ == (FramebufferView { current_color: color, ..old(self)@ }),
    {
        self.current_color = color;
    }

    /// Sets the pixel `(x, y)` to the current colour. A point outside the
    /// surface is ignored.
    pub fn point(&mut self, x: i32, y: i32)
        requires
            old(self).wf(),
        ensures
            final(self)@ == old(self)@.painted(x as int, y as int, old(self)@.current_color),
    {
        let inside: bool = x >= 0 && (x as i64) < (self.width as i64) && y >= 0 && (y as i64) < (
        self.height as i64);
        if inside {
            let column: usize = x as usize;
            let row: usize = y as usize;
            let stride: usize = self.width as usize;
            proof {
                lemma_position_in_range(
                    column as int,
                    row as int,
                    stride as int,
                    self.height as int,
                );
                assert(self.color_buffer.len() == stride * self.height);
            }
            let at: usize = row * stride + column;
            self.color_buffer[at] = self.current_color;
        }
    }
}

} // verus!
