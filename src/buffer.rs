use vstd::prelude::*;

use crate::geometry::{i32_max, SurfaceSize};
use crate::protocol::Request;

verus! {

/// `wl_output` transform of every buffer: not rotated, not flipped.
pub const TRANSFORM_NORMAL: u32 = 0;

/// Bytes per pixel of the one pixel format in use.
pub const BYTES_PER_PIXEL: u32 = 4;

/// Byte size of a buffer for a surface of `size` logical pixels at `scale`.
pub open spec fn byte_size_of(size: SurfaceSize, scale: u32) -> int {
    (size.width * scale) * (size.height * scale) * 4
}

/// A surface of `size` at `scale` has a buffer that the compositor can take:
/// no side is empty and the pool size fits its 32-bit signed length.
pub open spec fn fits(size: SurfaceSize, scale: u32) -> bool {
    &&& size.width > 0
    &&& size.height > 0
    &&& scale > 0
    &&& byte_size_of(size, scale) <= i32_max()
}

pub(crate) proof fn lemma_fits_bounds(size: SurfaceSize, scale: u32)
    requires
        fits(size, scale),
    ensures
        size.width * scale <= i32_max() / 4,
        size.height * scale <= i32_max() / 4,
        size.width <= i32_max() / 4,
        size.height <= i32_max() / 4,
        scale <= i32_max() / 4,
        (size.width * scale) * (size.height * scale) <= i32_max() / 4,
{
    let w = size.width as int;
    let h = size.height as int;
    let s = scale as int;
    assert(w * s >= w && w * s >= s) by (nonlinear_arith)
        requires w >= 1, s >= 1;
    assert(h * s >= h && h * s >= s) by (nonlinear_arith)
        requires h >= 1, s >= 1;
    assert((w * s) * (h * s) >= w * s && (w * s) * (h * s) >= h * s) by (nonlinear_arith)
        requires w * s >= 1, h * s >= 1;
}

/// The geometry of a surface's buffer: a logical size, an integer scale and a
/// transform. The buffer has `surface_size * buffer_scale` pixels of four
/// bytes, with no partial rows.
#[derive(Clone, Copy, Debug, PartialEq, Eq, Structural)]
pub struct Viewport {
    pub surface_size: SurfaceSize,
    pub buffer_scale: u32,
    pub buffer_transform: u32,
}

impl Viewport {
    pub open spec fn wf(self) -> bool {
        fits(self.surface_size, self.buffer_scale) && self.buffer_transform == TRANSFORM_NORMAL
    }

    pub open spec fn spec_buffer_width(self) -> int {
        self.surface_size.width * self.buffer_scale
    }

    pub open spec fn spec_buffer_height(self) -> int {
        self.surface_size.height * self.buffer_scale
    }

    pub open spec fn spec_byte_size(self) -> int {
        byte_size_of(self.surface_size, self.buffer_scale)
    }

    /// Whether a surface of `size` at `scale` has a buffer that fits.
    pub fn fits(size: SurfaceSize, scale: u32) -> (r: bool)
        ensures
            r == fits(size, scale),
    {
        if size.width == 0 || size.height == 0 || scale == 0 {
            return false;
        }
        proof {
            let (a, b, s) = (size.width as int, size.height as int, scale as int);
            assert(1 <= a * s <= 0xffff_ffff * 0xffff_ffff) by (nonlinear_arith)
                requires 1 <= a <= 0xffff_ffff, 1 <= s <= 0xffff_ffff;
            assert(1 <= b * s <= 0xffff_ffff * 0xffff_ffff) by (nonlinear_arith)
                requires 1 <= b <= 0xffff_ffff, 1 <= s <= 0xffff_ffff;
        }
        let w = size.width as u64 * scale as u64;
        let h = size.height as u64 * scale as u64;
        if w > 0x7fff_ffff || h > 0x7fff_ffff {
            proof {
                let (wi, hi) = (w as int, h as int);
                assert(wi * hi * 4 > i32_max()) by (nonlinear_arith)
                    requires wi >= 1, hi >= 1, wi > 0x7fff_ffff || hi > 0x7fff_ffff;
            }
            return false;
        }
        proof {
            let (wi, hi) = (w as int, h as int);
            assert(wi * hi <= 0x7fff_ffff * 0x7fff_ffff) by (nonlinear_arith)
                requires 0 <= wi <= 0x7fff_ffff, 0 <= hi <= 0x7fff_ffff;
        }
        w * h * 4 <= 0x7fff_ffff
    }

    /// The viewport of a surface of `surface_size` at `buffer_scale`, where its
    /// buffer fits.
    pub fn new(surface_size: SurfaceSize, buffer_scale: u32) -> (r: Option<Viewport>)
        ensures
            r is Some <==> fits(surface_size, buffer_scale),
            r matches Some(v) ==> v.wf() && v.surface_size == surface_size && v.buffer_scale
                == buffer_scale,
    {
        if Viewport::fits(surface_size, buffer_scale) {
            Some(Viewport { surface_size, buffer_scale, buffer_transform: TRANSFORM_NORMAL })
        } else {
            None
        }
    }

    /// The same viewport for a surface of another logical size.
    pub fn with_surface_size(self, surface_size: SurfaceSize) -> (r: Viewport)
        requires
            self.wf(),
            fits(surface_size, self.buffer_scale),
        ensures
            r.wf(),
            r == (Viewport { surface_size, ..self }),
    {
        Viewport { surface_size, ..self }
    }

    /// The same viewport at another scale.
    pub fn with_buffer_scale(self, buffer_scale: u32) -> (r: Viewport)
        requires
            self.wf(),
            fits(self.surface_size, buffer_scale),
        ensures
            r.wf(),
            r == (Viewport { buffer_scale, ..self }),
    {
        Viewport { buffer_scale, ..self }
    }

    pub fn buffer_width(&self) -> (r: u32)
        requires
            self.wf(),
        ensures
            r == self.spec_buffer_width(),
    {
        proof { lemma_fits_bounds(self.surface_size, self.buffer_scale) }
        self.surface_size.width * self.buffer_scale
    }

    pub fn buffer_height(&self) -> (r: u32)
        requires
            self.wf(),
        ensures
            r == self.spec_buffer_height(),
    {
        proof { lemma_fits_bounds(self.surface_size, self.buffer_scale) }
        self.surface_size.height * self.buffer_scale
    }

    /// Pixel width and height of the buffer.
    pub fn buffer_size(&self) -> (r: SurfaceSize)
        requires
            self.wf(),
        ensures
            r.width == self.spec_buffer_width(),
            r.height == self.spec_buffer_height(),
    {
        SurfaceSize { width: self.buffer_width(), height: self.buffer_height() }
    }

    /// Byte length of the buffer: width x height x 4.
    pub fn buffer_byte_size(&self) -> (r: usize)
        requires
            self.wf(),
        ensures
            r == self.spec_byte_size(),
            r <= i32_max(),
    {
        proof { lemma_fits_bounds(self.surface_size, self.buffer_scale) }
        let SurfaceSize { width, height } = self.buffer_size();
        width as usize * height as usize * 4
    }
}

/// A shared-memory pixel buffer of the compositor, named by the panel, with
/// the viewport that sized it.
#[derive(Debug, PartialEq, Eq, Structural)]
pub struct Buffer {
    pub buffer: u64,
    pub viewport: Viewport,
}

impl Buffer {
    /// Byte length of the buffer's memory.
    pub open spec fn spec_byte_len(self) -> int {
        self.viewport.spec_byte_size()
    }

    pub fn byte_len(&self) -> (r: usize)
        requires
            self.viewport.wf(),
        ensures
            r == self.spec_byte_len(),
    {
        self.viewport.buffer_byte_size()
    }

    /// The request that allocates this buffer: ARGB8888 rows of four bytes a
    /// pixel, the whole buffer in one pool.
    pub open spec fn spec_create_request(self) -> Request {
        Request::CreateBuffer {
            buffer: self.buffer,
            width: self.viewport.spec_buffer_width() as u32,
            height: self.viewport.spec_buffer_height() as u32,
            stride: (self.viewport.spec_buffer_width() * 4) as u32,
            size: self.spec_byte_len() as u32,
        }
    }

    pub fn create_request(&self) -> (r: Request)
        requires
            self.viewport.wf(),
        ensures
            r == self.spec_create_request(),
    {
        proof { lemma_fits_bounds(self.viewport.surface_size, self.viewport.buffer_scale) }
        let SurfaceSize { width, height } = self.viewport.buffer_size();
        Request::CreateBuffer {
            buffer: self.buffer,
            width,
            height,
            stride: width * BYTES_PER_PIXEL,
            size: self.byte_len() as u32,
        }
    }
}

/// tiny_skia's 8-bit clip mask, held opaque.
#[verifier::external_type_specification]
#[verifier::external_body]
pub struct ExMask(tiny_skia::Mask);

/// Relies on tiny_skia::Mask::new: a zero-filled mask of one byte a pixel,
/// returned exactly when neither side is zero. The size is bounded so that
/// the allocation stays within what a buffer may take.
#[verifier::external_body]
fn new_mask(width: u32, height: u32) -> (r: Option<tiny_skia::Mask>)
    requires
        width * height <= i32_max(),
    ensures
        r is Some <==> (width > 0 && height > 0),
{
    tiny_skia::Mask::new(width, height)
}

/// The clip mask that painting into a buffer goes through, with the pixel
/// size it was made for.
pub struct ClipMask {
    mask: tiny_skia::Mask,
    width: u32,
    height: u32,
}

impl View for ClipMask {
    type V = SurfaceSize;

    /// The pixel size the mask was made for.
    closed spec fn view(&self) -> SurfaceSize {
        SurfaceSize { width: self.width, height: self.height }
    }
}

impl ClipMask {
    /// A clear mask of `width` x `height` pixels.
    pub fn new(width: u32, height: u32) -> (r: ClipMask)
        requires
            width > 0,
            height > 0,
            width * height <= i32_max(),
        ensures
            r@ == (SurfaceSize { width, height }),
    {
        let mask = new_mask(width, height).unwrap();
        ClipMask { mask, width, height }
    }

    /// A clear mask of the viewport's buffer size.
    pub fn for_viewport(viewport: &Viewport) -> (r: ClipMask)
        requires
            viewport.wf(),
        ensures
            r@.width == viewport.spec_buffer_width(),
            r@.height == viewport.spec_buffer_height(),
    {
        proof {
            let (w, h, s) = (viewport.surface_size.width as int, viewport.surface_size.height as int, viewport.buffer_scale as int);
            assert(w * s > 0 && h * s > 0) by (nonlinear_arith)
                requires w > 0, h > 0, s > 0;
            lemma_fits_bounds(viewport.surface_size, viewport.buffer_scale);
        }
        let SurfaceSize { width, height } = viewport.buffer_size();
        ClipMask::new(width, height)
    }

    /// The pixel size the mask was made for.
    pub fn size(&self) -> (r: SurfaceSize)
        ensures
            r == self@,
    {
        SurfaceSize { width: self.width, height: self.height }
    }

    /// The mask itself, for the rasterizer.
    pub fn mask(&self) -> &tiny_skia::Mask {
        &self.mask
    }
}

} // verus!
