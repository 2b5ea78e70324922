//! The incremental texture atlas: an RGBA8 image kept CPU-side in
//! bottom-up row order (the rasterizer's convention), fed by whole-image
//! or sub-rectangle deltas whose source rows arrive top-down, with a
//! lazily allocated GPU handle.
//!
//! Everything that touches the graphics driver is decided here but
//! executed elsewhere: the atlas records whether a handle exists, which
//! handle a caller must free, and what must be uploaded; the unverified
//! shell performs the driver calls.

use vstd::prelude::*;

verus! {

/// One pixel: four channels, one byte each.
#[derive(Clone, Copy, Debug, PartialEq, Eq, Structural)]
pub struct Rgba8 {
    pub r: u8,
    pub g: u8,
    pub b: u8,
    pub a: u8,
}

/// Magnification/minification filter for texture sampling.
#[derive(Clone, Copy, Debug, PartialEq, Eq, Structural)]
pub enum TextureFilter {
    Nearest,
    Linear,
}

/// How texture coordinates outside `[0, 1]` wrap.
#[derive(Clone, Copy, Debug, PartialEq, Eq, Structural)]
pub enum TextureWrapMode {
    ClampToEdge,
    Repeat,
    MirroredRepeat,
}

/// Sampling and wrapping options carried by a texture.
#[derive(Clone, Copy, Debug, PartialEq, Eq, Structural)]
pub struct TextureOptions {
    pub magnification: TextureFilter,
    pub minification: TextureFilter,
    pub wrap_mode: TextureWrapMode,
}

/// A full or partial change to a texture's pixel contents.
///
/// `pos == None` means the delta replaces the whole image; `pos ==
/// Some((x, y))` anchors the delta's top-left corner at column `x`, row
/// `y` of the target image, counted from the target's top-left corner.
/// `pixels` holds the delta's own image in top-down row order.
pub struct ImageDeltaData {
    pub pos: Option<(usize, usize)>,
    pub width: usize,
    pub height: usize,
    pub pixels: Vec<Rgba8>,
    pub options: TextureOptions,
}

impl ImageDeltaData {
    /// The pixel buffer matches the claimed dimensions.
    pub open spec fn valid(self) -> bool {
        self.pixels@.len() == self.width * self.height
    }

    /// True when the delta replaces the whole image.
    pub open spec fn spec_is_whole(self) -> bool {
        self.pos is None
    }

    /// True when the delta replaces the whole image.
    pub fn is_whole(&self) -> (r: bool)
        ensures
            r == self.spec_is_whole(),
    {
        self.pos.is_none()
    }

    /// The delta's target rectangle lies inside an image of the given size.
    pub open spec fn fits_in(self, width: int, height: int) -> bool {
        match self.pos {
            Some(p) => p.0 + self.width <= width && p.1 + self.height <= height,
            None => true,
        }
    }
}

/// The source image rows reversed: element `i` of the result is taken
/// from the source row `height - 1 - i / width`, same column. Turning a
/// top-down image bottom-up (or back) is exactly this reversal.
pub open spec fn flipped_rows(src: Seq<Rgba8>, width: int, height: int) -> Seq<Rgba8> {
    Seq::new((width * height) as nat, |i: int| src[(height - 1 - i / width) * width + i % width])
}

/// The stored (bottom-up) image `base` with the delta's rectangle
/// overwritten and every other pixel untouched. The delta's row `y`
/// (top-down, anchored at `anchor_y`) lands on stored row
/// `height - anchor_y - y - 1`.
pub open spec fn patched(
    base: Seq<Rgba8>,
    width: int,
    height: int,
    anchor_x: int,
    anchor_y: int,
    dwidth: int,
    dheight: int,
    dpix: Seq<Rgba8>,
) -> Seq<Rgba8> {
    Seq::new(
        base.len(),
        |i: int|
            {
                let row = i / width;
                let col = i % width;
                if anchor_x <= col < anchor_x + dwidth && height - anchor_y - dheight <= row
                    < height - anchor_y {
                    dpix[(height - anchor_y - row - 1) * dwidth + (col - anchor_x)]
                } else {
                    base[i]
                }
            },
    )
}

/// What a caller must do to have this texture bound to a sampler slot.
#[derive(Clone, Copy, Debug, PartialEq, Eq, Structural)]
pub enum ActivatePlan {
    /// No GPU resource exists yet: allocate one, upload the pixel
    /// buffer, attach the new handle, then bind it.
    UploadThenBind,
    /// Bind the existing handle.
    Bind { handle: u32 },
}

/// An RGBA8 texture image with CPU-side pixel storage in bottom-up row
/// order and a lazily allocated GPU handle.
pub struct TextureRGBA8 {
    /// Width of the texture in pixels.
    width: usize,
    /// Height of the texture in pixels.
    height: usize,
    /// Pixels of the image stored from the bottom-left, row-wise.
    pixels: Vec<Rgba8>,
    /// Sampling options for the texture.
    texture_options: TextureOptions,
    /// GPU handle, `None` while the texture has never been uploaded (or
    /// after its resource was released).
    gl_tex: Option<u32>,
}

impl TextureRGBA8 {
    /// Width in pixels.
    pub closed spec fn spec_width(self) -> usize {
        self.width
    }

    /// Height in pixels.
    pub closed spec fn spec_height(self) -> usize {
        self.height
    }

    /// The stored pixels, bottom-up row order.
    pub closed spec fn spec_pixels(self) -> Seq<Rgba8> {
        self.pixels@
    }

    /// The sampling options.
    pub closed spec fn spec_options(self) -> TextureOptions {
        self.texture_options
    }

    /// The GPU handle, if one is attached.
    pub closed spec fn spec_handle(self) -> Option<u32> {
        self.gl_tex
    }

    /// The pixel buffer always matches the dimensions.
    pub open spec fn wf(self) -> bool {
        self.spec_pixels().len() == self.spec_width() * self.spec_height()
    }

    /// Create a texture from a caller-supplied pixel buffer already in
    /// bottom-up row order. No GPU resource is created.
    pub fn from_pixels(
        width: usize,
        height: usize,
        pixels: Vec<Rgba8>,
        texture_options: TextureOptions,
    ) -> (t: Self)
        requires
            pixels@.len() == width * height,
        ensures
            t.wf(),
            t.spec_width() == width,
            t.spec_height() == height,
            t.spec_pixels() == pixels@,
            t.spec_options() == texture_options,
            t.spec_handle() is None,
    {
        Self { width, height, pixels, texture_options, gl_tex: None }
    }

    /// Create a texture from a whole-image delta, reversing the
    /// top-down source rows into bottom-up storage. A partial delta
    /// cannot establish an initial image, so it yields `None` (a no-op
    /// signal, not an error).
    pub fn from_delta(delta: &ImageDeltaData) -> (t: Option<Self>)
        requires
            delta.valid(),
        ensures
            t is Some <==> delta.spec_is_whole(),
            t matches Some(t) ==> {
                &&& t.wf()
                &&& t.spec_width() == delta.width
                &&& t.spec_height() == delta.height
                &&& t.spec_pixels() == flipped_rows(delta.pixels@, delta.width as int, delta.height as int)
                &&& t.spec_options() == delta.options
                &&& t.spec_handle() is None
            },
    {
        if !delta.is_whole() {
            return None;
        }
        let width = delta.width;
        let height = delta.height;
        let dlen = delta.pixels.len();
        let ghost flipped = flipped_rows(delta.pixels@, width as int, height as int);
        let mut pixels: Vec<Rgba8> = Vec::new();
        let mut r: usize = 0;
        while r < height
            invariant
                r <= height,
                delta.valid(),
                width == delta.width,
                height == delta.height,
                dlen == delta.pixels@.len(),
                flipped == flipped_rows(delta.pixels@, width as int, height as int),
                pixels@.len() == r * width,
                forall|i: int| 0 <= i < pixels@.len() ==> pixels@[i] == flipped[i],
            decreases height - r,
        {
            let src_row = height - 1 - r;
            let mut c: usize = 0;
            while c < width
                invariant
                    c <= width,
                    r < height,
                    src_row == height - 1 - r,
                    delta.valid(),
                    width == delta.width,
                    height == delta.height,
                    dlen == delta.pixels@.len(),
                    flipped == flipped_rows(delta.pixels@, width as int, height as int),
                    pixels@.len() == r * width + c,
                    forall|i: int| 0 <= i < pixels@.len() ==> pixels@[i] == flipped[i],
                decreases width - c,
            {
                let ghost i = pixels@.len() as int;
                proof {
                    lemma_row_col_index(r as int, c as int, width as int, height as int);
                    lemma_row_col_index(src_row as int, c as int, width as int, height as int);
                    assert(i == r * width + c);
                    assert(i / width as int == r && i % width as int == c);
                    assert(height - 1 - i / width as int == src_row as int);
                    assert(flipped[i] == delta.pixels@[src_row as int * width as int + c as int]);
                }
                pixels.push(delta.pixels[src_row * width + c]);
                c = c + 1;
            }
            proof {
                assert((r + 1) * width == r * width + width) by (nonlinear_arith);
            }
            r = r + 1;
        }
        proof {
            assert(height * width == width * height) by (nonlinear_arith);
            assert(pixels@ =~= flipped);
        }
        Some(Self { width, height, pixels, texture_options: delta.options, gl_tex: None })
    }

    /// Apply a delta. A whole delta discards and fully rebuilds the
    /// image, as a fresh [`Self::from_delta`] would; a partial delta
    /// overwrites exactly its target rectangle, which must lie inside
    /// the stored image. Either way the GPU resource is stale
    /// afterwards: the previously attached handle, if any, is returned
    /// so the caller can delete it, and the texture is left without a
    /// handle, forcing re-creation on the next activation.
    pub fn update(&mut self, delta: &ImageDeltaData) -> (freed: Option<u32>)
        requires
            old(self).wf(),
            delta.valid(),
            delta.fits_in(old(self).spec_width() as int, old(self).spec_height() as int),
        ensures
            final(self).wf(),
            freed == old(self).spec_handle(),
            final(self).spec_handle() is None,
            delta.spec_is_whole() ==> {
                &&& final(self).spec_width() == delta.width
                &&& final(self).spec_height() == delta.height
                &&& final(self).spec_pixels() == flipped_rows(delta.pixels@, delta.width as int, delta.height as int)
                &&& final(self).spec_options() == delta.options
            },
            delta.pos matches Some(anchor) ==> {
                &&& final(self).spec_width() == old(self).spec_width()
                &&& final(self).spec_height() == old(self).spec_height()
                &&& final(self).spec_options() == old(self).spec_options()
                &&& final(self).spec_pixels() == patched(
                    old(self).spec_pixels(),
                    final(self).spec_width() as int,
                    final(self).spec_height() as int,
                    anchor.0 as int,
                    anchor.1 as int,
                    delta.width as int,
                    delta.height as int,
                    delta.pixels@,
                )
            },
    {
        let freed = self.gl_tex;
        self.gl_tex = None;
        match delta.pos {
            None => {
                let rebuilt = Self::from_delta(delta);
                match rebuilt {
                    Some(t) => {
                        *self = t;
                    },
                    None => {
                        // Unreachable: a whole delta always builds a texture.
                        proof {
                            assert(false);
                        }
                    },
                }
                freed
            },
            Some(anchor) => {
                self.patch_rect(anchor.0, anchor.1, delta);
                freed
            },
        }
    }

    /// Overwrite the sub-rectangle targeted by a partial delta.
    fn patch_rect(&mut self, anchor_x: usize, anchor_y: usize, delta: &ImageDeltaData)
        requires
            old(self).wf(),
            delta.valid(),
            anchor_x + delta.width <= old(self).spec_width(),
            anchor_y + delta.height <= old(self).spec_height(),
        ensures
            final(self).wf(),
            final(self).spec_width() == old(self).spec_width(),
            final(self).spec_height() == old(self).spec_height(),
            final(self).spec_options() == old(self).spec_options(),
            final(self).spec_handle() == old(self).spec_handle(),
            final(self).spec_pixels() == patched(
                old(self).spec_pixels(),
                final(self).spec_width() as int,
                final(self).spec_height() as int,
                anchor_x as int,
                anchor_y as int,
                delta.width as int,
                delta.height as int,
                delta.pixels@,
            ),
    {
        let width = self.width;
        let height = self.height;
        let dwidth = delta.width;
        let dheight = delta.height;
        let slen = self.pixels.len();
        let dlen = delta.pixels.len();
        let ghost target = patched(
            old(self).spec_pixels(),
            width as int,
            height as int,
            anchor_x as int,
            anchor_y as int,
            dwidth as int,
            dheight as int,
            delta.pixels@,
        );
        let mut y: usize = 0;
        while y < dheight
            invariant
                y <= dheight,
                self.wf(),
                self.width == old(self).width,
                self.height == old(self).height,
                self.texture_options == old(self).texture_options,
                self.gl_tex == old(self).gl_tex,
                width == self.width,
                height == self.height,
                dwidth == delta.width,
                dheight == delta.height,
                delta.valid(),
                anchor_x + dwidth <= width,
                anchor_y + dheight <= height,
                slen == self.pixels@.len(),
                dlen == delta.pixels@.len(),
                target == patched(
                    old(self).spec_pixels(),
                    width as int,
                    height as int,
                    anchor_x as int,
                    anchor_y as int,
                    dwidth as int,
                    dheight as int,
                    delta.pixels@,
                ),
                self.pixels@.len() == old(self).pixels@.len(),
                forall|i: int|
                    0 <= i < self.pixels@.len() ==> self.pixels@[i] == (
                    if target_row_done(i, width as int, height as int, anchor_y as int, y as int) {
                        target[i]
                    } else {
                        old(self).pixels@[i]
                    }),
            decreases dheight - y,
        {
            let stored_row = height - anchor_y - y - 1;
            let mut x: usize = 0;
            while x < dwidth
                invariant
                    x <= dwidth,
                    y < dheight,
                    stored_row == height - anchor_y - y - 1,
                    self.wf(),
                    self.width == old(self).width,
                    self.height == old(self).height,
                    self.texture_options == old(self).texture_options,
                    self.gl_tex == old(self).gl_tex,
                    width == self.width,
                    height == self.height,
                    dwidth == delta.width,
                    dheight == delta.height,
                    delta.valid(),
                    anchor_x + dwidth <= width,
                    anchor_y + dheight <= height,
                    slen == self.pixels@.len(),
                    dlen == delta.pixels@.len(),
                    target == patched(
                        old(self).spec_pixels(),
                        width as int,
                        height as int,
                        anchor_x as int,
                        anchor_y as int,
                        dwidth as int,
                        dheight as int,
                        delta.pixels@,
                    ),
                    self.pixels@.len() == old(self).pixels@.len(),
                    forall|i: int|
                        0 <= i < self.pixels@.len() ==> self.pixels@[i] == (
                        if target_row_done(i, width as int, height as int, anchor_y as int, y as int)
                            || (i / width as int == stored_row as int && anchor_x <= i % (
                        width as int) < anchor_x + x) {
                            target[i]
                        } else {
                            old(self).pixels@[i]
                        }),
                decreases dwidth - x,
            {
                proof {
                    lemma_row_col_index(stored_row as int, (anchor_x + x) as int, width as int, height as int);
                    assert(y * dwidth + x < dheight * dwidth) by (nonlinear_arith)
                        requires
                            y < dheight && x < dwidth && 0 <= y && 0 <= x,
                    ;
                    assert(dheight * dwidth == dwidth * dheight) by (nonlinear_arith);
                    assert(width * height == height * width) by (nonlinear_arith);
                }
                let idx = stored_row * width + anchor_x + x;
                let val = delta.pixels[y * dwidth + x];
                let ghost prev = self.pixels@;
                self.pixels.set(idx, val);
                proof {
                    let w = width as int;
                    let h = height as int;
                    let ii = idx as int;
                    assert(ii / w == stored_row as int && ii % w == anchor_x + x);
                    assert(h - anchor_y - (ii / w) - 1 == y);
                    assert(target[ii] == delta.pixels@[(y * dwidth + x) as int]);
                    assert(self.pixels@ == prev.update(ii, val));
                    assert(prev.len() == self.pixels@.len());
                    assert forall|i: int| 0 <= i < self.pixels@.len() implies self.pixels@[i] == (
                    if target_row_done(i, w, h, anchor_y as int, y as int) || (i / w
                        == stored_row as int && anchor_x <= i % w < anchor_x + x + 1) {
                        target[i]
                    } else {
                        old(self).pixels@[i]
                    }) by {
                        if i != ii {
                            assert(self.pixels@[i] == prev[i]);
                            if i / w == stored_row as int && i % w == anchor_x + x {
                                vstd::arithmetic::div_mod::lemma_fundamental_div_mod(i, w);
                                assert(w * (stored_row as int) == (stored_row as int) * w) by (nonlinear_arith);
                                assert(i == ii);
                            }
                        }
                    }
                }
                x = x + 1;
            }
            y = y + 1;
        }
        proof {
            assert(self.pixels@ =~= target);
        }
    }

    /// What activating this texture on a sampler slot requires of the
    /// caller. Slots `0` to `31` exist; others are a caller error.
    pub fn activate_plan(&self, slot: u8) -> (p: ActivatePlan)
        requires
            slot < 32,
        ensures
            match p {
                ActivatePlan::UploadThenBind => self.spec_handle() is None,
                ActivatePlan::Bind { handle } => self.spec_handle() == Some(handle),
            },
    {
        match self.gl_tex {
            None => ActivatePlan::UploadThenBind,
            Some(handle) => ActivatePlan::Bind { handle },
        }
    }

    /// Record the GPU handle a caller allocated and uploaded this
    /// texture's pixels to. Only a texture without a handle can take
    /// one, and the driver never hands out handle `0`.
    pub fn attach_handle(&mut self, handle: u32)
        requires
            old(self).spec_handle() is None,
            handle != 0,
        ensures
            final(self).spec_handle() == Some(handle),
            final(self).spec_width() == old(self).spec_width(),
            final(self).spec_height() == old(self).spec_height(),
            final(self).spec_pixels() == old(self).spec_pixels(),
            final(self).spec_options() == old(self).spec_options(),
    {
        self.gl_tex = Some(handle);
    }

    /// Give up the attached GPU handle so the caller can delete the
    /// resource. The CPU-side pixels stay, so a later activation can
    /// re-create it.
    pub fn release(&mut self) -> (freed: u32)
        requires
            old(self).spec_handle() is Some,
        ensures
            Some(freed) == old(self).spec_handle(),
            final(self).spec_handle() is None,
            final(self).spec_width() == old(self).spec_width(),
            final(self).spec_height() == old(self).spec_height(),
            final(self).spec_pixels() == old(self).spec_pixels(),
            final(self).spec_options() == old(self).spec_options(),
    {
        let freed = match self.gl_tex {
            Some(h) => h,
            None => 0,
        };
        self.gl_tex = None;
        freed
    }

    /// The GPU handle, if one is attached.
    pub fn handle(&self) -> (h: Option<u32>)
        ensures
            h == self.spec_handle(),
    {
        self.gl_tex
    }

    /// Width in pixels.
    pub fn get_width(&self) -> (w: usize)
        ensures
            w == self.spec_width(),
    {
        self.width
    }

    /// Height in pixels.
    pub fn get_height(&self) -> (h: usize)
        ensures
            h == self.spec_height(),
    {
        self.height
    }

    /// The stored pixels, bottom-up row order.
    pub fn get_pixels(&self) -> (p: &Vec<Rgba8>)
        ensures
            p@ == self.spec_pixels(),
    {
        &self.pixels
    }

    /// The sampling options.
    pub fn get_options(&self) -> (o: TextureOptions)
        ensures
            o == self.spec_options(),
    {
        self.texture_options
    }
}

/// The row alignment the driver is told to assume when a texture of
/// this width is uploaded: the widest power of two (up to eight) that
/// divides the byte length of one row, four bytes per pixel.
pub open spec fn spec_unpack_alignment(width: int) -> int {
    if (4 * width) % 8 == 0 {
        8
    } else if (4 * width) % 4 == 0 {
        4
    } else if (4 * width) % 2 == 0 {
        2
    } else {
        1
    }
}

/// The row alignment for uploading a texture of the given width; four
/// bytes per pixel, so this is eight for even widths and four for odd
/// ones.
pub fn unpack_alignment(width: usize) -> (a: u32)
    requires
        4 * width <= usize::MAX,
    ensures
        a == spec_unpack_alignment(width as int),
        a == 8 || a == 4,
{
    let row_length_in_bytes: usize = 4 * width;
    if row_length_in_bytes % 8 == 0 {
        8
    } else if row_length_in_bytes % 4 == 0 {
        4
    } else if row_length_in_bytes % 2 == 0 {
        2
    } else {
        1
    }
}

/// Stored index `i` lies in the delta's target rectangle and its row was
/// already overwritten by the first `rows_done` delta rows (which fill
/// the stored rows top-down, i.e. highest stored row first).
pub open spec fn target_row_done(
    i: int,
    width: int,
    height: int,
    anchor_y: int,
    rows_done: int,
) -> bool {
    height - anchor_y - rows_done <= i / width < height - anchor_y
}

/// Row-major index arithmetic: the flat index of `(row, col)` divides
/// back into that row and column.
proof fn lemma_row_col_index(row: int, col: int, width: int, height: int)
    requires
        0 <= row < height,
        0 <= col < width,
    ensures
        (row * width + col) / width == row,
        (row * width + col) % width == col,
        0 <= row * width + col < height * width,
        height * width == width * height,
{
    vstd::arithmetic::div_mod::lemma_fundamental_div_mod_converse(
        row * width + col,
        width,
        row,
        col,
    );
    assert(0 <= row * width + col < height * width) by (nonlinear_arith)
        requires
            0 <= row < height,
            0 <= col < width,
    ;
    assert(height * width == width * height) by (nonlinear_arith);
}

} // verus!
