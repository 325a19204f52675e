//! Tray icon pixels and animation state.
//!
//! The cat animation has five PNG frames. A frame is decoded with the `png`
//! crate, optionally tinted (blue while the system is kept awake, orange while
//! the display is kept awake), and packed into 32-bit `0xAARRGGBB` words for a
//! top-down DIB section.
use vstd::prelude::*;

verus! {

/// Number of frames in the cat animation.
pub const FRAME_COUNT: usize = 5;

/// Icon color, following the sleep prevention mode.
#[derive(Debug, Clone, Copy, PartialEq, Eq, Structural)]
pub enum IconColor {
    Default,
    /// Preventing system sleep.
    Blue,
    /// Preventing display sleep.
    Orange,
}

/// `x + y`, or 255 where that does not fit in a byte.
pub open spec fn sat_add_u8(x: u8, y: u8) -> u8 {
    if x + y > 255 {
        255
    } else {
        (x + y) as u8
    }
}

/// The red, green and blue channels after tinting with `color`.
pub open spec fn tint(color: IconColor, r: u8, g: u8, b: u8) -> (u8, u8, u8) {
    match color {
        IconColor::Blue => ((r / 3) as u8, (g / 3) as u8, sat_add_u8(b, 100)),
        IconColor::Orange => (sat_add_u8(r, 100), (g / 2) as u8, (b / 4) as u8),
        IconColor::Default => (r, g, b),
    }
}

/// The 32-bit word `0xAARRGGBB`.
pub open spec fn argb_word(a: u8, r: u8, g: u8, b: u8) -> u32 {
    (a * 0x1000000 + r * 0x10000 + g * 0x100 + b) as u32
}

/// The word for the RGBA pixel that starts at byte `4 * i` of `rgba`.
pub open spec fn pixel_word(color: IconColor, rgba: Seq<u8>, i: int) -> u32 {
    let t = tint(color, rgba[4 * i], rgba[4 * i + 1], rgba[4 * i + 2]);
    argb_word(rgba[4 * i + 3], t.0, t.1, t.2)
}

/// The words of all pixels of an RGBA buffer, in order.
pub open spec fn pixel_words(color: IconColor, rgba: Seq<u8>) -> Seq<u32> {
    Seq::new(rgba.len() / 4, |i: int| pixel_word(color, rgba, i))
}

/// Tints the channels of one pixel.
pub fn tint_pixel(color: IconColor, r: u8, g: u8, b: u8) -> (res: (u8, u8, u8))
    ensures
        res == tint(color, r, g, b),
{
    match color {
        IconColor::Blue => (r / 3, g / 3, b.saturating_add(100)),
        IconColor::Orange => (r.saturating_add(100), g / 2, b / 4),
        IconColor::Default => (r, g, b),
    }
}

/// Packs alpha, red, green and blue into one `0xAARRGGBB` word.
pub fn pack_argb(a: u8, r: u8, g: u8, b: u8) -> (w: u32)
    ensures
        w == argb_word(a, r, g, b),
{
    let w = ((a as u32) << 24) | ((r as u32) << 16) | ((g as u32) << 8) | (b as u32);
    assert(w == argb_word(a, r, g, b)) by (bit_vector)
        requires
            w == ((a as u32) << 24) | ((r as u32) << 16) | ((g as u32) << 8) | (b as u32),
    ;
    w
}

/// Converts a buffer of RGBA pixels into tinted `0xAARRGGBB` words, one per pixel.
pub fn tinted_pixels(rgba: &[u8], color: IconColor) -> (words: Vec<u32>)
    requires
        rgba@.len() % 4 == 0,
    ensures
        words@ == pixel_words(color, rgba@),
{
    let n = rgba.len() / 4;
    let mut words: Vec<u32> = Vec::new();
    let mut i: usize = 0;
    while i < n
        invariant
            n == rgba@.len() / 4,
            rgba@.len() % 4 == 0,
            i <= n,
            words@.len() == i,
            forall|j: int| 0 <= j < i ==> words@[j] == pixel_word(color, rgba@, j),
        decreases n - i,
    {
        assert(4 * i + 3 < rgba@.len()) by (nonlinear_arith)
            requires
                i < n,
                n == rgba@.len() / 4,
        ;
        assert(rgba@.len() == rgba.len());
        let base = 4 * i;
        let (r, g, b) = tint_pixel(color, rgba[base], rgba[base + 1], rgba[base + 2]);
        let w = pack_argb(rgba[base + 3], r, g, b);
        words.push(w);
        i = i + 1;
    }
    assert(words@ =~= pixel_words(color, rgba@));
    words
}

/// A decoded and tinted icon frame.
pub struct IconBitmap {
    pub width: u32,
    pub height: u32,
    /// One `0xAARRGGBB` word per pixel, row by row from the top.
    pub pixels: Vec<u32>,
}

/// Why a frame could not be turned into a bitmap.
#[derive(Debug, Clone, Copy, PartialEq, Eq, Structural)]
pub enum IconError {
    /// The PNG data could not be decoded.
    Decode,
    /// The decoded buffer does not split into whole 4-byte pixels.
    PartialPixel,
}

#[verifier::external_type_specification]
#[verifier::external_body]
pub struct ExPngDecodingError(png::DecodingError);

/// What the `png` crate decodes from the bytes of a PNG file: the width, the
/// height and the bytes of the first frame, or `None` where decoding fails.
pub uninterp spec fn png_decoded(data: Seq<u8>) -> Option<(u32, u32, Seq<u8>)>;

/// Decodes the first frame of a PNG file with `png::Decoder`: `read_info`,
/// then `next_frame` into a buffer of `Reader::output_buffer_size` bytes.
/// The contract claims only that the outcome is a function of the bytes,
/// named `png_decoded`; what the decoder computes is not stated.
#[verifier::external_body]
fn decode_png(data: &[u8]) -> (res: Result<(u32, u32, Vec<u8>), png::DecodingError>)
    ensures
        match res {
            Ok((w, h, buf)) => png_decoded(data@) == Some((w, h, buf@)),
            Err(_) => png_decoded(data@) is None,
        },
{
    let decoder = png::Decoder::new(std::io::Cursor::new(data));
    let mut reader = decoder.read_info()?;
    let mut buf = vec![0; reader.output_buffer_size()];
    reader.next_frame(&mut buf)?;
    let info = reader.info();
    Ok((info.width, info.height, buf))
}

/// The bitmap for decoded RGBA data, tinted with `color`.
pub open spec fn bitmap_spec(
    decoded: Option<(u32, u32, Seq<u8>)>,
    color: IconColor,
) -> Result<(u32, u32, Seq<u32>), IconError> {
    match decoded {
        None => Err(IconError::Decode),
        Some((w, h, rgba)) => if rgba.len() % 4 == 0 {
            Ok((w, h, pixel_words(color, rgba)))
        } else {
            Err(IconError::PartialPixel)
        },
    }
}

/// The index of the frame that is shown for animation step `frame`: the
/// step itself, capped at the last frame.
pub open spec fn frame_slot(frame: usize) -> usize {
    if frame < FRAME_COUNT {
        frame
    } else {
        (FRAME_COUNT - 1) as usize
    }
}

/// Law: every animation step shows one of the frames, and every step past
/// the last frame shows the last frame, so that `load_frame_bitmap` gives for
/// it what it gives for the last frame.
pub proof fn later_steps_show_last_frame(frame: usize)
    ensures
        frame_slot(frame) < FRAME_COUNT,
        frame >= FRAME_COUNT - 1 ==> frame_slot(frame) == frame_slot((FRAME_COUNT - 1) as usize),
{
}

/// Decodes and tints the PNG frame `frame` (capped at the last one) of the
/// animation `frames`.
pub fn load_frame_bitmap(frames: &[&[u8]], frame: usize, color: IconColor) -> (res: Result<
    IconBitmap,
    IconError,
>)
    requires
        frames@.len() == FRAME_COUNT,
    ensures
        match res {
            Ok(bm) => bitmap_spec(png_decoded(frames@[frame_slot(frame) as int]@), color) == Ok::<
                (u32, u32, Seq<u32>),
                IconError,
            >((bm.width, bm.height, bm.pixels@)),
            Err(e) => bitmap_spec(png_decoded(frames@[frame_slot(frame) as int]@), color) == Err::<
                (u32, u32, Seq<u32>),
                IconError,
            >(e),
        },
{
    let slot = if frame < FRAME_COUNT {
        frame
    } else {
        FRAME_COUNT - 1
    };
    let data: &[u8] = frames[slot];
    match decode_png(data) {
        Err(_) => Err(IconError::Decode),
        Ok((width, height, rgba)) => bitmap_from_rgba(width, height, &rgba, color),
    }
}

/// Tints decoded RGBA data into a bitmap; refuses data that does not split
/// into whole pixels.
pub fn bitmap_from_rgba(width: u32, height: u32, rgba: &[u8], color: IconColor) -> (res: Result<
    IconBitmap,
    IconError,
>)
    ensures
        match res {
            Ok(bm) => bitmap_spec(Some((width, height, rgba@)), color) == Ok::<
                (u32, u32, Seq<u32>),
                IconError,
            >((bm.width, bm.height, bm.pixels@)),
            Err(e) => bitmap_spec(Some((width, height, rgba@)), color) == Err::<
                (u32, u32, Seq<u32>),
                IconError,
            >(e),
        },
{
    if rgba.len() % 4 != 0 {
        return Err(IconError::PartialPixel);
    }
    let pixels = tinted_pixels(rgba, color);
    Ok(IconBitmap { width, height, pixels })
}

/// Animation state of the tray icon: the frame on show and the tint.
pub struct IconAnimation {
    current_frame: usize,
    color: IconColor,
}

impl IconAnimation {
    /// The frame on show.
    pub closed spec fn frame(self) -> nat {
        self.current_frame as nat
    }

    /// The tint in use.
    pub closed spec fn tint_color(self) -> IconColor {
        self.color
    }

    /// The frame index stays within the animation.
    #[verifier::type_invariant]
    spec fn wf(self) -> bool {
        self.current_frame < FRAME_COUNT
    }

    /// Starts at the first frame, untinted.
    pub fn new() -> (a: Self)
        ensures
            a.frame() == 0,
            a.tint_color() == IconColor::Default,
    {
        IconAnimation { current_frame: 0, color: IconColor::Default }
    }

    /// The frame on show.
    pub fn current_frame(&self) -> (f: usize)
        ensures
            f == self.frame(),
            f < FRAME_COUNT,
    {
        proof {
            use_type_invariant(self);
        }
        self.current_frame
    }

    /// The tint in use.
    pub fn color(&self) -> (c: IconColor)
        ensures
            c == self.tint_color(),
    {
        self.color
    }

    /// Moves on to the next frame, wrapping after the last one; returns it.
    pub fn advance(&mut self) -> (f: usize)
        ensures
            final(self).frame() == (old(self).frame() + 1) % (FRAME_COUNT as nat),
            final(self).tint_color() == old(self).tint_color(),
            f == final(self).frame(),
    {
        proof {
            use_type_invariant(&*self);
        }
        self.current_frame = (self.current_frame + 1) % FRAME_COUNT;
        self.current_frame
    }

    /// Sets the tint; returns whether it changed, that is whether the frame
    /// on show has to be drawn again.
    pub fn set_color(&mut self, color: IconColor) -> (changed: bool)
        ensures
            final(self).tint_color() == color,
            final(self).frame() == old(self).frame(),
            changed == (old(self).tint_color() != color),
    {
        proof {
            use_type_invariant(&*self);
        }
        if self.color != color {
            self.color = color;
            true
        } else {
            false
        }
    }
}

} // verus!
