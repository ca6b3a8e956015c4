use vstd::prelude::*;
use image::{ImageBuffer, Rgba};

verus! {

/// A texture object of the graphics driver, named by `id`, together with the
/// size of the image it was made from. Textures carry an alpha channel.
#[derive(Clone, Copy, PartialEq, Eq, Structural, Debug)]
pub struct Texture {
    pub id: u32,
    pub width: u32,
    pub height: u32,
}

/// Number of bytes in one row of an RGBA8 image `width` pixels wide.
pub open spec fn row_bytes(width: nat) -> int {
    4 * width as int
}

/// The bytes of a row-major RGBA8 image `width` by `height` pixels with its
/// rows in reverse order: byte `i`, in row `i / row_bytes` at offset
/// `i % row_bytes`, comes from the same offset of row `height - 1 - i / row_bytes`.
pub open spec fn spec_flip_vertical(width: nat, height: nat, pixels: Seq<u8>) -> Seq<u8> {
    Seq::new(
        pixels.len(),
        |i: int|
            pixels[(height - 1 - i / row_bytes(width)) * row_bytes(width) + i % row_bytes(width)],
    )
}

/// Calls `image::imageops::flip_vertical_in` on the RGBA8 image whose raw
/// row-major bytes are `pixels`, writing into a copy of that image, and hands
/// back the raw bytes of the copy. The claim: the pixel at `(x, y)` of the
/// result is the pixel at `(x, height - 1 - y)` of the input, which the loop in
/// the crate's source writes for every pixel when the two sizes agree.
#[verifier::external_body]
fn flip_vertical_rgba8(width: u32, height: u32, pixels: Vec<u8>) -> (flipped: Vec<u8>)
    requires
        pixels@.len() == width as int * height as int * 4,
        width as int * 4 <= usize::MAX,
    ensures
        flipped@ == spec_flip_vertical(width as nat, height as nat, pixels@),
{
    let image: ImageBuffer<Rgba<u8>, Vec<u8>> = ImageBuffer::from_raw(width, height, pixels).unwrap();
    let mut flipped = image.clone();
    let _ = image::imageops::flip_vertical_in(&image, &mut flipped);
    flipped.into_raw()
}

impl Texture {
    /// Prepares the texture named `id` by the driver from a decoded RGBA8
    /// image `width` by `height` pixels (`pixels` holds its rows top to
    /// bottom). Returns the texture record and the pixel rows bottom to top,
    /// the order in which they are uploaded. The image sizes are computed in
    /// `usize`, four bytes per pixel across a row first.
    pub fn new(id: u32, width: u32, height: u32, pixels: Vec<u8>) -> (res: (Texture, Vec<u8>))
        requires
            pixels@.len() == width as int * height as int * 4,
            width as int * 4 <= usize::MAX,
        ensures
            res.0 == (Texture { id, width, height }),
            res.1@ == spec_flip_vertical(width as nat, height as nat, pixels@),
    {
        let flipped = flip_vertical_rgba8(width, height, pixels);
        (Texture { id, width, height }, flipped)
    }
}

/// Flipping the rows of an image twice gives back the image.
pub proof fn lemma_flip_vertical_involution(width: nat, height: nat, pixels: Seq<u8>)
    requires
        pixels.len() == width * height * 4,
    ensures
        spec_flip_vertical(width, height, spec_flip_vertical(width, height, pixels)) == pixels,
{
    let once = spec_flip_vertical(width, height, pixels);
    let twice = spec_flip_vertical(width, height, once);
    let s = row_bytes(width);
    assert forall|i: int| 0 <= i < pixels.len() implies #[trigger] twice[i] == pixels[i] by {
        assert(width > 0 && height > 0) by (nonlinear_arith)
            requires pixels.len() == width * height * 4, 0 <= i < pixels.len();
        let r = i / s;
        let o = i % s;
        assert(0 <= o < s);
        assert(i == r * s + o) by (nonlinear_arith) requires s > 0, r == i / s, o == i % s;
        assert(0 <= r < height) by (nonlinear_arith)
            requires i == r * s + o, 0 <= o < s, s == 4 * width, 0 <= i < width * height * 4, i >= 0;
        let j = (height - 1 - r) * s + o;
        vstd::arithmetic::div_mod::lemma_fundamental_div_mod_converse(j, s, height - 1 - r, o);
        assert(0 <= j < pixels.len()) by (nonlinear_arith)
            requires j == (height - 1 - r) * s + o, 0 <= r < height, 0 <= o < s, s == 4 * width,
                pixels.len() == width * height * 4;
        assert(once[j] == pixels[(height - 1 - (height - 1 - r)) * s + o]);
    }
    assert(twice =~= pixels);
}

} // verus!
