//! From a height grid to colours, and from colours to the row-major RGB8
//! byte raster and its PNG encoding.

use crate::binary64::Binary64;
use crate::biome::{biome_of, classify, color_of};
use vstd::prelude::*;

verus! {

/// The row-major RGB8 bytes of a height grid: three bytes per cell.
pub open spec fn raster_of(heights: Seq<Binary64>) -> Seq<u8> {
    Seq::new(3 * heights.len(), |j: int| color_of(biome_of(heights[j / 3]))[j % 3])
}

/// The raster holds three bytes per cell, and the three bytes of cell `i` are
/// the colour of the biome that the ladder gives its height.
pub proof fn lemma_raster_cells(heights: Seq<Binary64>)
    ensures
        raster_of(heights).len() == 3 * heights.len(),
        forall|i: int| 0 <= i < heights.len() ==> #[trigger] raster_of(heights).subrange(3 * i, 3 * i + 3)
            == color_of(biome_of(heights[i])),
{
    assert forall|i: int| 0 <= i < heights.len() implies #[trigger] raster_of(heights).subrange(
        3 * i,
        3 * i + 3,
    ) == color_of(biome_of(heights[i])) by {
        let b = biome_of(heights[i]);
        assert(color_of(b).len() == 3);
        assert forall|k: int| 0 <= k < 3 implies raster_of(heights).subrange(3 * i, 3 * i + 3)[k]
            == color_of(b)[k] by {
            assert((3 * i + k) / 3 == i);
            assert((3 * i + k) % 3 == k);
        }
        assert(raster_of(heights).subrange(3 * i, 3 * i + 3) =~= color_of(b));
    }
}

/// The triples of a colour grid laid end to end.
pub open spec fn flatten(colors: Seq<[u8; 3]>) -> Seq<u8> {
    Seq::new(3 * colors.len(), |j: int| colors[j / 3]@[j % 3])
}

/// The colour of every cell of a height grid, in the same order.
pub fn color_grid(heights: &Vec<Binary64>) -> (r: Vec<[u8; 3]>)
    ensures
        r@.len() == heights@.len(),
        forall|i: int| 0 <= i < r@.len() ==> #[trigger] r@[i]@ == color_of(biome_of(heights@[i])),
{
    let mut out: Vec<[u8; 3]> = Vec::new();
    let mut i: usize = 0;
    while i < heights.len()
        invariant
            i <= heights@.len(),
            out@.len() == i,
            forall|k: int| 0 <= k < i ==> #[trigger] out@[k]@ == color_of(biome_of(heights@[k])),
        decreases heights@.len() - i,
    {
        out.push(classify(heights[i]).color());
        i += 1;
    }
    out
}

/// Lays the colour triples end to end: byte `3 * i + k` is channel `k` of cell `i`.
pub fn assemble(colors: &Vec<[u8; 3]>) -> (r: Vec<u8>)
    requires
        3 * colors@.len() <= usize::MAX,
    ensures
        r@ == flatten(colors@),
        r@.len() == 3 * colors@.len(),
{
    let mut out: Vec<u8> = Vec::new();
    let mut i: usize = 0;
    while i < colors.len()
        invariant
            i <= colors@.len(),
            3 * colors@.len() <= usize::MAX,
            out@.len() == 3 * i,
            forall|j: int| 0 <= j < 3 * i ==> #[trigger] out@[j] == colors@[j / 3]@[j % 3],
        decreases colors@.len() - i,
    {
        let c: [u8; 3] = colors[i];
        out.push(c[0]);
        out.push(c[1]);
        out.push(c[2]);
        assert forall|j: int| 0 <= j < 3 * (i + 1) implies #[trigger] out@[j] == colors@[j / 3]@[j % 3] by {
            if j >= 3 * i {
                assert(j / 3 == i);
            }
        }
        i += 1;
    }
    assert(out@ =~= flatten(colors@));
    out
}

/// Classifies and lays out a height grid in one pass: the RGB8 raster.
pub fn render(heights: &Vec<Binary64>) -> (r: Vec<u8>)
    requires
        3 * heights@.len() <= usize::MAX,
    ensures
        r@ == raster_of(heights@),
        r@.len() == 3 * heights@.len(),
{
    let colors = color_grid(heights);
    let r = assemble(&colors);
    assert(r@ =~= raster_of(heights@));
    r
}

#[verifier::external_type_specification]
#[verifier::external_body]
pub struct ExEncodingError(png::EncodingError);

/// The PNG file that png's encoder writes for an RGB, 8-bit image of the
/// given size and pixel bytes.
pub uninterp spec fn png_rgb8_of(width: u32, height: u32, pixels: Seq<u8>) -> Seq<u8>;

/// Relies on png's `Encoder` (`new`, `set_color(Rgb)`, `set_depth(Eight)`,
/// `write_header`) and `Writer` (`write_image_data`, `finish`): what it
/// writes on success depends on the size and the pixels alone, and it fails
/// only on a zero width or height, a pixel buffer of the wrong length, or an
/// I/O error, which writing into a `Vec` never raises.
#[verifier::external_body]
pub(crate) fn encode_png(width: u32, height: u32, pixels: &[u8]) -> (r: Result<Vec<u8>, png::EncodingError>)
    requires
        3 * (width as int * height as int) <= usize::MAX,
    ensures
        r matches Ok(bytes) ==> bytes@ == png_rgb8_of(width, height, pixels@),
        width > 0 && height > 0 && pixels@.len() == 3 * (width as int * height as int) ==> (r is Ok),
{
    let mut out: Vec<u8> = Vec::new();
    let mut encoder = png::Encoder::new(&mut out, width, height);
    encoder.set_color(png::ColorType::Rgb);
    encoder.set_depth(png::BitDepth::Eight);
    let mut writer = encoder.write_header()?;
    writer.write_image_data(pixels)?;
    writer.finish()?;
    Ok(out)
}

} // verus!
