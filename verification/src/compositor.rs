//! Applying a decoded mask to an image.

use vstd::prelude::*;
use vstd::string::StringExecFns;
use crate::image::{channel_offset, lemma_offset_in_range, Image, CHANNELS};
use crate::mask::{decode_mask, decoded_mask, Mask};

verus! {

/// Why an image could not be composited with a mask.
#[derive(Debug, Clone, Copy, PartialEq, Eq)]
pub enum CompositeError {
    /// The mask bytes are not a valid raster stream.
    MaskDecodeError,
    /// The decoded mask does not hold one byte for each pixel of the image.
    MaskDimensionMismatch,
}

impl CompositeError {
    /// The text of the diagnostic for this error.
    pub open spec fn message_of(self) -> Seq<char> {
        match self {
            CompositeError::MaskDecodeError => "Mask is not a valid raster image."@,
            CompositeError::MaskDimensionMismatch => "Mask does not have the dimensions of the image."@,
        }
    }

    /// The diagnostic for this error.
    pub fn message(&self) -> (m: String)
        ensures
            m@ == self.message_of(),
    {
        match self {
            CompositeError::MaskDecodeError => String::from_str("Mask is not a valid raster image."),
            CompositeError::MaskDimensionMismatch => String::from_str(
                "Mask does not have the dimensions of the image.",
            ),
        }
    }
}

/// The channel bytes of an image after masking: each channel byte of a pixel
/// is ANDed, bit by bit, with the mask byte of that pixel.
///
/// A mask byte of `0xFF` keeps the pixel and one of `0x00` clears it. Any
/// other mask byte keeps of each channel exactly the bits that the mask byte
/// has set.
pub open spec fn masked(pixels: Seq<u8>, mask: Seq<u8>) -> Seq<u8> {
    Seq::new(pixels.len(), |i: int| pixels[i] & mask[i / CHANNELS as int])
}

/// What compositing yields from the channel bytes of an image of `rows` by
/// `cols` pixels and the outcome of decoding its mask.
pub open spec fn composited(
    pixels: Seq<u8>,
    rows: int,
    cols: int,
    decoded: Result<Seq<u8>, CompositeError>,
) -> Result<Seq<u8>, CompositeError> {
    match decoded {
        Ok(mask) => if mask.len() == rows * cols {
            Ok(masked(pixels, mask))
        } else {
            Err(CompositeError::MaskDimensionMismatch)
        },
        Err(e) => Err(e),
    }
}

/// An outcome of compositing agrees with `expected`: the same error, or an
/// image of `rows` by `cols` pixels with the expected channel bytes.
pub open spec fn yields(
    outcome: Result<Image, CompositeError>,
    rows: int,
    cols: int,
    expected: Result<Seq<u8>, CompositeError>,
) -> bool {
    match expected {
        Ok(bytes) => outcome is Ok && outcome->Ok_0@ == bytes && outcome->Ok_0.spec_rows() == rows
            && outcome->Ok_0.spec_cols() == cols,
        Err(e) => outcome is Err && outcome->Err_0 == e,
    }
}

/// A mask is full where every byte of it has all bits set.
pub open spec fn is_full(mask: Seq<u8>) -> bool {
    forall|i: int| 0 <= i < mask.len() ==> mask[i] == 0xFFu8
}

/// A mask is empty where every byte of it is zero.
pub open spec fn is_empty(mask: Seq<u8>) -> bool {
    forall|i: int| 0 <= i < mask.len() ==> mask[i] == 0u8
}

/// A mask is binary where every byte of it is `0x00` or `0xFF`.
pub open spec fn is_binary(mask: Seq<u8>) -> bool {
    forall|i: int| 0 <= i < mask.len() ==> mask[i] == 0u8 || mask[i] == 0xFFu8
}

/// Compositing with a full mask gives the image back, byte for byte.
pub proof fn lemma_full_mask_keeps_image(pixels: Seq<u8>, rows: int, cols: int, mask: Seq<u8>)
    requires
        pixels.len() == rows * cols * CHANNELS,
        mask.len() == rows * cols,
        is_full(mask),
    ensures
        composited(pixels, rows, cols, Ok(mask)) == Ok::<Seq<u8>, CompositeError>(pixels),
{
    assert forall|i: int| 0 <= i < pixels.len() implies masked(pixels, mask)[i] == pixels[i] by {
        let x = pixels[i];
        let m = mask[i / CHANNELS as int];
        assert(m == 0xFFu8);
        assert(x & 0xFFu8 == x) by (bit_vector);
    }
    assert(masked(pixels, mask) =~= pixels);
}

/// Compositing with an empty mask gives an image of the same size whose
/// every channel byte is zero.
pub proof fn lemma_empty_mask_clears_image(pixels: Seq<u8>, rows: int, cols: int, mask: Seq<u8>)
    requires
        pixels.len() == rows * cols * CHANNELS,
        mask.len() == rows * cols,
        is_empty(mask),
    ensures
        composited(pixels, rows, cols, Ok(mask)) == Ok::<Seq<u8>, CompositeError>(
            Seq::new(pixels.len(), |i: int| 0u8),
        ),
{
    assert forall|i: int| 0 <= i < pixels.len() implies masked(pixels, mask)[i] == 0u8 by {
        let x = pixels[i];
        let m = mask[i / CHANNELS as int];
        assert(m == 0u8);
        assert(x & 0u8 == 0u8) by (bit_vector);
    }
    assert(masked(pixels, mask) =~= Seq::new(pixels.len(), |i: int| 0u8));
}

/// Under a binary mask every pixel passes whole or is cleared whole: a
/// channel byte stays as it is where the mask byte of its pixel is not zero,
/// and becomes zero where it is.
pub proof fn lemma_binary_mask_selects(pixels: Seq<u8>, mask: Seq<u8>)
    requires
        pixels.len() == mask.len() * CHANNELS,
        is_binary(mask),
    ensures
        forall|i: int|
            0 <= i < pixels.len() ==> #[trigger] masked(pixels, mask)[i] == if mask[i
                / CHANNELS as int] != 0u8 {
                pixels[i]
            } else {
                0u8
            },
{
    assert forall|i: int| 0 <= i < pixels.len() implies #[trigger] masked(pixels, mask)[i] == if mask[i
        / CHANNELS as int] != 0u8 {
        pixels[i]
    } else {
        0u8
    } by {
        let x = pixels[i];
        let m = mask[i / CHANNELS as int];
        assert(m == 0u8 || m == 0xFFu8);
        assert(x & 0xFFu8 == x) by (bit_vector);
        assert(x & 0u8 == 0u8) by (bit_vector);
    }
}

/// In the output, each channel of the pixel at (`row`, `col`) is that channel
/// of the image ANDed with the mask byte at (`row`, `col`).
pub proof fn lemma_masked_pixel(
    pixels: Seq<u8>,
    mask: Seq<u8>,
    rows: int,
    cols: int,
    row: int,
    col: int,
    channel: int,
)
    requires
        pixels.len() == rows * cols * CHANNELS,
        mask.len() == rows * cols,
        0 <= row < rows,
        0 <= col < cols,
        0 <= channel < CHANNELS,
    ensures
        0 <= channel_offset(cols, row, col, channel) < pixels.len(),
        0 <= row * cols + col < mask.len(),
        masked(pixels, mask)[channel_offset(cols, row, col, channel)] == pixels[channel_offset(
            cols,
            row,
            col,
            channel,
        )] & mask[row * cols + col],
{
    lemma_offset_in_range(rows, cols, row, col, channel);
}

/// Masking a second time with the same mask changes nothing.
pub proof fn lemma_masking_twice(pixels: Seq<u8>, mask: Seq<u8>)
    ensures
        masked(masked(pixels, mask), mask) == masked(pixels, mask),
{
    assert forall|i: int| 0 <= i < pixels.len() implies masked(masked(pixels, mask), mask)[i]
        == masked(pixels, mask)[i] by {
        let x = pixels[i];
        let m = mask[i / CHANNELS as int];
        assert((x & m) & m == x & m) by (bit_vector);
    }
    assert(masked(masked(pixels, mask), mask) =~= masked(pixels, mask));
}

/// A decoded mask that does not hold one byte for each pixel is refused,
/// whatever it holds.
pub proof fn lemma_wrong_size_is_refused(pixels: Seq<u8>, rows: int, cols: int, mask: Seq<u8>)
    requires
        mask.len() != rows * cols,
    ensures
        composited(pixels, rows, cols, Ok(mask)) == Err::<Seq<u8>, CompositeError>(
            CompositeError::MaskDimensionMismatch,
        ),
{
}

/// Masks `image` with `mask`. Fails with `MaskDimensionMismatch` unless the
/// mask has the image's rows and columns.
///
/// The output is a fresh image of the same shape, set to zero and then filled
/// pixel by pixel and channel by channel; the input is left as it is.
pub fn apply_mask(image: &Image, mask: &Mask) -> (r: Result<Image, CompositeError>)
    ensures
        r is Ok <==> mask.spec_rows() == image.spec_rows() && mask.spec_cols()
            == image.spec_cols(),
        r is Err ==> r->Err_0 == CompositeError::MaskDimensionMismatch,
        r is Ok ==> r->Ok_0.spec_rows() == image.spec_rows() && r->Ok_0.spec_cols()
            == image.spec_cols() && r->Ok_0@ == masked(image@, mask@),
{
    if mask.rows() != image.rows() || mask.cols() != image.cols() {
        return Err(CompositeError::MaskDimensionMismatch);
    }
    let source = image.data();
    let cover = mask.data();
    let pixels: usize = cover.len();
    let mut out = vec![0u8; source.len()];
    let mut p: usize = 0;
    while p < pixels
        invariant
            p <= pixels,
            pixels == cover@.len(),
            source@.len() == pixels * CHANNELS <= usize::MAX,
            out@.len() == source@.len(),
            forall|i: int| 0 <= i < p * CHANNELS ==> out@[i] == source@[i] & cover@[i / CHANNELS as int],
            forall|i: int| p * CHANNELS <= i < out@.len() ==> out@[i] == 0u8,
        decreases pixels - p,
    {
        let m: u8 = cover[p];
        let mut c: usize = 0;
        while c < CHANNELS
            invariant
                p < pixels,
                c <= CHANNELS,
                pixels == cover@.len(),
                m == cover@[p as int],
                source@.len() == pixels * CHANNELS <= usize::MAX,
                out@.len() == source@.len(),
                forall|i: int| 0 <= i < p * CHANNELS + c ==> out@[i] == source@[i] & cover@[i / CHANNELS as int],
                forall|i: int| p * CHANNELS + c <= i < out@.len() ==> out@[i] == 0u8,
            decreases CHANNELS - c,
        {
            let at: usize = p * CHANNELS + c;
            out.set(at, source[at] & m);
            c += 1;
        }
        p += 1;
    }
    assert(out@ =~= masked(image@, mask@));
    Ok(Image::new(image.rows(), image.cols(), out).unwrap())
}

/// Composites `image` with the decoded bytes of its mask: the bytes are taken
/// as a raster of the image's rows and columns, row by row, one byte for each
/// pixel, and the image is masked with it.
pub fn composite_decoded(image: &Image, decoded: Vec<u8>) -> (r: Result<Image, CompositeError>)
    ensures
        r is Ok <==> decoded@.len() == image.spec_rows() * image.spec_cols(),
        r is Err ==> r->Err_0 == CompositeError::MaskDimensionMismatch,
        r is Ok ==> r->Ok_0.spec_rows() == image.spec_rows() && r->Ok_0.spec_cols()
            == image.spec_cols() && r->Ok_0@ == masked(image@, decoded@),
        yields(
            r,
            image.spec_rows() as int,
            image.spec_cols() as int,
            composited(
                image@,
                image.spec_rows() as int,
                image.spec_cols() as int,
                Ok(decoded@),
            ),
        ),
{
    match Mask::from_bytes(decoded, image.rows(), image.cols()) {
        Ok(mask) => apply_mask(image, &mask),
        Err(e) => Err(e),
    }
}

/// Composites `image` with the mask encoded in `mask_bytes`.
///
/// The mask is decoded, taken as a raster of the image's rows and columns,
/// and ANDed onto every channel of the image. Fails with `MaskDecodeError`
/// where the bytes do not decode, and with `MaskDimensionMismatch` where the
/// decoded mask does not hold one byte for each pixel of the image.
pub fn composite(image: &Image, mask_bytes: &[u8]) -> (r: Result<Image, CompositeError>)
    ensures
        yields(
            r,
            image.spec_rows() as int,
            image.spec_cols() as int,
            composited(
                image@,
                image.spec_rows() as int,
                image.spec_cols() as int,
                decoded_mask(mask_bytes@),
            ),
        ),
        decoded_mask(mask_bytes@) is Err ==> r is Err && r->Err_0
            == CompositeError::MaskDecodeError,
        decoded_mask(mask_bytes@) is Ok ==> (r is Ok <==> decoded_mask(mask_bytes@)->Ok_0.len()
            == image.spec_rows() * image.spec_cols()),
        decoded_mask(mask_bytes@) is Ok && r is Err ==> r->Err_0
            == CompositeError::MaskDimensionMismatch,
{
    match decode_mask(mask_bytes) {
        Ok(decoded) => composite_decoded(image, decoded),
        Err(e) => Err(e),
    }
}

} // verus!
