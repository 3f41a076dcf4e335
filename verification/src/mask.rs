//! Masks: decoding the encoded stream of a segment and shaping the decoded
//! bytes into a single-channel raster.

use vstd::prelude::*;
use crate::compositor::CompositeError;

verus! {

/// The error of the `png` decoder, `png::DecodingError`, carried as it is.
#[verifier::external_type_specification]
#[verifier::external_body]
pub struct ExDecodingError(png::DecodingError);

/// What the `png` decoder makes of a stream: nothing where it reports an
/// error, else the output buffer it filled for the first frame, together with
/// the number of bytes that the frame takes of it.
pub uninterp spec fn png_frame(stream: Seq<u8>) -> Option<(Seq<u8>, int)>;

/// Runs the `png` decoder over `stream`: `Decoder::new`, `Decoder::read_info`,
/// a zeroed buffer of `Reader::output_buffer_size` bytes, `Reader::next_frame`
/// into it, and `OutputInfo::buffer_size` of what that returns.
///
/// Nothing is proved of the decoder. The contract only gives its outcome the
/// name `png_frame`: the decoder reads nothing but the stream, so equal
/// streams decode alike.
#[verifier::external_body]
fn png_read_frame(stream: &[u8]) -> (r: Result<(Vec<u8>, usize), png::DecodingError>)
    ensures
        match r {
            Ok((buffer, used)) => png_frame(stream@) == Some((buffer@, used as int)),
            Err(_) => png_frame(stream@) is None,
        },
{
    let mut reader = png::Decoder::new(stream).read_info()?;
    let mut buffer = vec![0u8; reader.output_buffer_size()];
    let info = reader.next_frame(&mut buffer)?;
    Ok((buffer, info.buffer_size()))
}

/// The pixels of a decoded frame: the first `used` bytes of the buffer. A
/// count beyond the buffer is no frame.
pub open spec fn frame_pixels(buffer: Seq<u8>, used: int) -> Result<Seq<u8>, CompositeError> {
    if 0 <= used <= buffer.len() {
        Ok(buffer.subrange(0, used))
    } else {
        Err(CompositeError::MaskDecodeError)
    }
}

/// The decoded bytes of an encoded mask, or the decoding error.
pub open spec fn decoded_mask(stream: Seq<u8>) -> Result<Seq<u8>, CompositeError> {
    match png_frame(stream) {
        Some((buffer, used)) => frame_pixels(buffer, used),
        None => Err(CompositeError::MaskDecodeError),
    }
}

/// Cuts a frame buffer down to the bytes that the frame takes.
pub fn trim_frame(buffer: Vec<u8>, used: usize) -> (r: Result<Vec<u8>, CompositeError>)
    ensures
        r is Ok <==> used <= buffer@.len(),
        r is Ok ==> r->Ok_0@ == buffer@.subrange(0, used as int),
        r is Err ==> r->Err_0 == CompositeError::MaskDecodeError,
        match frame_pixels(buffer@, used as int) {
            Ok(pixels) => r is Ok && r->Ok_0@ == pixels,
            Err(e) => r is Err && r->Err_0 == e,
        },
{
    let mut pixels = buffer;
    if used <= pixels.len() {
        pixels.truncate(used);
        Ok(pixels)
    } else {
        Err(CompositeError::MaskDecodeError)
    }
}

/// Decodes the encoded mask of a segment into its bytes, row by row.
pub fn decode_mask(mask_bytes: &[u8]) -> (r: Result<Vec<u8>, CompositeError>)
    ensures
        match decoded_mask(mask_bytes@) {
            Ok(pixels) => r is Ok && r->Ok_0@ == pixels,
            Err(e) => r is Err && r->Err_0 == e,
        },
{
    match png_read_frame(mask_bytes) {
        Ok((buffer, used)) => trim_frame(buffer, used),
        Err(_) => Err(CompositeError::MaskDecodeError),
    }
}

/// A single-channel raster of `rows` by `cols` bytes, stored row by row.
#[derive(Debug)]
pub struct Mask {
    rows: usize,
    cols: usize,
    data: Vec<u8>,
}

impl View for Mask {
    type V = Seq<u8>;

    /// The mask bytes in storage order.
    closed spec fn view(&self) -> Seq<u8> {
        self.data@
    }
}

impl Mask {
    /// The number of rows.
    pub closed spec fn spec_rows(&self) -> usize {
        self.rows
    }

    /// The number of columns.
    pub closed spec fn spec_cols(&self) -> usize {
        self.cols
    }

    /// The storage holds exactly one byte for each place of the raster.
    #[verifier::type_invariant]
    closed spec fn well_formed(&self) -> bool {
        self.data@.len() == self.rows * self.cols <= usize::MAX
    }

    /// Takes `bytes` as a raster of `rows` by `cols`, row by row. Fails with
    /// `MaskDimensionMismatch` unless they fill it exactly.
    pub fn from_bytes(bytes: Vec<u8>, rows: usize, cols: usize) -> (r: Result<Mask, CompositeError>)
        ensures
            r is Ok <==> bytes@.len() == rows * cols,
            r is Err ==> r->Err_0 == CompositeError::MaskDimensionMismatch,
            r is Ok ==> r->Ok_0.spec_rows() == rows && r->Ok_0.spec_cols() == cols && r->Ok_0@
                == bytes@,
    {
        let given: usize = bytes.len();
        match rows.checked_mul(cols) {
            Some(len) => if len == given {
                Ok(Mask { rows, cols, data: bytes })
            } else {
                Err(CompositeError::MaskDimensionMismatch)
            },
            None => Err(CompositeError::MaskDimensionMismatch),
        }
    }

    /// The number of rows.
    #[verifier::when_used_as_spec(spec_rows)]
    pub fn rows(&self) -> (r: usize)
        ensures
            r == self.spec_rows(),
    {
        self.rows
    }

    /// The number of columns.
    #[verifier::when_used_as_spec(spec_cols)]
    pub fn cols(&self) -> (r: usize)
        ensures
            r == self.spec_cols(),
    {
        self.cols
    }

    /// The mask bytes in storage order.
    pub fn data(&self) -> (d: &Vec<u8>)
        ensures
            d@ == self@,
            d@.len() == self.spec_rows() * self.spec_cols(),
    {
        proof {
            use_type_invariant(self);
        }
        &self.data
    }

    /// The mask byte at (`row`, `col`), where that place exists.
    pub fn get(&self, row: usize, col: usize) -> (r: Option<u8>)
        ensures
            r is Some <==> row < self.spec_rows() && col < self.spec_cols(),
            r is Some ==> 0 <= row * self.spec_cols() + col < self@.len() && r->Some_0 == self@[row
                * self.spec_cols() + col],
    {
        proof {
            use_type_invariant(self);
        }
        if row < self.rows && col < self.cols {
            assert(0 <= row * self.cols && row * self.cols + self.cols <= self.rows * self.cols)
                by (nonlinear_arith)
                requires
                    0 <= row < self.rows,
                    0 <= self.cols,
            ;
            Some(self.data[row * self.cols + col])
        } else {
            None
        }
    }
}

} // verus!
