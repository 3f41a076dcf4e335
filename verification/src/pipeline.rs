//! The per-image pipeline: resolve a segment, then composite its mask.

use vstd::prelude::*;
use crate::compositor::{composite, composited, yields, CompositeError};
use crate::image::Image;
use crate::mask::decoded_mask;
use crate::resolver::{label_view, resolve, selection, ResolutionError};
use crate::segment::Segment;

verus! {

/// Why an image could not be segmented.
#[derive(Debug, Clone, Copy, PartialEq, Eq)]
pub enum SegmentationError {
    /// No segment could be chosen.
    Resolution(ResolutionError),
    /// The chosen segment's mask could not be applied.
    Composite(CompositeError),
}

impl SegmentationError {
    /// The text of the diagnostic for this error: that of the step that
    /// failed.
    pub open spec fn message_of(self) -> Seq<char> {
        match self {
            SegmentationError::Resolution(e) => e.message_of(),
            SegmentationError::Composite(e) => e.message_of(),
        }
    }

    /// The diagnostic for this error.
    pub fn message(&self) -> (m: String)
        ensures
            m@ == self.message_of(),
    {
        match self {
            SegmentationError::Resolution(e) => e.message(),
            SegmentationError::Composite(e) => e.message(),
        }
    }
}

/// What segmenting yields: the channel bytes of the output image, or the
/// error of the step that failed. Resolution comes first, so a request that
/// selects nothing fails with the resolver's error whatever the masks hold.
pub open spec fn segmented(
    pixels: Seq<u8>,
    rows: int,
    cols: int,
    segments: Seq<Segment>,
    index: Option<usize>,
    label: Option<Seq<char>>,
) -> Result<Seq<u8>, SegmentationError> {
    match selection(segments, index, label) {
        Ok(k) => match composited(pixels, rows, cols, decoded_mask(segments[k].mask@)) {
            Ok(bytes) => Ok(bytes),
            Err(e) => Err(SegmentationError::Composite(e)),
        },
        Err(e) => Err(SegmentationError::Resolution(e)),
    }
}

/// Selects one segment of the manifest by `index` or `label` and composites
/// its mask onto `image`.
///
/// Neither the image nor the manifest is changed; the output is a fresh image
/// of the shape of `image`.
pub fn perform_segmentation(
    image: &Image,
    segments: &Vec<Segment>,
    index: Option<usize>,
    label: &Option<String>,
) -> (r: Result<Image, SegmentationError>)
    ensures
        match segmented(
            image@,
            image.spec_rows() as int,
            image.spec_cols() as int,
            segments@,
            index,
            label_view(*label),
        ) {
            Ok(bytes) => r is Ok && r->Ok_0@ == bytes && r->Ok_0.spec_rows() == image.spec_rows()
                && r->Ok_0.spec_cols() == image.spec_cols(),
            Err(e) => r is Err && r->Err_0 == e,
        },
{
    let segment = match resolve(segments, index, label) {
        Ok(segment) => segment,
        Err(e) => {
            return Err(SegmentationError::Resolution(e));
        },
    };
    match composite(image, segment.mask.as_slice()) {
        Ok(out) => Ok(out),
        Err(e) => Err(SegmentationError::Composite(e)),
    }
}

} // verus!
