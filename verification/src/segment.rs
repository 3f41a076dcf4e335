//! The manifest data model: labelled candidate masks for one image.

use vstd::prelude::*;

verus! {

/// One labelled candidate mask of an image.
///
/// `mask` holds the encoded raster stream of the mask, already taken out of
/// its text transport encoding. Labels need not be unique within a manifest.
#[derive(Debug, Clone)]
pub struct Segment {
    pub label: String,
    pub mask: Vec<u8>,
}

impl Segment {
    /// Builds a segment from its label and its encoded mask.
    pub fn new(label: String, mask: Vec<u8>) -> (s: Segment)
        ensures
            s.label == label,
            s.mask == mask,
    {
        Segment { label, mask }
    }
}

} // verus!
