//! Segment selection and mask compositing for segmented images.
//!
//! A manifest lists the candidate segments of one image, each a label and an
//! encoded mask. The resolver picks one segment by position or by label, and
//! the compositor decodes its mask and ANDs it onto the image. Around these
//! stand the decisions of batch runs and of the inference fan-out.

pub mod batch;
pub mod compositor;
pub mod image;
pub mod inference;
pub mod mask;
pub mod pipeline;
pub mod resolver;
pub mod segment;

pub use crate::compositor::{composite, CompositeError};
pub use crate::image::Image;
pub use crate::pipeline::{perform_segmentation, SegmentationError};
pub use crate::resolver::{resolve, ResolutionError};
pub use crate::segment::Segment;
