//! Batch orchestration: which shapes of paths are served, and how the images
//! of a directory pair up with the manifests of another.

use vstd::prelude::*;
use vstd::string::StringExecFns;

verus! {

/// The extension of manifest files.
pub const MANIFEST_EXTENSION: &'static str = "json";

/// The extension of output images.
pub const OUTPUT_EXTENSION: &'static str = "png";

/// The shapes of paths that a run is made for.
#[derive(Debug, Clone, Copy, PartialEq, Eq)]
pub enum Layout {
    /// One input file, one output file.
    SingleFile,
    /// Directories, and the output directory is there already.
    BatchIntoExisting,
    /// Directories, and the output directory has yet to be made.
    BatchIntoNew,
}

/// Why a batch could not be set up.
#[derive(Debug, Clone, PartialEq, Eq)]
pub enum BatchError {
    /// The image of this name has no manifest.
    ManifestMissing { image: String },
    /// The paths given are not of a shape that is served.
    InvalidPathCombination,
}

impl BatchError {
    /// The text of the diagnostic for this error.
    pub open spec fn message_of(self) -> Seq<char> {
        match self {
            BatchError::ManifestMissing { image } => "Mask not found for image \""@ + image@
                + "\""@,
            BatchError::InvalidPathCombination => "Invalid combination of input, output, and mask paths."@,
        }
    }

    /// The diagnostic for this error.
    pub fn message(&self) -> (m: String)
        ensures
            m@ == self.message_of(),
    {
        match self {
            BatchError::ManifestMissing { image } => String::from_str(
                "Mask not found for image \"",
            ).concat(image.as_str()).concat("\""),
            BatchError::InvalidPathCombination => String::from_str(
                "Invalid combination of input, output, and mask paths.",
            ),
        }
    }
}

/// The layout of a segmentation run, by what the input, manifest and output
/// paths are. Files throughout make a single run. An input directory with a
/// manifest directory makes a batch, into the output directory where that
/// exists as one, and into a new one where nothing exists at the output path.
pub open spec fn segmentation_layout_of(
    input_is_dir: bool,
    manifest_is_dir: bool,
    output_is_dir: bool,
    output_exists: bool,
) -> Option<Layout> {
    if !input_is_dir && !manifest_is_dir && !output_is_dir {
        Some(Layout::SingleFile)
    } else if input_is_dir && manifest_is_dir && !output_exists {
        Some(Layout::BatchIntoNew)
    } else if input_is_dir && manifest_is_dir && output_is_dir {
        Some(Layout::BatchIntoExisting)
    } else {
        None
    }
}

/// Decides the layout of a segmentation run, or refuses the paths.
pub fn segmentation_layout(
    input_is_dir: bool,
    manifest_is_dir: bool,
    output_is_dir: bool,
    output_exists: bool,
) -> (r: Result<Layout, BatchError>)
    ensures
        match segmentation_layout_of(input_is_dir, manifest_is_dir, output_is_dir, output_exists) {
            Some(layout) => r is Ok && r->Ok_0 == layout,
            None => r is Err && r->Err_0 == BatchError::InvalidPathCombination,
        },
        r is Ok && r->Ok_0 == Layout::SingleFile <==> !input_is_dir && !manifest_is_dir
            && !output_is_dir,
        r is Ok && r->Ok_0 == Layout::BatchIntoNew <==> input_is_dir && manifest_is_dir
            && !output_exists,
        r is Ok && r->Ok_0 == Layout::BatchIntoExisting <==> input_is_dir && manifest_is_dir
            && output_is_dir && output_exists,
{
    if !input_is_dir && !manifest_is_dir && !output_is_dir {
        Ok(Layout::SingleFile)
    } else if input_is_dir && manifest_is_dir && !output_exists {
        Ok(Layout::BatchIntoNew)
    } else if input_is_dir && manifest_is_dir && output_is_dir {
        Ok(Layout::BatchIntoExisting)
    } else {
        Err(BatchError::InvalidPathCombination)
    }
}

/// The layout of an inference run, by what the input and output paths are.
/// An input file with an output path that is no directory makes a single
/// run. An input directory makes a batch, into the output directory where
/// that exists, and into a new one where nothing exists at the output path.
pub open spec fn inference_layout_of(
    input_is_dir: bool,
    output_is_dir: bool,
    output_exists: bool,
) -> Option<Layout> {
    if !input_is_dir && !output_is_dir {
        Some(Layout::SingleFile)
    } else if input_is_dir && !output_is_dir && !output_exists {
        Some(Layout::BatchIntoNew)
    } else if input_is_dir && output_is_dir && output_exists {
        Some(Layout::BatchIntoExisting)
    } else {
        None
    }
}

/// Decides the layout of an inference run, or refuses the paths.
pub fn inference_layout(input_is_dir: bool, output_is_dir: bool, output_exists: bool) -> (r: Result<
    Layout,
    BatchError,
>)
    ensures
        match inference_layout_of(input_is_dir, output_is_dir, output_exists) {
            Some(layout) => r is Ok && r->Ok_0 == layout,
            None => r is Err && r->Err_0 == BatchError::InvalidPathCombination,
        },
{
    if !input_is_dir && !output_is_dir {
        Ok(Layout::SingleFile)
    } else if input_is_dir && !output_is_dir && !output_exists {
        Ok(Layout::BatchIntoNew)
    } else if input_is_dir && output_is_dir && output_exists {
        Ok(Layout::BatchIntoExisting)
    } else {
        Err(BatchError::InvalidPathCombination)
    }
}

/// An image of the input directory: the name that errors call it by, and
/// the stem of its file name.
#[derive(Debug, Clone)]
pub struct ImageFile {
    pub name: String,
    pub stem: String,
}

/// A file of the manifest directory: the stem and the extension of its name.
#[derive(Debug, Clone)]
pub struct ManifestFile {
    pub stem: String,
    pub extension: String,
}

/// The work for one image of a batch: the place of the image in the input
/// list, the file name of its manifest in the manifest directory, and the
/// file name of its output in the output directory.
#[derive(Debug, Clone)]
pub struct Job {
    pub image: usize,
    pub manifest_name: String,
    pub output_name: String,
}

/// The file name made of a stem and an extension.
pub open spec fn file_name_of(stem: Seq<char>, extension: Seq<char>) -> Seq<char> {
    stem + seq!['.'] + extension
}

/// `file` is the manifest of the image with this stem: it has the stem, and
/// the manifest extension.
pub open spec fn is_manifest_of(file: ManifestFile, stem: Seq<char>) -> bool {
    file.stem@ == stem && file.extension@ == MANIFEST_EXTENSION@
}

/// Some file of `manifests` is the manifest of the image with this stem.
pub open spec fn has_manifest(manifests: Seq<ManifestFile>, stem: Seq<char>) -> bool {
    exists|j: int| 0 <= j < manifests.len() && is_manifest_of(#[trigger] manifests[j], stem)
}

/// Image `i` is the first of `images` that has no manifest.
pub open spec fn is_first_unmatched(
    images: Seq<ImageFile>,
    manifests: Seq<ManifestFile>,
    i: int,
) -> bool {
    &&& 0 <= i < images.len()
    &&& !has_manifest(manifests, images[i].stem@)
    &&& forall|k: int| 0 <= k < i ==> has_manifest(manifests, (#[trigger] images[k]).stem@)
}

/// Every image has a manifest.
pub open spec fn all_matched(images: Seq<ImageFile>, manifests: Seq<ManifestFile>) -> bool {
    forall|k: int| 0 <= k < images.len() ==> has_manifest(manifests, (#[trigger] images[k]).stem@)
}

/// `job` is the work for image `i` of `images`.
pub open spec fn is_job_for(job: Job, images: Seq<ImageFile>, i: int) -> bool {
    &&& job.image == i
    &&& job.manifest_name@ == file_name_of(images[i].stem@, MANIFEST_EXTENSION@)
    &&& job.output_name@ == file_name_of(images[i].stem@, OUTPUT_EXTENSION@)
}

/// Builds the file name `stem.extension`.
pub fn file_name(stem: &String, extension: &str) -> (name: String)
    ensures
        name@ == file_name_of(stem@, extension@),
{
    proof {
        reveal_strlit(".");
        assert("."@ =~= seq!['.']);
    }
    stem.clone().concat(".").concat(extension)
}

/// Tells whether some file of `manifests` is the manifest of the image with
/// this stem.
pub fn find_manifest(manifests: &Vec<ManifestFile>, stem: &String) -> (found: bool)
    ensures
        found == has_manifest(manifests@, stem@),
{
    let wanted = String::from_str(MANIFEST_EXTENSION);
    let mut j: usize = 0;
    while j < manifests.len()
        invariant
            j <= manifests.len(),
            wanted@ == MANIFEST_EXTENSION@,
            forall|k: int| 0 <= k < j ==> !is_manifest_of(#[trigger] manifests@[k], stem@),
        decreases manifests.len() - j,
    {
        if manifests[j].stem == *stem && manifests[j].extension == wanted {
            assert(is_manifest_of(manifests@[j as int], stem@));
            return true;
        }
        j += 1;
    }
    false
}

/// Pairs every image with its manifest and names its output.
///
/// The batch is all or nothing: where an image has no manifest, no job is
/// handed out for any image, and the error names the first such image.
pub fn plan_batch(images: &Vec<ImageFile>, manifests: &Vec<ManifestFile>) -> (r: Result<
    Vec<Job>,
    BatchError,
>)
    ensures
        r is Ok <==> all_matched(images@, manifests@),
        r is Ok ==> r->Ok_0@.len() == images@.len() && forall|i: int|
            0 <= i < images@.len() ==> is_job_for(#[trigger] r->Ok_0@[i], images@, i),
        r is Err ==> r->Err_0 is ManifestMissing && exists|i: int|
            is_first_unmatched(images@, manifests@, i) && r->Err_0->image@ == images@[i].name@,
{
    let mut jobs: Vec<Job> = Vec::new();
    let mut i: usize = 0;
    while i < images.len()
        invariant
            i <= images.len(),
            jobs@.len() == i,
            forall|k: int| 0 <= k < i ==> has_manifest(manifests@, (#[trigger] images@[k]).stem@),
            forall|k: int| 0 <= k < i ==> is_job_for(#[trigger] jobs@[k], images@, k),
        decreases images.len() - i,
    {
        let entry = &images[i];
        if !find_manifest(manifests, &entry.stem) {
            assert(is_first_unmatched(images@, manifests@, i as int));
            return Err(BatchError::ManifestMissing { image: entry.name.clone() });
        }
        let job = Job {
            image: i,
            manifest_name: file_name(&entry.stem, MANIFEST_EXTENSION),
            output_name: file_name(&entry.stem, OUTPUT_EXTENSION),
        };
        jobs.push(job);
        i += 1;
    }
    Ok(jobs)
}

} // verus!
