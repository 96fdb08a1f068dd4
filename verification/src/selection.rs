//! From files to jobs: which files a batch takes, and the job that is made
//! of each.
use crate::batch::BatchJob;
use crate::converter::{ConversionOptions, SupportedFormat};
use std::path::PathBuf;
use vstd::prelude::*;
use vstd::string::*;

verus! {

/// What `str::to_lowercase` makes of a text.
pub uninterp spec fn lowercase_of(text: Seq<char>) -> Seq<char>;

/// `str::to_lowercase`: the text in lower case.
#[verifier::external_body]
fn lowercase(text: &str) -> (lower: String)
    ensures
        lower@ == lowercase_of(text@),
{
    text.to_lowercase()
}

/// What `Path::extension` gives for a path, as text.
pub uninterp spec fn extension_text_of(path: PathBuf) -> Option<Seq<char>>;

/// What `Path::with_extension` makes of a path and an extension.
pub uninterp spec fn with_extension_of(path: PathBuf, extension: Seq<char>) -> PathBuf;

/// `Path::extension`: the extension of the path as text, where it has one.
#[verifier::external_body]
fn extension_of(path: &PathBuf) -> (extension: Option<String>)
    ensures
        match extension {
            Some(text) => extension_text_of(*path) == Some(text@),
            None => extension_text_of(*path) is None,
        },
{
    path.extension().map(|extension| extension.to_string_lossy().into_owned())
}

/// An extension that holds no path separator. `Path::with_extension`
/// takes no other.
pub open spec fn no_separator(extension: Seq<char>) -> bool {
    forall|i: int| 0 <= i < extension.len() ==> extension[i] != '/' && extension[i] != '\\'
}

/// `Path::with_extension`: the path with its extension replaced. The call
/// panics on an extension that holds a path separator.
#[verifier::external_body]
fn with_extension(path: &PathBuf, extension: &str) -> (renamed: PathBuf)
    requires
        no_separator(extension@),
    ensures
        renamed == with_extension_of(*path, extension@),
{
    path.with_extension(extension)
}

/// No extension of a target format holds a path separator.
pub proof fn lemma_extensions_hold_no_separator(format: SupportedFormat)
    ensures
        no_separator(format.extension_text()),
{
    reveal_strlit("png");
    reveal_strlit("jpg");
    reveal_strlit("webp");
    reveal_strlit("avif");
    reveal_strlit("gif");
    reveal_strlit("bmp");
    reveal_strlit("tiff");
    reveal_strlit("ico");
}

/// Whether a batch takes a file with this extension.
pub open spec fn takes(extension: Option<Seq<char>>) -> bool {
    match extension {
        Some(text) => is_image_extension(lowercase_of(text)),
        None => false,
    }
}

/// Where the output of a job goes: beside the input, under the same name
/// with the extension of the target format.
pub open spec fn output_of(input_path: PathBuf, options: ConversionOptions) -> PathBuf {
    with_extension_of(input_path, options.format.extension_text())
}

/// The extensions, in lower case, of the files that a batch takes.
pub open spec fn is_image_extension(lower: Seq<char>) -> bool {
    ||| lower == "png"@
    ||| lower == "jpg"@
    ||| lower == "jpeg"@
    ||| lower == "gif"@
    ||| lower == "webp"@
    ||| lower == "avif"@
    ||| lower == "bmp"@
    ||| lower == "tiff"@
    ||| lower == "ico"@
}

/// Whether a text is the given one.
fn same_text(text: &String, literal: &str) -> (same: bool)
    ensures
        same == (text@ == literal@),
{
    let other = String::from_str(literal);
    *text == other
}

/// Whether an extension that is already in lower case is that of an image
/// file.
pub fn accepts_lowercase(lower: &String) -> (accepted: bool)
    ensures
        accepted == is_image_extension(lower@),
{
    same_text(lower, "png") || same_text(lower, "jpg") || same_text(lower, "jpeg") || same_text(
        lower,
        "gif",
    ) || same_text(lower, "webp") || same_text(lower, "avif") || same_text(lower, "bmp")
        || same_text(lower, "tiff") || same_text(lower, "ico")
}

/// Whether an extension, in whatever case, is that of an image file.
pub fn accepts_extension(extension: &str) -> (accepted: bool)
    ensures
        accepted == is_image_extension(lowercase_of(extension@)),
{
    let lower = lowercase(extension);
    accepts_lowercase(&lower)
}

/// What an extension that was read off a path means: a file without one
/// is not taken.
pub fn accepts(extension: Option<String>) -> (accepted: bool)
    ensures
        accepted == takes(
            match extension {
                Some(text) => Some(text@),
                None => None,
            },
        ),
{
    match extension {
        Some(text) => accepts_extension(text.as_str()),
        None => false,
    }
}

/// Whether a batch takes the file at `path`: it does where the path has
/// the extension of an image file.
pub fn accepts_input(path: &PathBuf) -> (accepted: bool)
    ensures
        accepted == takes(extension_text_of(*path)),
{
    accepts(extension_of(path))
}

/// The job that converts the file at `input_path`: the output goes beside
/// the input, under the same name with the extension of the target format.
pub fn job_for(input_path: PathBuf, options: ConversionOptions) -> (job: BatchJob)
    ensures
        job.input_path == input_path,
        job.output_path == output_of(input_path, options),
        job.options == options,
{
    proof {
        lemma_extensions_hold_no_separator(options.format);
    }
    let output_path = with_extension(&input_path, options.format.extension());
    BatchJob { input_path, output_path, options }
}

/// One job for each file, in the order of the files.
pub fn jobs_for(files: &Vec<PathBuf>, options: ConversionOptions) -> (jobs: Vec<BatchJob>)
    ensures
        jobs@.len() == files@.len(),
        forall|i: int|
            0 <= i < files@.len() ==> (#[trigger] jobs@[i]).input_path == files@[i]
                && jobs@[i].output_path == output_of(files@[i], options) && jobs@[i].options
                == options,
{
    let mut jobs: Vec<BatchJob> = Vec::new();
    let mut i: usize = 0;
    while i < files.len()
        invariant
            i <= files@.len(),
            jobs@.len() == i,
            forall|k: int|
                0 <= k < i ==> (#[trigger] jobs@[k]).input_path == files@[k]
                    && jobs@[k].output_path == output_of(files@[k], options) && jobs@[k].options
                    == options,
        decreases files@.len() - i,
    {
        jobs.push(job_for(files[i].clone(), options));
        i = i + 1;
    }
    jobs
}

} // verus!
