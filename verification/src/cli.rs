//! What the caller configures for a run.

use vstd::prelude::*;

verus! {

/// A path of the file system. The library carries it and never looks inside.
#[verifier::external_type_specification]
#[verifier::external_body]
pub struct ExPathBuf(std::path::PathBuf);

/// The settings of one run.
#[derive(Debug)]
pub struct Cli {
    /// Path to the directory containing the image index
    pub dir: std::path::PathBuf,
    /// Alt text to use for posted images
    pub alt_text: Option<String>,
    /// Tags to add to each post
    pub tags: Option<Vec<String>>,
}

} // verus!
