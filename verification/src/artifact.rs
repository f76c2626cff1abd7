//! An output artifact: one generated file, as its target-relative path and
//! its full text. Artifacts of one document are produced together in memory
//! and handed to the emitter as one batch.

use vstd::prelude::*;

verus! {

/// The mathematical model of an `OutputArtifact`.
pub ghost struct ArtifactModel {
    pub path: Seq<char>,
    pub content: Seq<char>,
}

/// One generated file: its path relative to the output directory, and its
/// content.
#[derive(Debug, Clone, PartialEq, Eq)]
pub struct OutputArtifact {
    pub relative_path: String,
    pub content: String,
}

impl View for OutputArtifact {
    type V = ArtifactModel;

    open spec fn view(&self) -> ArtifactModel {
        ArtifactModel { path: self.relative_path@, content: self.content@ }
    }
}

} // verus!
