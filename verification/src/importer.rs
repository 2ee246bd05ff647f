//! Import of video files.

use vstd::prelude::*;

verus! {

/// Reads video files. No file format can be imported yet.
#[derive(Clone, Copy, Debug, Default)]
pub struct FFmpegImporter {}

impl FFmpegImporter {
    /// The file extensions that can be imported: none so far.
    pub fn supported_import_extensions() -> (extensions: Vec<String>)
        ensures
            extensions@ == Seq::<String>::empty(),
    {
        Vec::new()
    }
}

} // verus!
