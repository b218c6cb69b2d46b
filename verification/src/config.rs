//! Settings that the request handlers share.

use vstd::prelude::*;

verus! {

/// Where uploaded files are stored.
#[derive(Debug, PartialEq, Eq)]
pub struct FileUploadConfig {
    pub dir: String,
}

impl Clone for FileUploadConfig {
    fn clone(&self) -> (r: Self)
        ensures
            r == *self,
    {
        FileUploadConfig { dir: self.dir.clone() }
    }
}

} // verus!
