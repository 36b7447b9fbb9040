use vstd::prelude::*;

verus! {

/// What a metadata probe reports of one file instance on disk.
#[derive(Clone, Copy, Debug, PartialEq, Eq, Structural)]
pub struct FileMeta {
    /// Length in bytes.
    pub len: u64,
    /// Identity of the file instance (its inode number).
    pub ino: u64,
}

impl FileMeta {
    pub fn new(len: u64, ino: u64) -> (r: FileMeta)
        ensures
            r.len == len,
            r.ino == ino,
    {
        FileMeta { len, ino }
    }
}

} // verus!
