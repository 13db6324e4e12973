//! What incremental analysis remembers of each source file.

use vstd::prelude::*;

verus! {

/// The state of a source file when it was last analysed.
#[derive(Debug, Clone)]
pub struct FileState {
    /// Modification time, in seconds since the Unix epoch.
    pub last_modified: u64,
    /// Hash of the file's content.
    pub content_hash: String,
    /// Size in bytes.
    pub file_size: u64,
    /// Files this file depends on.
    pub dependencies: Vec<String>,
    /// Files that depend on this file.
    pub dependents: Vec<String>,
    /// When the file was analysed, in seconds since the Unix epoch.
    pub last_analyzed: i64,
    /// Whether the file still exists.
    pub exists: bool,
}

fn copy_paths(v: &Vec<String>) -> (r: Vec<String>)
    ensures
        r@ == v@,
{
    let mut r: Vec<String> = Vec::new();
    let mut i: usize = 0;
    while i < v.len()
        invariant
            i <= v.len(),
            r@ == v@.subrange(0, i as int),
        decreases v.len() - i,
    {
        r.push(v[i].clone());
        i = i + 1;
    }
    assert(v@.subrange(0, v.len() as int) =~= v@);
    r
}

impl FileState {
    /// The same state: equal fields, path lists with the same entries.
    pub open spec fn same_as(&self, other: &FileState) -> bool {
        &&& self.last_modified == other.last_modified
        &&& self.content_hash == other.content_hash
        &&& self.file_size == other.file_size
        &&& self.dependencies@ == other.dependencies@
        &&& self.dependents@ == other.dependents@
        &&& self.last_analyzed == other.last_analyzed
        &&& self.exists == other.exists
    }

    /// A copy of the state.
    pub fn copy(&self) -> (r: Self)
        ensures
            r.same_as(self),
    {
        FileState {
            last_modified: self.last_modified,
            content_hash: self.content_hash.clone(),
            file_size: self.file_size,
            dependencies: copy_paths(&self.dependencies),
            dependents: copy_paths(&self.dependents),
            last_analyzed: self.last_analyzed,
            exists: self.exists,
        }
    }
}

} // verus!
