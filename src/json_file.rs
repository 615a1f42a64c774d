//! The handle of a file-backed store: where its snapshot lives. Reading and
//! writing the file is left to the caller; the snapshot's operations are
//! those of `TasksFile`.

use vstd::prelude::*;

verus! {

#[derive(Debug)]
pub struct JsonFileTaskRepository {
    file_path: String,
}

impl View for JsonFileTaskRepository {
    type V = Seq<char>;

    closed spec fn view(&self) -> Seq<char> {
        self.file_path@
    }
}

impl JsonFileTaskRepository {
    /// A store kept in the file at `file_path`.
    pub fn using(file_path: String) -> (r: Self)
        ensures
            r@ == file_path@,
    {
        Self { file_path }
    }

    pub fn file_path(&self) -> (r: &str)
        ensures
            r@ == self@,
    {
        self.file_path.as_str()
    }
}

} // verus!
