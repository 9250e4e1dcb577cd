use vstd::prelude::*;

verus! {

/// Builds the files of a program.
#[derive(Debug, Clone, PartialEq)]
pub struct Builder {
    filenames: Vec<String>,
}

impl Builder {
    /// The names of the files to build.
    pub closed spec fn spec_filenames(&self) -> Seq<String> {
        self.filenames@
    }

    /// A builder with no files.
    pub fn new() -> (b: Self)
        ensures
            b.spec_filenames() == Seq::<String>::empty(),
    {
        Builder { filenames: Vec::new() }
    }

    /// Sets the files to build.
    pub fn set_filenames(&mut self, filenames: Vec<String>)
        ensures
            final(self).spec_filenames() == filenames@,
    {
        self.filenames = filenames;
    }
}

impl Default for Builder {
    fn default() -> (b: Self)
        ensures
            b.spec_filenames() == Seq::<String>::empty(),
    {
        Builder::new()
    }
}

} // verus!
