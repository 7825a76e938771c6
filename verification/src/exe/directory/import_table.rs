//! The imports of an image.

use vstd::prelude::*;

verus! {

/// The imports of an image, library by library.
pub type ImportTable = Vec<Import>;

/// What an image imports from one library.
#[derive(Debug)]
pub struct Import {
    name: String,
    functions: Vec<usize>,
}

impl Import {
    /// The name of the library.
    pub closed spec fn spec_name(&self) -> Seq<char> {
        self.name@
    }

    /// Where the image holds the address of each imported function.
    pub closed spec fn spec_functions(&self) -> Seq<usize> {
        self.functions@
    }

    pub fn new(name: String, functions: Vec<usize>) -> (import: Import)
        ensures
            import.spec_name() == name@,
            import.spec_functions() == functions@,
    {
        Import { name, functions }
    }

    pub fn name(&self) -> (name: &str)
        ensures
            name@ == self.spec_name(),
    {
        self.name.as_str()
    }

    pub fn functions(&self) -> (functions: &Vec<usize>)
        ensures
            functions@ == self.spec_functions(),
    {
        &self.functions
    }
}

} // verus!
