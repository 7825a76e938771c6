//! Entries of an image's data directory.
//!
//! Each data directory is a byte range of the image with a fixed purpose,
//! found by its index in the table of the optional header. An entry pairs
//! such a range with what was read from it.

pub mod functions;
pub mod import_table;

use crate::exe::directory::functions::Functions;
use crate::exe::directory::import_table::ImportTable;
use core::ops::Range;
use vstd::prelude::*;

verus! {

/// What can be the content of a data directory.
pub trait NtDataDirectoryEntryAcceptable {

}

impl NtDataDirectoryEntryAcceptable for Functions {

}

impl NtDataDirectoryEntryAcceptable for ImportTable {

}

/// One data directory: where it lies, and what it holds.
pub struct NtDataDirectoryEntry<E: NtDataDirectoryEntryAcceptable> {
    scope: Range<usize>,
    data: Box<E>,
}

impl<E: NtDataDirectoryEntryAcceptable> NtDataDirectoryEntry<E> {
    /// The byte range of the directory.
    pub closed spec fn spec_scope(&self) -> Range<usize> {
        self.scope
    }

    /// What the directory holds.
    pub closed spec fn spec_data(&self) -> E {
        *self.data
    }

    pub fn new(scope: Range<usize>, data: E) -> (entry: Self)
        ensures
            entry.spec_scope() == scope,
            entry.spec_data() == data,
    {
        NtDataDirectoryEntry { scope, data: Box::new(data) }
    }

    pub fn scope(&self) -> (scope: &Range<usize>)
        ensures
            *scope == self.spec_scope(),
    {
        &self.scope
    }

    pub fn data(&self) -> (data: &Box<E>)
        ensures
            **data == self.spec_data(),
    {
        &self.data
    }
}

/// The index that stands for a directory nobody reads: it lies outside
/// every table.
pub const UNUSED_INDEX: usize = 0x7fff_ffff;

/// The index of the import directory.
pub const IMPORTS_INDEX: usize = 1;

/// The index of the directory of runtime functions.
pub const FUNCTIONS_INDEX: usize = 3;

/// The data directories that are read, each with its content.
pub enum NtDirectoryEntries {
    /// A directory that is not read.
    Unused,
    /// The imports of the image.
    Imports(ImportTable),
    /// The runtime functions of the image. They are meant for unwinding;
    /// here they say where each function lies, which is where patches go.
    Functions(Functions),
}

impl NtDirectoryEntries {
    /// The index of the directory in the table of the optional header.
    pub open spec fn spec_index(&self) -> usize {
        match self {
            NtDirectoryEntries::Unused => UNUSED_INDEX,
            NtDirectoryEntries::Imports(_) => IMPORTS_INDEX,
            NtDirectoryEntries::Functions(_) => FUNCTIONS_INDEX,
        }
    }

    /// The index of the directory in the table of the optional header.
    pub fn index(&self) -> (index: usize)
        ensures
            index == self.spec_index(),
    {
        match self {
            NtDirectoryEntries::Unused => UNUSED_INDEX,
            NtDirectoryEntries::Imports(_) => IMPORTS_INDEX,
            NtDirectoryEntries::Functions(_) => FUNCTIONS_INDEX,
        }
    }
}

impl Default for NtDirectoryEntries {
    fn default() -> (entries: NtDirectoryEntries)
        ensures
            entries is Unused,
    {
        NtDirectoryEntries::Unused
    }
}

} // verus!
