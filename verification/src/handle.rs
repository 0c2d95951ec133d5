//! Handles: indices that name a resource of one kind.
//!
//! A handle is made from a raw word and turned back into one by explicit
//! conversion only, so that an index into one table is not taken for an index
//! into another.

use vstd::prelude::*;

verus! {

/// Index of an open file in the table of the calling process.
#[derive(Clone, Copy, Debug, PartialEq, Eq, Structural)]
pub struct FileHandle {
    index: usize,
}

/// Identifier of a context, that is, of a process or thread.
#[derive(Clone, Copy, Debug, PartialEq, Eq, Structural)]
pub struct ContextId {
    index: usize,
}

/// Identifier of a namespace of schemes.
#[derive(Clone, Copy, Debug, PartialEq, Eq, Structural)]
pub struct SchemeNamespace {
    index: usize,
}

impl FileHandle {
    /// The handle with index `index`.
    pub closed spec fn spec_from(index: usize) -> FileHandle {
        FileHandle { index }
    }

    /// The index of the handle.
    pub closed spec fn view(self) -> usize {
        self.index
    }

    /// Makes the handle from a raw word.
    pub fn from(index: usize) -> (handle: FileHandle)
        ensures
            handle == FileHandle::spec_from(index),
            handle@ == index,
    {
        FileHandle { index }
    }

    /// Turns it back into the raw word.
    pub fn into(self) -> (index: usize)
        ensures
            index == self@,
            self == FileHandle::spec_from(index),
    {
        self.index
    }

    /// Conversion to a handle and back loses nothing, in either direction.
    pub proof fn lemma_conversions(index: usize, handle: FileHandle)
        ensures
            FileHandle::spec_from(index)@ == index,
            FileHandle::spec_from(handle@) == handle,
    {
    }
}

impl ContextId {
    /// The identifier with index `index`.
    pub closed spec fn spec_from(index: usize) -> ContextId {
        ContextId { index }
    }

    /// The index of the identifier.
    pub closed spec fn view(self) -> usize {
        self.index
    }

    /// Makes the identifier from a raw word.
    pub fn from(index: usize) -> (id: ContextId)
        ensures
            id == ContextId::spec_from(index),
            id@ == index,
    {
        ContextId { index }
    }

    /// Turns it back into the raw word.
    pub fn into(self) -> (index: usize)
        ensures
            index == self@,
            self == ContextId::spec_from(index),
    {
        self.index
    }

    /// Conversion to an identifier and back loses nothing, in either direction.
    pub proof fn lemma_conversions(index: usize, id: ContextId)
        ensures
            ContextId::spec_from(index)@ == index,
            ContextId::spec_from(id@) == id,
    {
    }
}

impl SchemeNamespace {
    /// The identifier with index `index`.
    pub closed spec fn spec_from(index: usize) -> SchemeNamespace {
        SchemeNamespace { index }
    }

    /// The index of the identifier.
    pub closed spec fn view(self) -> usize {
        self.index
    }

    /// Makes the identifier from a raw word.
    pub fn from(index: usize) -> (id: SchemeNamespace)
        ensures
            id == SchemeNamespace::spec_from(index),
            id@ == index,
    {
        SchemeNamespace { index }
    }

    /// Turns it back into the raw word.
    pub fn into(self) -> (index: usize)
        ensures
            index == self@,
            self == SchemeNamespace::spec_from(index),
    {
        self.index
    }

    /// Conversion to an identifier and back loses nothing, in either direction.
    pub proof fn lemma_conversions(index: usize, id: SchemeNamespace)
        ensures
            SchemeNamespace::spec_from(index)@ == index,
            SchemeNamespace::spec_from(id@) == id,
    {
    }
}

} // verus!
