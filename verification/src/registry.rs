//! The streaming handle registry: a result slot that owns at most one
//! capability, stored under the tag of the family it belongs to.
//!
//! A producer registers a capability under a tag. A consumer that asks for it
//! under the same tag gets that capability back; under any other tag it gets
//! an error and never the value, so a value of one family is not taken for one
//! of another.

use vstd::prelude::*;
use crate::error::RetrieveError;

verus! {

/// The tag under which capabilities that produce a byte stream are stored.
pub const READER_POINTER_NAME: &'static str = "sqlite_reader";

/// A capability together with the tag it was stored under.
#[derive(Debug)]
pub struct Handle<C> {
    tag: String,
    capability: C,
}

impl<C> View for Handle<C> {
    type V = (Seq<char>, C);

    /// The tag and the capability.
    closed spec fn view(&self) -> (Seq<char>, C) {
        (self.tag@, self.capability)
    }
}

impl<C> Handle<C> {
    pub fn new(tag: &str, capability: C) -> (handle: Handle<C>)
        ensures
            handle@ == (tag@, capability),
    {
        Handle { tag: tag.to_owned(), capability }
    }

    pub fn tag(&self) -> (tag: &str)
        ensures
            tag@ == self@.0,
    {
        self.tag.as_str()
    }

    pub fn capability(&self) -> (capability: &C)
        ensures
            *capability == self@.1,
    {
        &self.capability
    }

    pub fn into_capability(self) -> (capability: C)
        ensures
            capability == self@.1,
    {
        self.capability
    }
}

/// What a lookup under `tag` finds in a slot whose content is `content`.
pub open spec fn lookup<C>(content: Option<(Seq<char>, C)>, tag: Seq<char>) -> Result<
    C,
    RetrieveError,
> {
    match content {
        None => Err(RetrieveError::NotPresent),
        Some((stored, capability)) => if stored == tag {
            Ok(capability)
        } else {
            Err(RetrieveError::TagMismatch)
        },
    }
}

/// An output slot of one function evaluation.
#[derive(Debug)]
pub struct Slot<C> {
    handle: Option<Handle<C>>,
}

impl<C> View for Slot<C> {
    type V = Option<(Seq<char>, C)>;

    /// `None` for an empty slot, else the tag and the capability it owns.
    closed spec fn view(&self) -> Option<(Seq<char>, C)> {
        match self.handle {
            None => None,
            Some(handle) => Some(handle@),
        }
    }
}

impl<C> Slot<C> {
    /// A slot that was never written to.
    pub fn new() -> (slot: Slot<C>)
        ensures
            slot@ is None,
    {
        Slot { handle: None }
    }

    /// Stores `capability` under `tag`. The slot owns it from then on; what
    /// the slot held before is dropped.
    pub fn register(&mut self, tag: &str, capability: C)
        ensures
            final(self)@ == Some((tag@, capability)),
    {
        self.handle = Some(Handle::new(tag, capability));
    }

    /// The capability stored under `tag`.
    pub fn retrieve(&self, tag: &str) -> (found: Result<&C, RetrieveError>)
        ensures
            match found {
                Ok(capability) => lookup(self@, tag@) == Ok::<C, RetrieveError>(*capability),
                Err(error) => lookup(self@, tag@) == Err::<C, RetrieveError>(error),
            },
    {
        match &self.handle {
            None => Err(RetrieveError::NotPresent),
            Some(handle) => {
                let wanted = tag.to_owned();
                if handle.tag == wanted {
                    Ok(&handle.capability)
                } else {
                    Err(RetrieveError::TagMismatch)
                }
            },
        }
    }

    /// Releases the slot: hands out what it owns and leaves it empty.
    pub fn take(&mut self) -> (handle: Option<Handle<C>>)
        ensures
            final(self)@ is None,
            match handle {
                None => old(self)@ is None,
                Some(handle) => old(self)@ == Some(handle@),
            },
    {
        self.handle.take()
    }
}

/// A slot that was never written to yields `NotPresent`, whatever the tag.
pub proof fn lemma_retrieve_from_empty<C>(tag: Seq<char>)
    ensures
        lookup(None::<(Seq<char>, C)>, tag) == Err::<C, RetrieveError>(RetrieveError::NotPresent),
{
}

/// What was registered under a tag is found under that tag, and it is the
/// very capability that was stored.
pub proof fn lemma_retrieve_registered<C>(tag: Seq<char>, capability: C)
    ensures
        lookup(Some((tag, capability)), tag) == Ok::<C, RetrieveError>(capability),
{
}

/// What was registered under one tag yields `TagMismatch` under any other.
pub proof fn lemma_retrieve_other_tag<C>(stored: Seq<char>, capability: C, wanted: Seq<char>)
    requires
        stored != wanted,
    ensures
        lookup(Some((stored, capability)), wanted) == Err::<C, RetrieveError>(
            RetrieveError::TagMismatch,
        ),
{
}

} // verus!
