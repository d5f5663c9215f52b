//! Error types of the library.
use vstd::prelude::*;

verus! {

/// A component of a timestamp that lies outside the range allowed for it.
#[derive(Debug, Clone, Copy, PartialEq, Eq, Hash)]
pub struct ComponentRange {
    name: &'static str,
}

impl ComponentRange {
    /// The name of the offending component.
    pub closed spec fn spec_name(&self) -> Seq<char> {
        self.name@
    }

    /// The error for the component called `name`.
    pub closed spec fn from_parts(name: &'static str) -> ComponentRange {
        ComponentRange { name }
    }

    /// The error built for a name carries that name.
    pub broadcast proof fn lemma_from_parts(name: &'static str)
        ensures
            #[trigger] ComponentRange::from_parts(name).spec_name() == name@,
    {
    }

    /// Creates the error for the component called `name`.
    pub fn new(name: &'static str) -> (r: ComponentRange)
        ensures
            r == ComponentRange::from_parts(name),
    {
        ComponentRange { name }
    }

    /// Obtains the name of the component that was out of range.
    pub fn name(&self) -> (r: &'static str)
        ensures
            r@ == self.spec_name(),
    {
        self.name
    }
}

/// An error type indicating that an expected component was not found.
#[derive(Debug, Clone, Copy, PartialEq, Eq, Hash)]
pub struct InCompleteError {
    name: &'static str,
}

impl InCompleteError {
    /// The name of the missing component.
    pub closed spec fn spec_name(&self) -> Seq<char> {
        self.name@
    }

    /// The error for the missing component called `name`.
    pub closed spec fn from_parts(name: &'static str) -> InCompleteError {
        InCompleteError { name }
    }

    /// The error built for a name carries that name.
    pub broadcast proof fn lemma_from_parts(name: &'static str)
        ensures
            #[trigger] InCompleteError::from_parts(name).spec_name() == name@,
    {
    }

    /// Creates the error for the missing component called `component`.
    pub fn new(component: &'static str) -> (r: InCompleteError)
        ensures
            r == InCompleteError::from_parts(component),
    {
        InCompleteError { name: component }
    }

    /// Obtains the name of the component that was not found.
    pub fn name(&self) -> (r: &'static str)
        ensures
            r@ == self.spec_name(),
    {
        self.name
    }
}

/// Why an incomplete timestamp could not be turned into a complete one.
#[derive(Debug, Clone, Copy, PartialEq, Eq, Hash)]
pub enum InComponentRange {
    /// A required component is absent.
    InComplete(InCompleteError),
    /// A component, or the components together, are out of range.
    ComponentRange(ComponentRange),
}

/// The error reporting that the component called `name` is absent.
pub open spec fn missing(name: &'static str) -> InComponentRange {
    InComponentRange::InComplete(InCompleteError::from_parts(name))
}

/// The error reporting that the component called `name` is out of range.
pub open spec fn out_of_range(name: &'static str) -> InComponentRange {
    InComponentRange::ComponentRange(ComponentRange::from_parts(name))
}

pub broadcast group group_error {
    ComponentRange::lemma_from_parts,
    InCompleteError::lemma_from_parts,
}

} // verus!
