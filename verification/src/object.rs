//! The values that names stand for, and the capability to resolve a name.

use std::rc::Rc;
use vstd::prelude::*;

use crate::artifact::Artifact;
use crate::scope::Scope;
use crate::sources::Sources;

verus! {

/// Anything a name in a scope can stand for.
///
/// The value behind each variant is shared: cloning an object yields a
/// second handle to the same value, never a copy of it.
pub enum Object {
    Artifact(Rc<Artifact>),
    Sources(Rc<Sources>),
    String(Rc<String>),
    Scope(Rc<Scope>),
}

impl Clone for Object {
    /// A second handle to the same value.
    fn clone(&self) -> (copy: Object)
        ensures
            copy == *self,
    {
        match self {
            Object::Artifact(artifact) => Object::Artifact(Rc::clone(artifact)),
            Object::Sources(sources) => Object::Sources(Rc::clone(sources)),
            Object::String(string) => Object::String(Rc::clone(string)),
            Object::Scope(scope) => Object::Scope(Rc::clone(scope)),
        }
    }
}

/// A container whose attributes can be resolved by name.
///
/// That a name is not defined is an ordinary outcome, reported as `None`;
/// resolving never changes the container.
pub trait Lookup {
    /// Whether `found` is the right answer to resolving `name` in this
    /// container.
    spec fn resolves(&self, name: Seq<char>, found: Option<Object>) -> bool;

    /// Resolves `name`.
    fn lookup(&self, name: &str) -> (found: Option<Object>)
        ensures
            self.resolves(name@, found),
    ;
}

} // verus!
