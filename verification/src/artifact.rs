//! Build targets.

use std::rc::Rc;
use vstd::prelude::*;

use crate::object::{Lookup, Object};
use crate::sources::{CSourceView, Sources};
use crate::strings::str_eq;

verus! {

/// What a target produces.
#[derive(Clone, Copy, Debug, PartialEq, Eq, Structural)]
pub enum ArtifactKind {
    /// An executable program.
    Binary,
    /// A static library.
    StaticLib,
    /// A dynamic library.
    DynLib,
}

/// The path at which the target called `name` is produced: `build/<name>`.
pub open spec fn artifact_output(name: Seq<char>) -> Seq<char> {
    "build/"@ + name
}

/// The model of an [`Artifact`].
pub struct ArtifactView {
    pub name: Seq<char>,
    pub output: Seq<char>,
    /// The models of the source collections, in the order they were pushed.
    pub sources: Seq<Seq<CSourceView>>,
    pub kind: ArtifactKind,
}

/// The models of a list of source collections.
pub open spec fn sources_list_view(list: Seq<Rc<Sources>>) -> Seq<Seq<CSourceView>> {
    list.map_values(|sources: Rc<Sources>| sources@)
}

/// A named build target: a binary, a static library or a dynamic library,
/// built from the files of its source collections.
pub struct Artifact {
    name: Rc<String>,
    output: Rc<String>,
    sources: Vec<Rc<Sources>>,
    kind: ArtifactKind,
}

impl View for Artifact {
    type V = ArtifactView;

    closed spec fn view(&self) -> ArtifactView {
        ArtifactView {
            name: self.name@,
            output: self.output@,
            sources: sources_list_view(self.sources@),
            kind: self.kind,
        }
    }
}

impl Artifact {
    #[verifier::type_invariant]
    spec fn output_follows_name(&self) -> bool {
        self.output@ == artifact_output(self.name@)
    }

    /// A target without sources. Its output path is computed here, from
    /// the name, and never again.
    pub fn new(name: String, kind: ArtifactKind) -> (artifact: Artifact)
        ensures
            artifact@ == (ArtifactView {
                name: name@,
                output: artifact_output(name@),
                sources: Seq::empty(),
                kind,
            }),
    {
        let mut output = String::from_str("build/");
        output.append(name.as_str());
        let artifact = Artifact {
            name: Rc::new(name),
            output: Rc::new(output),
            sources: Vec::new(),
            kind,
        };
        assert(artifact@.sources =~= Seq::empty());
        artifact
    }

    /// Appends a source collection. Nothing checks whether the same
    /// collection is already present.
    pub fn push_sources(&mut self, sources: Rc<Sources>)
        ensures
            final(self)@ == (ArtifactView {
                sources: old(self)@.sources.push(sources@),
                ..old(self)@
            }),
    {
        // The list is swapped out while it grows: name and output stay in
        // place, and with them the invariant that ties one to the other.
        proof {
            use_type_invariant(&*self);
        }
        let mut list: Vec<Rc<Sources>> = Vec::new();
        std::mem::swap(&mut self.sources, &mut list);
        list.push(sources);
        std::mem::swap(&mut self.sources, &mut list);
        assert(self@.sources =~= old(self)@.sources.push(sources@));
    }

    /// The name the target was declared with.
    pub fn name(&self) -> (name: &Rc<String>)
        ensures
            name@ == self@.name,
    {
        &self.name
    }

    /// The output path, which is always `build/<name>`.
    pub fn output(&self) -> (output: &Rc<String>)
        ensures
            output@ == self@.output,
            output@ == artifact_output(self@.name),
    {
        proof {
            use_type_invariant(self);
        }
        &self.output
    }

    /// What the target produces.
    pub fn kind(&self) -> (kind: ArtifactKind)
        ensures
            kind == self@.kind,
    {
        self.kind
    }

    /// The source collections, in the order they were pushed.
    pub fn sources(&self) -> (list: &Vec<Rc<Sources>>)
        ensures
            sources_list_view(list@) == self@.sources,
    {
        &self.sources
    }
}

impl Lookup for Artifact {
    /// A target resolves exactly two names: `output`, to its output path,
    /// and `name`, to its name, both as strings. Every other name is
    /// undefined.
    open spec fn resolves(&self, name: Seq<char>, found: Option<Object>) -> bool {
        if name == "output"@ {
            match found {
                Some(Object::String(string)) => string@ == self@.output,
                _ => false,
            }
        } else if name == "name"@ {
            match found {
                Some(Object::String(string)) => string@ == self@.name,
                _ => false,
            }
        } else {
            found is None
        }
    }

    /// Resolves `name`. The output path that `output` resolves to is
    /// always `build/<name>`.
    fn lookup(&self, name: &str) -> (found: Option<Object>)
        ensures
            name@ == "output"@ ==> match found {
                Some(Object::String(string)) => string@ == artifact_output(self@.name),
                _ => false,
            },
    {
        proof {
            use_type_invariant(self);
        }
        if str_eq(name, "output") {
            Some(Object::String(Rc::clone(&self.output)))
        } else if str_eq(name, "name") {
            Some(Object::String(Rc::clone(&self.name)))
        } else {
            None
        }
    }
}

} // verus!
