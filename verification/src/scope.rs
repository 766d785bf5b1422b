//! Lexical scopes: named values, declared targets and nested scopes.

use std::rc::Rc;
use vstd::prelude::*;

use crate::artifact::{Artifact, ArtifactView};
use crate::object::{Lookup, Object};
use crate::variables::Variables;

verus! {

/// The models of a list of targets.
pub open spec fn artifacts_view(list: Seq<Rc<Artifact>>) -> Seq<ArtifactView> {
    list.map_values(|artifact: Rc<Artifact>| artifact@)
}

/// The scopes behind a list of handles.
pub open spec fn scopes_view(list: Seq<Rc<Scope>>) -> Seq<Scope> {
    list.map_values(|scope: Rc<Scope>| *scope)
}

/// The model of a [`Scope`].
pub struct ScopeView {
    /// The models of the declared targets, in declaration order.
    pub artifacts: Seq<ArtifactView>,
    /// The value of each defined name.
    pub variables: Map<Seq<char>, Object>,
    /// The nested scopes, in the order they were added.
    pub scopes: Seq<Scope>,
}

/// A lexical environment: the targets declared in it, the values of its
/// names, and the scopes nested in it.
pub struct Scope {
    artifacts: Vec<Rc<Artifact>>,
    variables: Variables,
    scopes: Vec<Rc<Scope>>,
}

impl View for Scope {
    type V = ScopeView;

    closed spec fn view(&self) -> ScopeView {
        ScopeView {
            artifacts: artifacts_view(self.artifacts@),
            variables: self.variables@,
            scopes: scopes_view(self.scopes@),
        }
    }
}

impl Scope {
    /// A scope with no targets, no names and no nested scopes.
    pub fn new() -> (scope: Scope)
        ensures
            scope@ == (ScopeView {
                artifacts: Seq::empty(),
                variables: Map::empty(),
                scopes: Seq::empty(),
            }),
    {
        let scope = Scope {
            artifacts: Vec::new(),
            variables: Variables::new(),
            scopes: Vec::new(),
        };
        assert(scope@.artifacts =~= Seq::empty());
        assert(scope@.scopes =~= Seq::empty());
        scope
    }

    /// Declares a target, after those already declared.
    pub fn push_artifact(&mut self, artifact: Rc<Artifact>)
        ensures
            final(self)@ == (ScopeView {
                artifacts: old(self)@.artifacts.push(artifact@),
                ..old(self)@
            }),
    {
        self.artifacts.push(artifact);
        assert(self@.artifacts =~= old(self)@.artifacts.push(artifact@));
    }

    /// Gives `name` the value `value`. A value that the name had before is
    /// replaced; all other names keep theirs.
    pub fn insert(&mut self, name: String, value: Object)
        ensures
            final(self)@ == (ScopeView {
                variables: old(self)@.variables.insert(name@, value),
                ..old(self)@
            }),
    {
        self.variables.insert(name, value);
    }

    /// Nests a scope in this one, after those already nested.
    pub fn push_scope(&mut self, scope: Rc<Scope>)
        ensures
            final(self)@ == (ScopeView { scopes: old(self)@.scopes.push(*scope), ..old(self)@ }),
    {
        self.scopes.push(scope);
        assert(self@.scopes =~= old(self)@.scopes.push(*scope));
    }

    /// The declared targets, in declaration order.
    pub fn artifacts(&self) -> (list: &Vec<Rc<Artifact>>)
        ensures
            artifacts_view(list@) == self@.artifacts,
    {
        &self.artifacts
    }

    /// The values of the names defined in this scope.
    pub fn variables(&self) -> (variables: &Variables)
        ensures
            variables@ == self@.variables,
    {
        &self.variables
    }

    /// The nested scopes, in the order they were added.
    pub fn scopes(&self) -> (list: &Vec<Rc<Scope>>)
        ensures
            scopes_view(list@) == self@.scopes,
    {
        &self.scopes
    }
}

impl Lookup for Scope {
    /// A scope resolves a name to the value it was last given, and to
    /// nothing if it was never given one. The scopes nested in it and the
    /// targets declared in it are not searched.
    open spec fn resolves(&self, name: Seq<char>, found: Option<Object>) -> bool {
        found == if self@.variables.contains_key(name) {
            Some(self@.variables[name])
        } else {
            None
        }
    }

    fn lookup(&self, name: &str) -> (found: Option<Object>) {
        match self.variables.get(name) {
            Some(value) => Some(value.clone()),
            None => None,
        }
    }
}

} // verus!
