//! A declarative build-description evaluator: an in-memory graph of targets,
//! source lists and nested scopes, compiled into a Ninja build script.
//!
//! Every executable function carries a contract over a mathematical model of
//! the data (sequences of characters for strings, sequences and maps for the
//! collections), and the contracts are machine-checked.

pub mod artifact;
pub mod edges;
pub mod ninja;
pub mod object;
pub mod rules;
pub mod scope;
pub mod sources;
pub mod strings;
pub mod variables;

pub use artifact::{Artifact, ArtifactKind, ArtifactView};
pub use edges::{Edge, Rule};
pub use ninja::{genpreamble, genrule, make_ninja_file};
pub use object::{Lookup, Object};
pub use rules::{genlist_object_files, genrules_artifact, genrules_scope};
pub use scope::{Scope, ScopeView};
pub use sources::{derive_output, CSource, CSourceView, Sources};
pub use strings::str_eq;
pub use variables::Variables;
