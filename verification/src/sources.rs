//! Source files and the object files derived from them.

use vstd::prelude::*;

verus! {

/// The character written in place of `c` when a source path is flattened
/// into a file name: the path separator becomes an underscore, every other
/// character stays.
pub open spec fn flat_char(c: char) -> char {
    if c == '/' {
        '_'
    } else {
        c
    }
}

/// A path with every separator replaced, so that it names a file directly
/// inside the build directory.
pub open spec fn flat_path(path: Seq<char>) -> Seq<char> {
    path.map_values(|c: char| flat_char(c))
}

/// The object-file path derived from a source path: the flattened path
/// followed by the suffix `.o`.
pub open spec fn derived_output(path: Seq<char>) -> Seq<char> {
    flat_path(path) + ".o"@
}

/// Computes the object-file path for a source path.
///
/// The result is a function of the characters of `path` alone, so two calls
/// on equal paths yield equal results.
pub fn derive_output(path: &str) -> (output: String)
    ensures
        output@ == derived_output(path@),
{
    let mut output = String::new();
    for c in chars: path.chars()
        invariant
            chars.seq() == path@,
            output@ == flat_path(path@.take(chars.index() as int)),
    {
        proof {
            let i = chars.index() as int;
            assert(path@.take(i + 1) == path@.take(i).push(path@[i]));
            assert(flat_path(path@.take(i + 1)) == flat_path(path@.take(i)).push(
                flat_char(path@[i]),
            ));
        }
        if c == '/' {
            output.push('_');
        } else {
            output.push(c);
        }
    }
    proof {
        assert(path@.take(path@.len() as int) == path@);
    }
    output.append(".o");
    output
}

/// Equal source paths have equal object paths: the derived path depends on
/// nothing but the characters of the source path.
pub proof fn lemma_derived_output_deterministic(first: Seq<char>, second: Seq<char>)
    requires
        first == second,
    ensures
        derived_output(first) == derived_output(second),
{
}

/// Among source paths that hold no underscore, different paths have
/// different object paths. (With underscores they may collide: `a/b.c` and
/// `a_b.c` share one.)
pub proof fn lemma_derived_output_injective(first: Seq<char>, second: Seq<char>)
    requires
        !first.contains('_'),
        !second.contains('_'),
        derived_output(first) == derived_output(second),
    ensures
        first == second,
{
    let suffix = ".o"@;
    let flat_first = flat_path(first) + suffix;
    let flat_second = flat_path(second) + suffix;
    assert(flat_first.len() == first.len() + suffix.len());
    assert(flat_second.len() == second.len() + suffix.len());
    assert forall|i: int| 0 <= i < first.len() implies first[i] == second[i] by {
        assert(first.contains(first[i]));
        assert(second.contains(second[i]));
        assert(flat_first[i] == flat_char(first[i]));
        assert(flat_second[i] == flat_char(second[i]));
    }
    assert(first =~= second);
}

/// The model of a [`CSource`]: its two paths as character sequences.
pub struct CSourceView {
    pub input_path: Seq<char>,
    pub output_path: Seq<char>,
}

/// A C source file together with the object file it is compiled to.
pub struct CSource {
    input_path: String,
    output_path: String,
}

impl View for CSource {
    type V = CSourceView;

    closed spec fn view(&self) -> CSourceView {
        CSourceView { input_path: self.input_path@, output_path: self.output_path@ }
    }
}

impl CSource {
    #[verifier::type_invariant]
    spec fn output_is_derived(&self) -> bool {
        self.output_path@ == derived_output(self.input_path@)
    }

    /// Pairs a source path with its derived object-file path.
    pub fn new(input_path: String) -> (source: CSource)
        ensures
            source@.input_path == input_path@,
            source@.output_path == derived_output(input_path@),
    {
        let output_path = derive_output(input_path.as_str());
        CSource { input_path, output_path }
    }

    /// The path of the source file, as it was given.
    pub fn input_path(&self) -> (path: &str)
        ensures
            path@ == self@.input_path,
    {
        self.input_path.as_str()
    }

    /// The path of the object file, which is always the one derived from
    /// the input path.
    pub fn output_path(&self) -> (path: &str)
        ensures
            path@ == self@.output_path,
            path@ == derived_output(self@.input_path),
    {
        proof {
            use_type_invariant(self);
        }
        self.output_path.as_str()
    }
}

/// The model of a [`Sources`] collection: the models of its files, in
/// insertion order.
pub open spec fn sources_view(files: Seq<CSource>) -> Seq<CSourceView> {
    files.map_values(|c: CSource| c@)
}

/// An ordered collection of compilable source files.
pub struct Sources {
    c_sources: Vec<CSource>,
}

impl View for Sources {
    type V = Seq<CSourceView>;

    closed spec fn view(&self) -> Seq<CSourceView> {
        sources_view(self.c_sources@)
    }
}

impl Sources {
    /// An empty collection.
    pub fn new() -> (sources: Sources)
        ensures
            sources@ == Seq::<CSourceView>::empty(),
    {
        return Sources { c_sources: Vec::new() };
    }

    /// Appends one source file. Its object-file path is derived from
    /// `input_path`; the files already present keep their places.
    pub fn push_c_source(&mut self, input_path: String)
        ensures
            final(self)@ == old(self)@.push(
                CSourceView {
                    input_path: input_path@,
                    output_path: derived_output(input_path@),
                },
            ),
    {
        let source = CSource::new(input_path);
        self.c_sources.push(source);
        assert(self@ =~= old(self)@.push(source@));
    }

    /// The number of files in the collection.
    pub fn len(&self) -> (n: usize)
        ensures
            n == self@.len(),
    {
        self.c_sources.len()
    }

    /// The files of the collection, in insertion order.
    pub fn files(&self) -> (files: &Vec<CSource>)
        ensures
            sources_view(files@) == self@,
    {
        &self.c_sources
    }

    /// The file at position `index`, if there is one.
    pub fn get(&self, index: usize) -> (source: Option<&CSource>)
        ensures
            match source {
                Some(c) => index < self@.len() && c@ == self@[index as int],
                None => index >= self@.len(),
            },
    {
        if index < self.c_sources.len() {
            Some(&self.c_sources[index])
        } else {
            None
        }
    }
}

} // verus!
