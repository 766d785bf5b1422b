//! Build edges: which edges a target and a scope give rise to, how an
//! edge is written, and what holds of the edges of every target and scope.
//!
//! A target yields one compile edge for each of its source files, in the
//! order of its collections and of the files in each collection, and after
//! them one link-stage edge whose inputs are all the object files in that
//! same order.

use vstd::prelude::*;

use crate::artifact::{ArtifactKind, ArtifactView};
use crate::sources::CSourceView;

verus! {

/// The rule by which an edge is built.
#[derive(Clone, Copy, Debug, PartialEq, Eq, Structural)]
pub enum Rule {
    /// Compiles one source file.
    Cc,
    /// Archives object files into a static library.
    Ar,
    /// Links object files into an executable.
    Link,
    /// Links object files into a shared library.
    LinkSo,
}

/// One build edge: the file that is produced, the rule that produces it,
/// and the files it is produced from.
pub struct Edge {
    pub rule: Rule,
    pub output: Seq<char>,
    pub inputs: Seq<Seq<char>>,
}

/// The name under which the script declares and uses a rule.
pub open spec fn rule_name(rule: Rule) -> Seq<char> {
    match rule {
        Rule::Cc => "cc"@,
        Rule::Ar => "ar"@,
        Rule::Link => "link"@,
        Rule::LinkSo => "linkso"@,
    }
}

/// The rule of the link stage for each kind of target.
pub open spec fn link_rule(kind: ArtifactKind) -> Rule {
    match kind {
        ArtifactKind::Binary => Rule::Link,
        ArtifactKind::StaticLib => Rule::Ar,
        ArtifactKind::DynLib => Rule::LinkSo,
    }
}

/// What is appended to the output path of a target of the given kind: the
/// platform's suffix for executables, and nothing for libraries.
pub open spec fn output_suffix(kind: ArtifactKind) -> Seq<char> {
    match kind {
        ArtifactKind::Binary => ".exe"@,
        ArtifactKind::StaticLib => Seq::empty(),
        ArtifactKind::DynLib => Seq::empty(),
    }
}

/// The path of an object file as the script names it, inside the build
/// directory.
pub open spec fn object_target(source: CSourceView) -> Seq<char> {
    "$builddir/"@ + source.output_path
}

/// The edge that compiles one source file.
pub open spec fn compile_edge(source: CSourceView) -> Edge {
    Edge { rule: Rule::Cc, output: object_target(source), inputs: seq![source.input_path] }
}

/// The compile edges of a run of source files, in the same order.
pub open spec fn compile_edges(sources: Seq<CSourceView>) -> Seq<Edge> {
    sources.map_values(|source: CSourceView| compile_edge(source))
}

/// The object files of a run of source files, in the same order.
pub open spec fn object_targets(sources: Seq<CSourceView>) -> Seq<Seq<char>> {
    sources.map_values(|source: CSourceView| object_target(source))
}

/// All source files of a target: its collections one after the other, each
/// in its own order.
pub open spec fn all_sources(artifact: ArtifactView) -> Seq<CSourceView> {
    artifact.sources.flatten()
}

/// The link-stage edge of a target.
pub open spec fn link_edge(artifact: ArtifactView) -> Edge {
    Edge {
        rule: link_rule(artifact.kind),
        output: artifact.output + output_suffix(artifact.kind),
        inputs: object_targets(all_sources(artifact)),
    }
}

/// The edges of a target: its compile edges, then its link-stage edge.
pub open spec fn artifact_edges(artifact: ArtifactView) -> Seq<Edge> {
    compile_edges(all_sources(artifact)).push(link_edge(artifact))
}

/// The items written one after the other with a single space between
/// neighbours, and nothing before the first or after the last.
pub open spec fn space_joined(items: Seq<Seq<char>>) -> Seq<char>
    decreases items.len(),
{
    if items.len() == 0 {
        Seq::empty()
    } else if items.len() == 1 {
        items[0]
    } else {
        space_joined(items.drop_last()) + " "@ + items.last()
    }
}

/// What follows the line of an edge: an empty line after a link-stage
/// edge, which closes the block of its target, and nothing after a compile
/// edge.
pub open spec fn edge_gap(rule: Rule) -> Seq<char> {
    match rule {
        Rule::Cc => Seq::empty(),
        Rule::Ar => "\n"@,
        Rule::Link => "\n"@,
        Rule::LinkSo => "\n"@,
    }
}

/// The text of an edge: the line `build <output>: <rule> <inputs>`, ended
/// by a newline, and what follows the line.
pub open spec fn edge_line(edge: Edge) -> Seq<char> {
    "build "@ + edge.output + ": "@ + rule_name(edge.rule) + " "@ + space_joined(edge.inputs)
        + "\n"@ + edge_gap(edge.rule)
}

/// The text of a run of edges: their texts, one after the other.
pub open spec fn edge_lines(edges: Seq<Edge>) -> Seq<char> {
    edges.map_values(|edge: Edge| edge_line(edge)).flatten()
}

/// The edges of a scope: those of its targets, in declaration order.
/// Nested scopes contribute nothing.
pub open spec fn scope_edges(artifacts: Seq<ArtifactView>) -> Seq<Edge> {
    artifacts.map_values(|artifact: ArtifactView| artifact_edges(artifact)).flatten()
}

/// The text of a target: that of its edges.
pub open spec fn artifact_rules(artifact: ArtifactView) -> Seq<char> {
    edge_lines(artifact_edges(artifact))
}

/// The text of a scope: that of its edges.
pub open spec fn scope_rules(artifacts: Seq<ArtifactView>) -> Seq<char> {
    edge_lines(scope_edges(artifacts))
}

impl Rule {
    /// The name under which the script declares and uses the rule.
    pub fn name(self) -> (name: &'static str)
        ensures
            name@ == rule_name(self),
    {
        match self {
            Rule::Cc => "cc",
            Rule::Ar => "ar",
            Rule::Link => "link",
            Rule::LinkSo => "linkso",
        }
    }
}

impl ArtifactKind {
    /// The rule of the link stage for a target of this kind.
    pub fn link_rule(self) -> (rule: Rule)
        ensures
            rule == link_rule(self),
    {
        match self {
            ArtifactKind::Binary => Rule::Link,
            ArtifactKind::StaticLib => Rule::Ar,
            ArtifactKind::DynLib => Rule::LinkSo,
        }
    }

    /// What is appended to the output path of a target of this kind.
    pub fn output_suffix(self) -> (suffix: &'static str)
        ensures
            suffix@ == output_suffix(self),
    {
        proof {
            reveal_strlit("");
            assert(""@ =~= Seq::<char>::empty());
        }
        match self {
            ArtifactKind::Binary => ".exe",
            ArtifactKind::StaticLib => "",
            ArtifactKind::DynLib => "",
        }
    }
}

/// Joining one more item adds a space and the item, but for the first item,
/// which stands alone.
pub proof fn lemma_space_joined_push(items: Seq<Seq<char>>, item: Seq<char>)
    ensures
        space_joined(items.push(item)) == if items.len() == 0 {
            item
        } else {
            space_joined(items) + " "@ + item
        },
{
    assert(items.push(item).drop_last() =~= items);
}

/// The lines of a run of edges with one more edge are the lines of the run
/// followed by the line of that edge.
pub proof fn lemma_edge_lines_push(edges: Seq<Edge>, edge: Edge)
    ensures
        edge_lines(edges.push(edge)) == edge_lines(edges) + edge_line(edge),
{
    let lines = edges.map_values(|edge: Edge| edge_line(edge));
    assert(edges.push(edge).map_values(|edge: Edge| edge_line(edge)) =~= lines.push(
        edge_line(edge),
    ));
    lines.lemma_flatten_push(edge_line(edge));
}

/// The text of two runs of edges, one after the other, is the text of the
/// first followed by the text of the second.
pub proof fn lemma_edge_lines_add(first: Seq<Edge>, second: Seq<Edge>)
    ensures
        edge_lines(first + second) == edge_lines(first) + edge_lines(second),
{
    let first_lines = first.map_values(|edge: Edge| edge_line(edge));
    let second_lines = second.map_values(|edge: Edge| edge_line(edge));
    assert((first + second).map_values(|edge: Edge| edge_line(edge)) =~= first_lines
        + second_lines);
    vstd::seq_lib::lemma_flatten_concat(first_lines, second_lines);
}

/// Flattening one more collection appends its files to those before it.
pub proof fn lemma_flatten_take_next<A>(lists: Seq<Seq<A>>, i: int)
    requires
        0 <= i < lists.len(),
    ensures
        lists.take(i + 1).flatten() == lists.take(i).flatten() + lists[i],
{
    assert(lists.take(i + 1) =~= lists.take(i).push(lists[i]));
    lists.take(i).lemma_flatten_push(lists[i]);
}

/// Of a run of edges, those that compile a source file.
pub open spec fn compile_stage(edges: Seq<Edge>) -> Seq<Edge> {
    edges.filter(|edge: Edge| edge.rule == Rule::Cc)
}

/// Of a run of edges, those of the link stage: all that do not compile a
/// source file.
pub open spec fn link_stage(edges: Seq<Edge>) -> Seq<Edge> {
    edges.filter(|edge: Edge| edge.rule != Rule::Cc)
}

/// The number of items in a run of lists, all lists taken together.
pub open spec fn total_len<A>(lists: Seq<Seq<A>>) -> nat
    decreases lists.len(),
{
    if lists.len() == 0 {
        0
    } else {
        total_len(lists.drop_last()) + lists.last().len()
    }
}

/// The number of source files of a target: the sizes of its collections
/// added up.
pub open spec fn source_count(artifact: ArtifactView) -> nat {
    total_len(artifact.sources)
}

/// The link-stage edges of a run of targets, one for each, in the same
/// order.
pub open spec fn link_edges(artifacts: Seq<ArtifactView>) -> Seq<Edge> {
    artifacts.map_values(|artifact: ArtifactView| link_edge(artifact))
}

/// All source files of a run of targets: target after target, and in each
/// target collection after collection.
pub open spec fn scope_sources(artifacts: Seq<ArtifactView>) -> Seq<CSourceView> {
    artifacts.map_values(|artifact: ArtifactView| all_sources(artifact)).flatten()
}

/// The number of source files of a run of targets: their source counts
/// added up.
pub open spec fn scope_source_count(artifacts: Seq<ArtifactView>) -> nat
    decreases artifacts.len(),
{
    if artifacts.len() == 0 {
        0
    } else {
        scope_source_count(artifacts.drop_last()) + source_count(artifacts.last())
    }
}

/// Selecting from a run of edges with one more edge selects from the run,
/// and keeps the new edge if it is one to select.
proof fn lemma_filter_push(edges: Seq<Edge>, edge: Edge, keep: spec_fn(Edge) -> bool)
    ensures
        edges.push(edge).filter(keep) == if keep(edge) {
            edges.filter(keep).push(edge)
        } else {
            edges.filter(keep)
        },
{
    reveal(Seq::filter);
    assert(edges.push(edge).drop_last() =~= edges);
}

/// Compile edges all belong to the compile stage and none to the link
/// stage.
proof fn lemma_compile_edges_stage(sources: Seq<CSourceView>)
    ensures
        compile_stage(compile_edges(sources)) == compile_edges(sources),
        link_stage(compile_edges(sources)) == Seq::<Edge>::empty(),
    decreases sources.len(),
{
    reveal(Seq::filter);
    if sources.len() > 0 {
        let before = sources.drop_last();
        lemma_compile_edges_stage(before);
        assert(compile_edges(sources) =~= compile_edges(before).push(compile_edge(sources.last())));
        lemma_filter_push(
            compile_edges(before),
            compile_edge(sources.last()),
            |edge: Edge| edge.rule == Rule::Cc,
        );
        lemma_filter_push(
            compile_edges(before),
            compile_edge(sources.last()),
            |edge: Edge| edge.rule != Rule::Cc,
        );
    } else {
        assert(compile_edges(sources) =~= Seq::<Edge>::empty());
    }
}

/// A flattened run of lists has as many items as the lists have together.
pub proof fn lemma_flatten_len<A>(lists: Seq<Seq<A>>)
    ensures
        lists.flatten().len() == total_len(lists),
    decreases lists.len(),
{
    if lists.len() > 0 {
        lemma_flatten_len(lists.drop_last());
        assert(lists =~= lists.drop_last().push(lists.last()));
        lists.drop_last().lemma_flatten_push(lists.last());
    }
}

/// Every target has exactly one link-stage edge, built by the rule that
/// its kind calls for: `link` for a binary, `ar` for a static library,
/// `linkso` for a dynamic library. Its other edges are the compile edges of
/// its source files, one for each file of each of its collections.
pub proof fn lemma_artifact_edges(artifact: ArtifactView)
    ensures
        link_stage(artifact_edges(artifact)) == seq![link_edge(artifact)],
        link_edge(artifact).rule == link_rule(artifact.kind),
        rule_name(link_edge(artifact).rule) == match artifact.kind {
            ArtifactKind::Binary => "link"@,
            ArtifactKind::StaticLib => "ar"@,
            ArtifactKind::DynLib => "linkso"@,
        },
        compile_stage(artifact_edges(artifact)) == compile_edges(all_sources(artifact)),
        compile_stage(artifact_edges(artifact)).len() == source_count(artifact),
        artifact_edges(artifact).len() == source_count(artifact) + 1,
{
    let compiles = compile_edges(all_sources(artifact));
    lemma_compile_edges_stage(all_sources(artifact));
    lemma_filter_push(compiles, link_edge(artifact), |edge: Edge| edge.rule == Rule::Cc);
    lemma_filter_push(compiles, link_edge(artifact), |edge: Edge| edge.rule != Rule::Cc);
    lemma_flatten_len(artifact.sources);
    assert(Seq::<Edge>::empty().push(link_edge(artifact)) =~= seq![link_edge(artifact)]);
}

/// A target without source collections still has its link-stage edge, and
/// no other edge; the edge has no inputs, and its line ends after the
/// space that follows the rule.
pub proof fn lemma_artifact_without_sources(artifact: ArtifactView)
    requires
        artifact.sources.len() == 0,
    ensures
        artifact_edges(artifact) == seq![link_edge(artifact)],
        link_edge(artifact).inputs == Seq::<Seq<char>>::empty(),
        artifact_rules(artifact) == "build "@ + artifact.output + output_suffix(artifact.kind)
            + ": "@ + rule_name(link_rule(artifact.kind)) + " "@ + "\n"@ + "\n"@,
{
    let edge = link_edge(artifact);
    assert(all_sources(artifact) =~= Seq::<CSourceView>::empty());
    assert(compile_edges(all_sources(artifact)) =~= Seq::<Edge>::empty());
    assert(edge.inputs =~= Seq::<Seq<char>>::empty());
    assert(artifact_edges(artifact) =~= seq![edge]);
    lemma_edge_lines_push(Seq::<Edge>::empty(), edge);
    assert(edge_lines(Seq::<Edge>::empty()) =~= Seq::<char>::empty());
    assert(artifact_rules(artifact) =~= "build "@ + artifact.output + output_suffix(artifact.kind)
        + ": "@ + rule_name(link_rule(artifact.kind)) + " "@ + "\n"@ + "\n"@);
}

/// The edges of a scope with one more target are the edges of the scope
/// followed by those of the target.
pub proof fn lemma_scope_edges_push(artifacts: Seq<ArtifactView>, artifact: ArtifactView)
    ensures
        scope_edges(artifacts.push(artifact)) == scope_edges(artifacts) + artifact_edges(artifact),
        scope_sources(artifacts.push(artifact)) == scope_sources(artifacts) + all_sources(
            artifact,
        ),
{
    let edges = artifacts.map_values(|artifact: ArtifactView| artifact_edges(artifact));
    assert(artifacts.push(artifact).map_values(|artifact: ArtifactView| artifact_edges(artifact))
        =~= edges.push(artifact_edges(artifact)));
    edges.lemma_flatten_push(artifact_edges(artifact));
    let sources = artifacts.map_values(|artifact: ArtifactView| all_sources(artifact));
    assert(artifacts.push(artifact).map_values(|artifact: ArtifactView| all_sources(artifact))
        =~= sources.push(all_sources(artifact)));
    sources.lemma_flatten_push(all_sources(artifact));
}

/// A scope without targets has no edges and no text.
pub proof fn lemma_scope_rules_empty()
    ensures
        scope_edges(Seq::empty()) == Seq::<Edge>::empty(),
        scope_rules(Seq::empty()) == Seq::<char>::empty(),
{
    assert(scope_edges(Seq::empty()) =~= Seq::<Edge>::empty());
    assert(edge_lines(Seq::<Edge>::empty()) =~= Seq::<char>::empty());
}

/// The text of a scope with one more target is the text of the scope
/// followed by the text of the target: targets are written one after the
/// other, in declaration order.
pub proof fn lemma_scope_rules_push(artifacts: Seq<ArtifactView>, artifact: ArtifactView)
    ensures
        scope_rules(artifacts.push(artifact)) == scope_rules(artifacts) + artifact_rules(artifact),
{
    lemma_scope_edges_push(artifacts, artifact);
    lemma_edge_lines_add(scope_edges(artifacts), artifact_edges(artifact));
}

/// A scope with N targets has exactly N link-stage edges: the link-stage
/// edges of its targets, in declaration order. Its compile edges are those
/// of all source files of its targets, in declaration order of the targets
/// and, within each, in the order of its files; their number is the sum of
/// the targets' source counts.
pub proof fn lemma_scope_edges(artifacts: Seq<ArtifactView>)
    ensures
        link_stage(scope_edges(artifacts)) == link_edges(artifacts),
        link_stage(scope_edges(artifacts)).len() == artifacts.len(),
        compile_stage(scope_edges(artifacts)) == compile_edges(scope_sources(artifacts)),
        compile_stage(scope_edges(artifacts)).len() == scope_source_count(artifacts),
    decreases artifacts.len(),
{
    reveal(Seq::filter);
    if artifacts.len() == 0 {
        assert(scope_edges(artifacts) =~= Seq::<Edge>::empty());
        assert(scope_sources(artifacts) =~= Seq::<CSourceView>::empty());
        assert(link_edges(artifacts) =~= Seq::<Edge>::empty());
        assert(compile_edges(scope_sources(artifacts)) =~= Seq::<Edge>::empty());
    } else {
        let before = artifacts.drop_last();
        let last = artifacts.last();
        lemma_scope_edges(before);
        lemma_artifact_edges(last);
        assert(artifacts =~= before.push(last));
        lemma_scope_edges_push(before, last);
        Seq::filter_distributes_over_add(
            scope_edges(before),
            artifact_edges(last),
            |edge: Edge| edge.rule == Rule::Cc,
        );
        Seq::filter_distributes_over_add(
            scope_edges(before),
            artifact_edges(last),
            |edge: Edge| edge.rule != Rule::Cc,
        );
        assert(link_edges(artifacts) =~= link_edges(before) + seq![link_edge(last)]);
        assert(compile_edges(scope_sources(before) + all_sources(last)) =~= compile_edges(
            scope_sources(before),
        ) + compile_edges(all_sources(last)));
    }
}

} // verus!
