//! The graph compiler: writes the edges of targets and scopes as text.

use vstd::prelude::*;

use crate::artifact::{sources_list_view, Artifact, ArtifactView};
use crate::edges::{
    all_sources, artifact_rules, compile_edge, compile_edges, edge_line, edge_lines,
    lemma_edge_lines_push, lemma_flatten_take_next, lemma_scope_rules_empty,
    lemma_scope_rules_push, lemma_space_joined_push, link_edge, object_target, object_targets,
    scope_rules, space_joined, Edge, Rule,
};
use crate::scope::{artifacts_view, Scope};
use crate::sources::{sources_view, CSource, CSourceView};

verus! {

/// Appends the object files of a target to `out`, separated by single
/// spaces, in the order of its collections and of the files in each.
pub fn genlist_object_files(out: &mut String, artifact: &Artifact)
    ensures
        final(out)@ == old(out)@ + space_joined(object_targets(all_sources(artifact@))),
{
    let ghost start = out@;
    let list = artifact.sources();
    let mut first = true;
    let mut i: usize = 0;
    assert(artifact@.sources.take(0).flatten() =~= Seq::<CSourceView>::empty());
    assert(object_targets(Seq::<CSourceView>::empty()) =~= Seq::<Seq<char>>::empty());
    assert(out@ =~= start + space_joined(Seq::<Seq<char>>::empty()));
    while i < list.len()
        invariant
            i <= list.len(),
            sources_list_view(list@) == artifact@.sources,
            first == (artifact@.sources.take(i as int).flatten().len() == 0),
            out@ == start + space_joined(
                object_targets(artifact@.sources.take(i as int).flatten()),
            ),
        decreases list.len() - i,
    {
        let files = list[i].files();
        let ghost before = artifact@.sources.take(i as int).flatten();
        let ghost here = artifact@.sources[i as int];
        let mut j: usize = 0;
        assert(before + here.take(0) =~= before);
        while j < files.len()
            invariant
                j <= files.len(),
                sources_view(files@) == here,
                first == ((before + here.take(j as int)).len() == 0),
                out@ == start + space_joined(object_targets(before + here.take(j as int))),
            decreases files.len() - j,
        {
            let source: &CSource = &files[j];
            let ghost written = before + here.take(j as int);
            proof {
                assert(before + here.take(j + 1) =~= written.push(source@));
                assert(object_targets(written.push(source@)) =~= object_targets(written).push(
                    object_target(source@),
                ));
                lemma_space_joined_push(object_targets(written), object_target(source@));
            }
            if !first {
                out.append(" ");
            }
            out.append("$builddir/");
            out.append(source.output_path());
            first = false;
            j += 1;
            assert(out@ =~= start + space_joined(object_targets(before + here.take(j as int))));
        }
        proof {
            assert(here.take(files.len() as int) =~= here);
            lemma_flatten_take_next(artifact@.sources, i as int);
        }
        i += 1;
    }
    assert(artifact@.sources.take(list.len() as int) =~= artifact@.sources);
}

/// Appends the line of the edge that compiles `source`.
fn gen_compile_edge(out: &mut String, source: &CSource)
    ensures
        final(out)@ == old(out)@ + edge_line(compile_edge(source@)),
{
    out.append("build ");
    out.append("$builddir/");
    out.append(source.output_path());
    out.append(": ");
    out.append(Rule::Cc.name());
    out.append(" ");
    out.append(source.input_path());
    out.append("\n");
    proof {
        let edge = compile_edge(source@);
        assert(space_joined(edge.inputs) == source@.input_path);
        assert(out@ =~= old(out)@ + edge_line(edge));
    }
}

/// Appends the rules of one target to `out`: a compile edge for each source
/// file, then the link-stage edge over all object files, then an empty
/// line.
pub fn genrules_artifact(out: &mut String, artifact: &Artifact)
    ensures
        final(out)@ == old(out)@ + artifact_rules(artifact@),
{
    let ghost start = out@;
    let list = artifact.sources();
    let mut i: usize = 0;
    assert(artifact@.sources.take(0).flatten() =~= Seq::<CSourceView>::empty());
    assert(compile_edges(Seq::<CSourceView>::empty()) =~= Seq::<Edge>::empty());
    assert(out@ =~= start + edge_lines(Seq::<Edge>::empty()));
    while i < list.len()
        invariant
            i <= list.len(),
            sources_list_view(list@) == artifact@.sources,
            out@ == start + edge_lines(
                compile_edges(artifact@.sources.take(i as int).flatten()),
            ),
        decreases list.len() - i,
    {
        let files = list[i].files();
        let ghost before = artifact@.sources.take(i as int).flatten();
        let ghost here = artifact@.sources[i as int];
        let mut j: usize = 0;
        assert(before + here.take(0) =~= before);
        while j < files.len()
            invariant
                j <= files.len(),
                sources_view(files@) == here,
                out@ == start + edge_lines(compile_edges(before + here.take(j as int))),
            decreases files.len() - j,
        {
            let source: &CSource = &files[j];
            let ghost written = before + here.take(j as int);
            proof {
                assert(before + here.take(j + 1) =~= written.push(source@));
                assert(compile_edges(written.push(source@)) =~= compile_edges(written).push(
                    compile_edge(source@),
                ));
                lemma_edge_lines_push(compile_edges(written), compile_edge(source@));
            }
            gen_compile_edge(out, source);
            j += 1;
            assert(out@ =~= start + edge_lines(compile_edges(before + here.take(j as int))));
        }
        proof {
            assert(here.take(files.len() as int) =~= here);
            lemma_flatten_take_next(artifact@.sources, i as int);
        }
        i += 1;
    }
    assert(artifact@.sources.take(list.len() as int) =~= artifact@.sources);
    let ghost compiled = out@;
    let kind = artifact.kind();
    out.append("build ");
    out.append(artifact.output().as_str());
    out.append(kind.output_suffix());
    out.append(": ");
    out.append(kind.link_rule().name());
    out.append(" ");
    genlist_object_files(out, artifact);
    out.append("\n");
    out.append("\n");
    proof {
        let edge = link_edge(artifact@);
        assert(out@ =~= compiled + edge_line(edge));
        lemma_edge_lines_push(compile_edges(all_sources(artifact@)), edge);
        assert(out@ =~= start + artifact_rules(artifact@));
    }
}

/// Appends the rules of the targets declared in `scope` to `out`, in
/// declaration order. Only the scope's own targets are walked, not those
/// of the scopes nested in it.
pub fn genrules_scope(out: &mut String, scope: &Scope)
    ensures
        final(out)@ == old(out)@ + scope_rules(scope@.artifacts),
{
    let ghost start = out@;
    let list = scope.artifacts();
    let mut i: usize = 0;
    proof {
        lemma_scope_rules_empty();
        assert(scope@.artifacts.take(0) =~= Seq::<ArtifactView>::empty());
        assert(out@ =~= start + scope_rules(scope@.artifacts.take(0)));
    }
    while i < list.len()
        invariant
            i <= list.len(),
            artifacts_view(list@) == scope@.artifacts,
            out@ == start + scope_rules(scope@.artifacts.take(i as int)),
        decreases list.len() - i,
    {
        proof {
            let declared = scope@.artifacts.take(i as int);
            let next = scope@.artifacts[i as int];
            assert(scope@.artifacts.take(i + 1) =~= declared.push(next));
            lemma_scope_rules_push(declared, next);
        }
        genrules_artifact(out, &list[i]);
        i += 1;
        assert(out@ =~= start + scope_rules(scope@.artifacts.take(i as int)));
    }
    assert(scope@.artifacts.take(list.len() as int) =~= scope@.artifacts);
}

} // verus!
