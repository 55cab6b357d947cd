//! Properties that hold of every compilation and every build.
use vstd::prelude::*;
use crate::compiler::{
    all_decls, binding_index, clashes, compile_spec, declares, defined_earlier, dirs_overlap, first_clash,
    first_unmatched, first_where, generated, lemma_first_where, lemma_first_where_stable, namespace_index, resolves,
    rule_caps, type_index, upstream_index,
};
use crate::model::{ArtifactView, ConfigView, ErrorView, FileView, NamespaceId, OriginView};
use crate::pipeline::{pipeline_spec, UnitView};
use crate::tables::{mirror_table, mirror_view, out_dir_of, streams_table, streams_view};

verus! {

/// Compiling the same schema inputs, rules and bindings twice gives the same
/// outcome: it depends on the views of the inputs alone.
pub proof fn law_compile_deterministic(
    cfg1: ConfigView,
    cfg2: ConfigView,
    files1: Seq<FileView>,
    files2: Seq<FileView>,
    compiled1: Seq<ArtifactView>,
    compiled2: Seq<ArtifactView>,
    serialization: bool,
)
    requires
        cfg1 == cfg2,
        files1 == files2,
        compiled1 == compiled2,
    ensures
        compile_spec(cfg1, files1, compiled1, serialization) == compile_spec(
            cfg2,
            files2,
            compiled2,
            serialization,
        ),
{
}

/// Changing one declaration leaves the generated representation of every
/// other declaration unchanged.
pub proof fn law_isolation(
    cfg: ConfigView,
    files1: Seq<FileView>,
    files2: Seq<FileView>,
    compiled: Seq<ArtifactView>,
    serialization: bool,
    changed: int,
    i: int,
)
    requires
        all_decls(files1).len() == all_decls(files2).len(),
        forall|k: int|
            0 <= k < all_decls(files1).len() && k != changed ==> all_decls(files1)[k]
                == all_decls(files2)[k],
        compile_spec(cfg, files1, compiled, serialization) is Ok,
        compile_spec(cfg, files2, compiled, serialization) is Ok,
        0 <= i < all_decls(files1).len(),
        i != changed,
    ensures
        compile_spec(cfg, files1, compiled, serialization)->Ok_0.types[i] == compile_spec(
            cfg,
            files2,
            compiled,
            serialization,
        )->Ok_0.types[i],
{
}

/// A rule that names a type absent from the schema set makes compilation
/// fail with an unmatched-rule error.
pub proof fn law_unmatched_rule_fails(
    cfg: ConfigView,
    files: Seq<FileView>,
    compiled: Seq<ArtifactView>,
    serialization: bool,
    k: int,
)
    requires
        0 <= k < cfg.rules.len(),
        !declares(all_decls(files), cfg.rules[k].target_type),
    ensures
        compile_spec(cfg, files, compiled, serialization) is Err,
        compile_spec(cfg, files, compiled, serialization)->Err_0 is UnmatchedRule,
{
    let p = |k: int| !declares(all_decls(files), cfg.rules[k].target_type);
    lemma_first_where(p, cfg.rules.len() as int);
    assert(p(k));
}

/// Where every rule names a declared type, compilation never fails with an
/// unmatched-rule error.
pub proof fn law_matched_rules_pass(
    cfg: ConfigView,
    files: Seq<FileView>,
    compiled: Seq<ArtifactView>,
    serialization: bool,
)
    requires
        forall|k: int|
            0 <= k < cfg.rules.len() ==> declares(all_decls(files), #[trigger] cfg.rules[k].target_type),
    ensures
        !(compile_spec(cfg, files, compiled, serialization) is Err && compile_spec(
            cfg,
            files,
            compiled,
            serialization,
        )->Err_0 is UnmatchedRule),
{
    let p = |k: int| !declares(all_decls(files), cfg.rules[k].target_type);
    lemma_first_where(p, cfg.rules.len() as int);
    assert(first_unmatched(cfg, all_decls(files)) < 0);
}

/// The capabilities that rules grant to one name, where exactly one rule names it.
proof fn lemma_single_rule(rules: Seq<crate::model::RuleView>, k: int)
    requires
        0 <= k < rules.len(),
        forall|a: int| 0 <= a < rules.len() && a != k ==> rules[a].target_type != rules[k].target_type,
    ensures
        rule_caps(rules, rules[k].target_type) == rules[k].capabilities,
    decreases rules.len(),
{
    let name = rules[k].target_type;
    if k == rules.len() - 1 {
        lemma_no_rule(rules.drop_last(), name);
    } else {
        lemma_single_rule(rules.drop_last(), k);
    }
}

proof fn lemma_no_rule(rules: Seq<crate::model::RuleView>, name: Seq<char>)
    requires
        forall|a: int| 0 <= a < rules.len() ==> rules[a].target_type != name,
    ensures
        rule_caps(rules, name) == (crate::model::Capabilities { map_key: false, serialization: false }),
    decreases rules.len(),
{
    if rules.len() > 0 {
        lemma_no_rule(rules.drop_last(), name);
    }
}

/// A type that a rule names, compiled successfully and not bound upstream, is
/// defined locally with exactly the capabilities that the rules grant it, less
/// serialization when that is switched off. With a single rule for the name,
/// those are the capabilities of that rule.
pub proof fn law_rule_grants_exactly(
    cfg: ConfigView,
    files: Seq<FileView>,
    compiled: Seq<ArtifactView>,
    serialization: bool,
    k: int,
    i: int,
)
    requires
        0 <= k < cfg.rules.len(),
        0 <= i < all_decls(files).len(),
        all_decls(files)[i].name == cfg.rules[k].target_type,
        binding_index(cfg.bindings, cfg.rules[k].target_type) < 0,
        compile_spec(cfg, files, compiled, serialization) is Ok,
    ensures
        ({
            let t = compile_spec(cfg, files, compiled, serialization)->Ok_0.types[i];
            &&& t.origin == OriginView::Local
            &&& t.capabilities == rule_caps(cfg.rules, cfg.rules[k].target_type).gated(serialization)
            &&& (forall|a: int|
                0 <= a < cfg.rules.len() && a != k ==> cfg.rules[a].target_type
                    != cfg.rules[k].target_type) ==> t.capabilities
                == cfg.rules[k].capabilities.gated(serialization)
        }),
{
    if forall|a: int|
        0 <= a < cfg.rules.len() && a != k ==> cfg.rules[a].target_type != cfg.rules[k].target_type {
        lemma_single_rule(cfg.rules, k);
    }
}

/// With every rule matched, a binding whose target the upstream artifact
/// lacks, or whose upstream namespace has not been compiled, makes
/// compilation fail with an unresolved-extern error.
pub proof fn law_unresolved_binding_fails(
    cfg: ConfigView,
    files: Seq<FileView>,
    compiled: Seq<ArtifactView>,
    serialization: bool,
    k: int,
)
    requires
        0 <= k < cfg.bindings.len(),
        !resolves(cfg, compiled, cfg.bindings[k]),
        forall|r: int|
            0 <= r < cfg.rules.len() ==> declares(all_decls(files), #[trigger] cfg.rules[r].target_type),
    ensures
        compile_spec(cfg, files, compiled, serialization) is Err,
        compile_spec(cfg, files, compiled, serialization)->Err_0 is UnresolvedExtern,
{
    let pr = |r: int| !declares(all_decls(files), cfg.rules[r].target_type);
    lemma_first_where(pr, cfg.rules.len() as int);
    let pb = |k: int| !resolves(cfg, compiled, cfg.bindings[k]);
    lemma_first_where(pb, cfg.bindings.len() as int);
    assert(pb(k));
}

/// Compiling the mirror or streams namespace before the primary one has been
/// compiled fails with an unresolved-extern error on its first binding.
pub proof fn law_dependent_needs_primary(
    root: Seq<char>,
    files: Seq<FileView>,
    compiled: Seq<ArtifactView>,
    serialization: bool,
)
    requires
        namespace_index(compiled, NamespaceId::Primary) < 0,
    ensures
        compile_spec(mirror_view(root), files, compiled, serialization) == Err::<
            ArtifactView,
            ErrorView,
        >(ErrorView::UnresolvedExtern { namespace: NamespaceId::Mirror, name: mirror_table()[0].upstream_name }),
        compile_spec(streams_view(root), files, compiled, serialization) == Err::<
            ArtifactView,
            ErrorView,
        >(ErrorView::UnresolvedExtern { namespace: NamespaceId::Streams, name: streams_table()[0].upstream_name }),
{
    let m = mirror_view(root);
    let s = streams_view(root);
    let pm = |k: int| !resolves(m, compiled, m.bindings[k]);
    let ps = |k: int| !resolves(s, compiled, s.bindings[k]);
    assert(pm(0));
    assert(ps(0));
    assert(first_where(pm, 0) == -1);
    assert(first_where(ps, 0) == -1);
    assert(first_where(pm, 1) == 0);
    assert(first_where(ps, 1) == 0);
    lemma_first_where_stable(pm, 1, m.bindings.len() as int);
    lemma_first_where_stable(ps, 1, s.bindings.len() as int);
    assert(first_unmatched(m, all_decls(files)) < 0);
    assert(first_unmatched(s, all_decls(files)) < 0);
}

/// In a successful compilation every binding resolves in the upstream
/// artifact, and a declared type that a binding names is a reference to the
/// upstream type, of exactly its kind and capabilities, not a new definition.
pub proof fn law_binding_reference_shape(
    cfg: ConfigView,
    files: Seq<FileView>,
    compiled: Seq<ArtifactView>,
    serialization: bool,
    i: int,
)
    requires
        compile_spec(cfg, files, compiled, serialization) is Ok,
        0 <= i < all_decls(files).len(),
        binding_index(cfg.bindings, all_decls(files)[i].name) >= 0,
    ensures
        forall|k: int| 0 <= k < cfg.bindings.len() ==> resolves(cfg, compiled, #[trigger] cfg.bindings[k]),
        ({
            let t = compile_spec(cfg, files, compiled, serialization)->Ok_0.types[i];
            let up = compiled[upstream_index(cfg, compiled)];
            &&& t.origin is Extern
            &&& cfg.upstream == Some(up.namespace)
            &&& t.origin->Extern_namespace == up.namespace
            &&& exists|j: int|
                0 <= j < up.types.len() && up.types[j].name == t.origin->Extern_upstream_name
                    && up.types[j].kind == t.kind && up.types[j].capabilities == t.capabilities
        }),
{
    let p = |k: int| !resolves(cfg, compiled, cfg.bindings[k]);
    lemma_first_where(p, cfg.bindings.len() as int);
    assert forall|k: int| 0 <= k < cfg.bindings.len() implies resolves(
        cfg,
        compiled,
        #[trigger] cfg.bindings[k],
    ) by {
        assert(!p(k));
    }
    let b = binding_index(cfg.bindings, all_decls(files)[i].name);
    let pb = |x: int| cfg.bindings[x].local_name == all_decls(files)[i].name;
    lemma_first_where(pb, cfg.bindings.len() as int);
    assert(resolves(cfg, compiled, cfg.bindings[b]));
    let u = upstream_index(cfg, compiled);
    let up = compiled[u];
    let pu = |x: int| compiled[x].namespace == cfg.upstream->Some_0;
    lemma_first_where(pu, compiled.len() as int);
    let name = cfg.bindings[b].upstream_name;
    let pt = |x: int| up.types[x].name == name;
    lemma_first_where(pt, up.types.len() as int);
    let j = type_index(up.types, name);
    assert(0 <= j < up.types.len() && up.types[j].name == name);
}

/// Two paths that differ at a position before either ends share no directory.
proof fn lemma_differ_no_overlap(x: Seq<char>, y: Seq<char>, j: int)
    requires
        0 <= j < x.len(),
        j < y.len(),
        x[j] != y[j],
    ensures
        !dirs_overlap(x, y),
{
    if y.len() <= x.len() {
        assert(x.take(y.len() as int)[j] == x[j]);
    }
    if x.len() <= y.len() {
        assert(y.take(x.len() as int)[j] == y[j]);
    }
}

/// The three namespaces write to three disjoint directories: none lies
/// within another.
pub proof fn law_output_dirs_disjoint(root: Seq<char>, a: NamespaceId, b: NamespaceId)
    requires
        a != b,
    ensures
        !dirs_overlap(out_dir_of(root, a), out_dir_of(root, b)),
{
    reveal_strlit("/services");
    reveal_strlit("/mirror");
    reveal_strlit("/streams");
    let n = root.len() as int;
    let x = out_dir_of(root, a);
    let y = out_dir_of(root, b);
    let j = if (a == NamespaceId::Primary && b == NamespaceId::Streams) || (a
        == NamespaceId::Streams && b == NamespaceId::Primary) {
        n + 2
    } else {
        n + 1
    };
    assert(x[j] != y[j]);
    lemma_differ_no_overlap(x, y, j);
}

/// A successful pipeline compiled each unit against the artifacts of the
/// units before it.
pub proof fn lemma_pipeline_steps(units: Seq<UnitView>, serialization: bool)
    requires
        pipeline_spec(units, serialization) is Ok,
    ensures
        ({
            let arts = pipeline_spec(units, serialization)->Ok_0;
            &&& arts.len() == units.len()
            &&& forall|b: int|
                0 <= b < units.len() ==> compile_spec(
                    (#[trigger] units[b]).config,
                    units[b].files,
                    arts.take(b),
                    serialization,
                ) == Ok::<ArtifactView, ErrorView>(arts[b])
        }),
    decreases units.len(),
{
    if units.len() > 0 {
        let prev = units.drop_last();
        lemma_pipeline_steps(prev, serialization);
        let arts0 = pipeline_spec(prev, serialization)->Ok_0;
        let arts = pipeline_spec(units, serialization)->Ok_0;
        assert(arts.take(units.len() - 1) =~= arts0);
        assert forall|b: int| 0 <= b < units.len() implies compile_spec(
            (#[trigger] units[b]).config,
            units[b].files,
            arts.take(b),
            serialization,
        ) == Ok::<ArtifactView, ErrorView>(arts[b]) by {
            if b < units.len() - 1 {
                assert(prev[b] == units[b]);
                assert(arts0.take(b) =~= arts.take(b));
            }
        }
    }
}

/// No two namespaces of a successful build emit a type of the same name
/// unless the later one emits it as a reference to an earlier one.
pub proof fn law_no_shared_definitions(
    units: Seq<UnitView>,
    serialization: bool,
    a: int,
    b: int,
    i: int,
    j: int,
)
    requires
        pipeline_spec(units, serialization) is Ok,
        0 <= a < b < units.len(),
        0 <= i < pipeline_spec(units, serialization)->Ok_0[a].types.len(),
        0 <= j < pipeline_spec(units, serialization)->Ok_0[b].types.len(),
        pipeline_spec(units, serialization)->Ok_0[a].types[i].name == pipeline_spec(
            units,
            serialization,
        )->Ok_0[b].types[j].name,
    ensures
        pipeline_spec(units, serialization)->Ok_0[b].types[j].origin is Extern,
{
    lemma_pipeline_steps(units, serialization);
    let arts = pipeline_spec(units, serialization)->Ok_0;
    assert(arts.take(b)[a] == arts[a]);
    if arts[b].types[j].origin == OriginView::Local {
        lemma_local_is_new(units[b].config, units[b].files, arts.take(b), serialization, j, a, i);
    }
}

/// A type that a successful compilation defines locally is emitted by none of
/// the artifacts compiled before it.
proof fn lemma_local_is_new(
    cfg: ConfigView,
    files: Seq<FileView>,
    compiled: Seq<ArtifactView>,
    serialization: bool,
    j: int,
    a: int,
    i: int,
)
    requires
        compile_spec(cfg, files, compiled, serialization) is Ok,
        0 <= j < compile_spec(cfg, files, compiled, serialization)->Ok_0.types.len(),
        compile_spec(cfg, files, compiled, serialization)->Ok_0.types[j].origin == OriginView::Local,
        0 <= a < compiled.len(),
        0 <= i < compiled[a].types.len(),
    ensures
        compiled[a].types[i].name != compile_spec(cfg, files, compiled, serialization)->Ok_0.types[j].name,
{
    let ds = all_decls(files);
    let p = |x: int| clashes(cfg, ds, compiled, x);
    lemma_first_where(p, ds.len() as int);
    assert(first_clash(cfg, ds, compiled) < 0);
    assert(!p(j));
    let name = ds[j].name;
    let up = compiled[upstream_index(cfg, compiled)];
    let t = compile_spec(cfg, files, compiled, serialization)->Ok_0.types[j];
    assert(t == generated(cfg, up, ds[j], serialization));
    assert(t.name == name);
    assert(binding_index(cfg.bindings, name) < 0);
    assert(!defined_earlier(compiled, name));
    assert(type_index(compiled[a].types, name) < 0);
    let pt = |x: int| compiled[a].types[x].name == name;
    lemma_first_where(pt, compiled[a].types.len() as int);
    assert(!pt(i));
}

/// Toggling the serialization flag changes nothing but the serialization
/// capability of locally defined types that a rule grants it to: the same
/// errors, the same names, kinds, origins and map-key capabilities.
pub proof fn law_feature_gate(cfg: ConfigView, files: Seq<FileView>, compiled: Seq<ArtifactView>)
    ensures
        ({
            let on = compile_spec(cfg, files, compiled, true);
            let off = compile_spec(cfg, files, compiled, false);
            &&& on is Err <==> off is Err
            &&& on is Err ==> on == off
            &&& on is Ok ==> {
                let x = on->Ok_0;
                let y = off->Ok_0;
                &&& x.namespace == y.namespace
                &&& x.out_dir == y.out_dir
                &&& x.stubs == y.stubs
                &&& x.types.len() == y.types.len()
                &&& forall|k: int|
                    0 <= k < x.types.len() ==> {
                        let t = #[trigger] x.types[k];
                        let u = y.types[k];
                        &&& t.name == u.name
                        &&& t.kind == u.kind
                        &&& t.origin == u.origin
                        &&& t.capabilities.map_key == u.capabilities.map_key
                        &&& !u.capabilities.serialization || t.origin is Extern
                        &&& t.capabilities != u.capabilities ==> t.origin == OriginView::Local
                            && rule_caps(cfg.rules, t.name).serialization
                    }
            }
        }),
{
}

} // verus!
