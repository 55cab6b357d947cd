//! The pipeline driver: compiles the namespaces in dependency order, each one
//! against the artifacts of those before it, and stops at the first failure.
use vstd::prelude::*;
use crate::compiler::{compile, compile_spec};
use crate::model::{
    artifacts_view, files_view, Artifact, ArtifactView, BuildError, ConfigView, ErrorView,
    FileView, NamespaceConfig, SchemaFile,
};
use crate::tables::{
    mirror_config, mirror_view, primary_config, primary_view, streams_config, streams_view,
};

verus! {

/// One invocation of the namespace compiler: a config and its schema set.
pub struct CompilationUnit {
    pub config: NamespaceConfig,
    pub files: Vec<SchemaFile>,
}

pub struct UnitView {
    pub config: ConfigView,
    pub files: Seq<FileView>,
}

impl View for CompilationUnit {
    type V = UnitView;

    open spec fn view(&self) -> UnitView {
        UnitView { config: self.config@, files: files_view(self.files@) }
    }
}

pub open spec fn units_view(u: Seq<CompilationUnit>) -> Seq<UnitView> {
    u.map_values(|x: CompilationUnit| x@)
}

/// The outcome of compiling the units in order: the first error, or one
/// artifact per unit.
pub open spec fn pipeline_spec(units: Seq<UnitView>, serialization: bool) -> Result<
    Seq<ArtifactView>,
    ErrorView,
>
    decreases units.len(),
{
    if units.len() == 0 {
        Ok(Seq::empty())
    } else {
        match pipeline_spec(units.drop_last(), serialization) {
            Err(e) => Err(e),
            Ok(arts) => match compile_spec(
                units.last().config,
                units.last().files,
                arts,
                serialization,
            ) {
                Err(e) => Err(e),
                Ok(a) => Ok(arts.push(a)),
            },
        }
    }
}

pub open spec fn pipeline_outcome(r: Result<Vec<Artifact>, BuildError>) -> Result<
    Seq<ArtifactView>,
    ErrorView,
> {
    match r {
        Ok(v) => Ok(artifacts_view(v@)),
        Err(e) => Err(e@),
    }
}

/// Compiles the units in order, each against the artifacts of the units
/// before it; the first failure aborts the rest.
pub fn run_pipeline(units: &Vec<CompilationUnit>, serialization: bool) -> (r: Result<
    Vec<Artifact>,
    BuildError,
>)
    ensures
        pipeline_outcome(r) == pipeline_spec(units_view(units@), serialization),
{
    let ghost uv = units_view(units@);
    let mut arts: Vec<Artifact> = Vec::new();
    let mut i: usize = 0;
    assert(uv.take(0) =~= Seq::<UnitView>::empty());
    assert(artifacts_view(arts@) =~= Seq::<ArtifactView>::empty());
    while i < units.len()
        invariant
            i <= units.len(),
            uv == units_view(units@),
            pipeline_spec(uv.take(i as int), serialization) == Ok::<Seq<ArtifactView>, ErrorView>(
                artifacts_view(arts@),
            ),
        decreases units.len() - i,
    {
        assert(uv.take(i + 1).drop_last() =~= uv.take(i as int));
        assert(uv[i as int] == units@[i as int]@);
        match compile(&units[i].config, &units[i].files, &arts, serialization) {
            Err(e) => {
                proof {
                    lemma_pipeline_stops(uv, i as int + 1, serialization);
                }
                return Err(e);
            },
            Ok(a) => {
                let ghost prev = arts@;
                arts.push(a);
                assert(artifacts_view(arts@) =~= artifacts_view(prev).push(a@));
            },
        }
        i += 1;
    }
    assert(uv.take(i as int) =~= uv);
    Ok(arts)
}

/// Once a prefix of the units fails, the whole pipeline fails with that error.
proof fn lemma_pipeline_stops(units: Seq<UnitView>, n: int, serialization: bool)
    requires
        0 <= n <= units.len(),
        pipeline_spec(units.take(n), serialization) is Err,
    ensures
        pipeline_spec(units, serialization) == pipeline_spec(units.take(n), serialization),
    decreases units.len() - n,
{
    if n < units.len() {
        assert(units.take(n + 1).drop_last() =~= units.take(n));
        lemma_pipeline_stops(units, n + 1, serialization);
    } else {
        assert(units.take(n) =~= units);
    }
}

/// The three namespaces of the build, in dependency order.
pub open spec fn standard_units(
    root: Seq<char>,
    primary: Seq<FileView>,
    mirror: Seq<FileView>,
    streams: Seq<FileView>,
) -> Seq<UnitView> {
    seq![
        UnitView { config: primary_view(root), files: primary },
        UnitView { config: mirror_view(root), files: mirror },
        UnitView { config: streams_view(root), files: streams },
    ]
}

/// Runs the whole build: the primary namespace, then mirror and streams, each
/// bound to the primary artifact, with their output under `out_root`.
pub fn build(
    out_root: &String,
    primary: Vec<SchemaFile>,
    mirror: Vec<SchemaFile>,
    streams: Vec<SchemaFile>,
    serialization: bool,
) -> (r: Result<Vec<Artifact>, BuildError>)
    ensures
        pipeline_outcome(r) == pipeline_spec(
            standard_units(out_root@, files_view(primary@), files_view(mirror@), files_view(streams@)),
            serialization,
        ),
{
    let ghost expected = standard_units(
        out_root@,
        files_view(primary@),
        files_view(mirror@),
        files_view(streams@),
    );
    let mut units: Vec<CompilationUnit> = Vec::new();
    units.push(CompilationUnit { config: primary_config(out_root), files: primary });
    units.push(CompilationUnit { config: mirror_config(out_root), files: mirror });
    units.push(CompilationUnit { config: streams_config(out_root), files: streams });
    assert(units_view(units@) =~= expected);
    run_pipeline(&units, serialization)
}

} // verus!
