//! The namespace compiler: validates a namespace's rules, bindings and
//! declarations, then plans the generated representation of each type.
use vstd::prelude::*;
use vstd::string::StrSliceExecFns;
use crate::model::{
    artifacts_view, files_view, outcome_view, Artifact, ArtifactView, AttributeRule, BindingView,
    BuildError, Capabilities, ConfigView, DeclKind, DeclView, ErrorView, ExternBinding, FileView,
    GeneratedType, NamespaceConfig, NamespaceId, Origin, OriginView, RuleView, SchemaFile, ServiceStub,
    StubView, TypeView,
};

verus! {

/// The smallest index below `n` at which `p` holds, or -1 if there is none.
pub open spec fn first_where(p: spec_fn(int) -> bool, n: int) -> int
    decreases n,
{
    if n <= 0 {
        -1
    } else {
        let k = first_where(p, n - 1);
        if k >= 0 {
            k
        } else if p(n - 1) {
            n - 1
        } else {
            -1
        }
    }
}

pub proof fn lemma_first_where(p: spec_fn(int) -> bool, n: int)
    ensures
        first_where(p, n) < 0 <==> (forall|i: int| 0 <= i < n ==> !#[trigger] p(i)),
        first_where(p, n) >= 0 ==> {
            let k = first_where(p, n);
            &&& k < n
            &&& p(k)
            &&& forall|i: int| 0 <= i < k ==> !#[trigger] p(i)
        },
    decreases n,
{
    if n > 0 {
        lemma_first_where(p, n - 1);
    }
}

pub proof fn lemma_first_where_stable(p: spec_fn(int) -> bool, m: int, n: int)
    requires
        m <= n,
        first_where(p, m) >= 0,
    ensures
        first_where(p, n) == first_where(p, m),
    decreases n - m,
{
    if m < n {
        lemma_first_where_stable(p, m, n - 1);
    }
}

/// Position of the first generated type of the given name, or -1.
pub open spec fn type_index(types: Seq<TypeView>, name: Seq<char>) -> int {
    first_where(|i: int| types[i].name == name, types.len() as int)
}

fn find_type(types: &Vec<GeneratedType>, name: &String) -> (r: Option<usize>)
    ensures
        match r {
            Some(i) => i as int == type_index(types@.map_values(|t: GeneratedType| t@), name@)
                && i < types.len(),
            None => type_index(types@.map_values(|t: GeneratedType| t@), name@) < 0,
        },
{
    let ghost tv = types@.map_values(|t: GeneratedType| t@);
    let mut i: usize = 0;
    while i < types.len()
        invariant
            i <= types.len(),
            tv == types@.map_values(|t: GeneratedType| t@),
            first_where(|k: int| tv[k].name == name@, i as int) < 0,
        decreases types.len() - i,
    {
        if types[i].name == *name {
            assert(tv[i as int].name == name@);
            assert(first_where(|k: int| tv[k].name == name@, i + 1) == i);
            proof {
                lemma_first_where_stable(|k: int| tv[k].name == name@, i + 1, tv.len() as int);
            }
            return Some(i);
        }
        i += 1;
    }
    None
}

/// Every type declared by the files, in file order, then declaration order.
pub open spec fn all_decls(files: Seq<FileView>) -> Seq<DeclView>
    decreases files.len(),
{
    if files.len() == 0 {
        Seq::empty()
    } else {
        all_decls(files.drop_last()) + files.last().types
    }
}

/// Every service declared by the files, in the same order.
pub open spec fn all_services(files: Seq<FileView>) -> Seq<Seq<char>>
    decreases files.len(),
{
    if files.len() == 0 {
        Seq::empty()
    } else {
        all_services(files.drop_last()) + files.last().services
    }
}

/// The union of the capabilities that the rules grant to `name`.
pub open spec fn rule_caps(rules: Seq<RuleView>, name: Seq<char>) -> Capabilities
    decreases rules.len(),
{
    if rules.len() == 0 {
        Capabilities { map_key: false, serialization: false }
    } else {
        let c = rule_caps(rules.drop_last(), name);
        if rules.last().target_type == name {
            c.union(rules.last().capabilities)
        } else {
            c
        }
    }
}

pub open spec fn declares(ds: Seq<DeclView>, name: Seq<char>) -> bool {
    exists|i: int| 0 <= i < ds.len() && ds[i].name == name
}

/// The first rule that names no declared type, or -1.
pub open spec fn first_unmatched(cfg: ConfigView, ds: Seq<DeclView>) -> int {
    first_where(|k: int| !declares(ds, cfg.rules[k].target_type), cfg.rules.len() as int)
}

/// Where the namespace that bindings resolve against stands among the
/// artifacts compiled so far, or -1.
pub open spec fn upstream_index(cfg: ConfigView, compiled: Seq<ArtifactView>) -> int {
    match cfg.upstream {
        Some(u) => namespace_index(compiled, u),
        None => -1,
    }
}

/// Where the first artifact of the given namespace stands, or -1.
pub open spec fn namespace_index(compiled: Seq<ArtifactView>, u: NamespaceId) -> int {
    first_where(|i: int| compiled[i].namespace == u, compiled.len() as int)
}

pub open spec fn resolves(cfg: ConfigView, compiled: Seq<ArtifactView>, b: BindingView) -> bool {
    let u = upstream_index(cfg, compiled);
    u >= 0 && type_index(compiled[u].types, b.upstream_name) >= 0
}

/// The first binding whose target the upstream artifact lacks, or -1.
pub open spec fn first_unresolved(cfg: ConfigView, compiled: Seq<ArtifactView>) -> int {
    first_where(
        |k: int| !resolves(cfg, compiled, cfg.bindings[k]),
        cfg.bindings.len() as int,
    )
}

/// The first binding for the given local name, or -1.
pub open spec fn binding_index(bs: Seq<BindingView>, name: Seq<char>) -> int {
    first_where(|i: int| bs[i].local_name == name, bs.len() as int)
}

pub open spec fn defined_earlier(compiled: Seq<ArtifactView>, name: Seq<char>) -> bool {
    exists|a: int| 0 <= a < compiled.len() && type_index(compiled[a].types, name) >= 0
}

/// The declaration at `j` repeats an earlier one, or would define again,
/// without a binding, a type that an earlier namespace already emits.
pub open spec fn clashes(
    cfg: ConfigView,
    ds: Seq<DeclView>,
    compiled: Seq<ArtifactView>,
    j: int,
) -> bool {
    ||| exists|i: int| 0 <= i < j && ds[i].name == ds[j].name
    ||| binding_index(cfg.bindings, ds[j].name) < 0 && defined_earlier(compiled, ds[j].name)
}

pub open spec fn first_clash(cfg: ConfigView, ds: Seq<DeclView>, compiled: Seq<ArtifactView>) -> int {
    first_where(|j: int| clashes(cfg, ds, compiled, j), ds.len() as int)
}

/// `inner` is the directory `outer` or lies below it: `outer` is a prefix of
/// `inner` that ends where `inner` ends or at a path separator.
pub open spec fn dir_within(inner: Seq<char>, outer: Seq<char>) -> bool {
    &&& outer.len() <= inner.len()
    &&& inner.take(outer.len() as int) == outer
    &&& (inner.len() == outer.len() || inner[outer.len() as int] == '/' || (outer.len() > 0
        && outer.last() == '/'))
}

/// Two output directories share a location: one lies within the other.
pub open spec fn dirs_overlap(a: Seq<char>, b: Seq<char>) -> bool {
    dir_within(a, b) || dir_within(b, a)
}

pub open spec fn dir_taken(cfg: ConfigView, compiled: Seq<ArtifactView>) -> bool {
    exists|i: int| 0 <= i < compiled.len() && dirs_overlap(compiled[i].out_dir, cfg.out_dir)
}

/// The generated representation of one declaration: a reference to the
/// upstream type, of the same shape, where a binding names it; else a local
/// definition with exactly the capabilities that the rules grant it.
pub open spec fn generated(
    cfg: ConfigView,
    up: ArtifactView,
    d: DeclView,
    serialization: bool,
) -> TypeView {
    let b = binding_index(cfg.bindings, d.name);
    if b >= 0 {
        let bd = cfg.bindings[b];
        let t = up.types[type_index(up.types, bd.upstream_name)];
        TypeView {
            name: d.name,
            kind: t.kind,
            capabilities: t.capabilities,
            origin: OriginView::Extern {
                namespace: up.namespace,
                upstream_name: bd.upstream_name,
                rust_path: bd.rust_path,
            },
        }
    } else {
        TypeView {
            name: d.name,
            kind: d.kind,
            capabilities: rule_caps(cfg.rules, d.name).gated(serialization),
            origin: OriginView::Local,
        }
    }
}

pub open spec fn stubs_for(cfg: ConfigView, services: Seq<Seq<char>>) -> Seq<StubView> {
    if cfg.emit_stubs {
        services.map_values(|s: Seq<char>| StubView { name: s, client: true, server: cfg.server_stubs })
    } else {
        Seq::empty()
    }
}

/// What compiling one namespace yields: the first failing check, in the order
/// rules, bindings, declarations, output directory; else the artifact.
pub open spec fn compile_spec(
    cfg: ConfigView,
    files: Seq<FileView>,
    compiled: Seq<ArtifactView>,
    serialization: bool,
) -> Result<ArtifactView, ErrorView> {
    let ds = all_decls(files);
    let r = first_unmatched(cfg, ds);
    let b = first_unresolved(cfg, compiled);
    let c = first_clash(cfg, ds, compiled);
    if r >= 0 {
        Err(ErrorView::UnmatchedRule { namespace: cfg.id, name: cfg.rules[r].target_type })
    } else if b >= 0 {
        Err(ErrorView::UnresolvedExtern { namespace: cfg.id, name: cfg.bindings[b].upstream_name })
    } else if c >= 0 {
        Err(ErrorView::DuplicateType { namespace: cfg.id, name: ds[c].name, file: ds[c].file })
    } else if dir_taken(cfg, compiled) {
        Err(ErrorView::Output { namespace: cfg.id, dir: cfg.out_dir })
    } else {
        let up = compiled[upstream_index(cfg, compiled)];
        Ok(
            ArtifactView {
                namespace: cfg.id,
                out_dir: cfg.out_dir,
                types: ds.map_values(|d: DeclView| generated(cfg, up, d, serialization)),
                stubs: stubs_for(cfg, all_services(files)),
            },
        )
    }
}

/// A declaration together with the file that holds it.
struct Declared {
    name: String,
    kind: DeclKind,
    file: String,
}

impl View for Declared {
    type V = DeclView;

    closed spec fn view(&self) -> DeclView {
        DeclView { name: self.name@, kind: self.kind, file: self.file@ }
    }
}

spec fn decls_view(ds: Seq<Declared>) -> Seq<DeclView> {
    ds.map_values(|d: Declared| d@)
}

fn declarations(files: &Vec<SchemaFile>) -> (ds: Vec<Declared>)
    ensures
        decls_view(ds@) == all_decls(files_view(files@)),
{
    let ghost fv = files_view(files@);
    let mut ds: Vec<Declared> = Vec::new();
    let mut i: usize = 0;
    while i < files.len()
        invariant
            i <= files.len(),
            fv == files_view(files@),
            decls_view(ds@) == all_decls(fv.take(i as int)),
        decreases files.len() - i,
    {
        let f = &files[i];
        let ghost before = decls_view(ds@);
        let mut j: usize = 0;
        while j < f.types.len()
            invariant
                j <= f.types.len(),
                f == files@[i as int],
                fv == files_view(files@),
                i < files.len(),
                decls_view(ds@) == before + fv[i as int].types.take(j as int),
            decreases f.types.len() - j,
        {
            let ghost prev = ds@;
            let d = Declared { name: f.types[j].name.clone(), kind: f.types[j].kind, file: f.path.clone() };
            assert(fv[i as int] == files@[i as int]@);
            assert(d@ == fv[i as int].types[j as int]);
            ds.push(d);
            assert(decls_view(ds@) =~= decls_view(prev).push(d@));
            assert(fv[i as int].types.take(j + 1) =~= fv[i as int].types.take(j as int).push(
                fv[i as int].types[j as int],
            ));
            assert(decls_view(ds@) =~= before + fv[i as int].types.take(j + 1));
            j += 1;
        }
        assert(fv.take(i + 1).drop_last() =~= fv.take(i as int));
        assert(fv[i as int].types.take(j as int) =~= fv[i as int].types);
        i += 1;
    }
    assert(fv.take(i as int) =~= fv);
    ds
}

fn service_names(files: &Vec<SchemaFile>) -> (r: Vec<String>)
    ensures
        r@.map_values(|s: String| s@) == all_services(files_view(files@)),
{
    let ghost fv = files_view(files@);
    let mut r: Vec<String> = Vec::new();
    let mut i: usize = 0;
    while i < files.len()
        invariant
            i <= files.len(),
            fv == files_view(files@),
            r@.map_values(|s: String| s@) == all_services(fv.take(i as int)),
        decreases files.len() - i,
    {
        let f = &files[i];
        let ghost before = r@.map_values(|s: String| s@);
        let mut j: usize = 0;
        while j < f.services.len()
            invariant
                j <= f.services.len(),
                f == files@[i as int],
                fv == files_view(files@),
                i < files.len(),
                r@.map_values(|s: String| s@) == before + fv[i as int].services.take(j as int),
            decreases f.services.len() - j,
        {
            let ghost prev = r@;
            let sv = f.services[j].clone();
            assert(fv[i as int] == files@[i as int]@);
            assert(sv@ == fv[i as int].services[j as int]);
            r.push(sv);
            assert(r@.map_values(|s: String| s@) =~= prev.map_values(|s: String| s@).push(sv@));
            assert(fv[i as int].services.take(j + 1) =~= fv[i as int].services.take(j as int).push(
                fv[i as int].services[j as int],
            ));
            assert(r@.map_values(|s: String| s@) =~= before + fv[i as int].services.take(j + 1));
            j += 1;
        }
        assert(fv.take(i + 1).drop_last() =~= fv.take(i as int));
        assert(fv[i as int].services.take(j as int) =~= fv[i as int].services);
        i += 1;
    }
    assert(fv.take(i as int) =~= fv);
    r
}

fn declares_name(ds: &Vec<Declared>, name: &String) -> (r: bool)
    ensures
        r == declares(decls_view(ds@), name@),
{
    let ghost dv = decls_view(ds@);
    let mut i: usize = 0;
    while i < ds.len()
        invariant
            i <= ds.len(),
            dv == decls_view(ds@),
            forall|k: int| 0 <= k < i ==> dv[k].name != name@,
        decreases ds.len() - i,
    {
        if ds[i].name == *name {
            assert(dv[i as int].name == name@);
            return true;
        }
        i += 1;
    }
    false
}

fn declared_before(ds: &Vec<Declared>, j: usize) -> (r: bool)
    requires
        j < ds.len(),
    ensures
        r == exists|i: int| 0 <= i < j && decls_view(ds@)[i].name == decls_view(ds@)[j as int].name,
{
    let ghost dv = decls_view(ds@);
    let mut i: usize = 0;
    while i < j
        invariant
            i <= j,
            j < ds.len(),
            dv == decls_view(ds@),
            forall|k: int| 0 <= k < i ==> dv[k].name != dv[j as int].name,
        decreases j - i,
    {
        if ds[i].name == ds[j].name {
            assert(dv[i as int].name == dv[j as int].name);
            return true;
        }
        i += 1;
    }
    false
}

fn rule_caps_of(rules: &Vec<AttributeRule>, name: &String) -> (c: Capabilities)
    ensures
        c == rule_caps(rules@.map_values(|r: AttributeRule| r@), name@),
{
    let ghost rv = rules@.map_values(|r: AttributeRule| r@);
    let mut c = Capabilities::none();
    let mut i: usize = 0;
    while i < rules.len()
        invariant
            i <= rules.len(),
            rv == rules@.map_values(|r: AttributeRule| r@),
            c == rule_caps(rv.take(i as int), name@),
        decreases rules.len() - i,
    {
        assert(rv.take(i + 1).drop_last() =~= rv.take(i as int));
        if rules[i].target_type == *name {
            c = c.join(&rules[i].capabilities);
        }
        i += 1;
    }
    assert(rv.take(i as int) =~= rv);
    c
}

fn find_upstream(cfg: &NamespaceConfig, compiled: &Vec<Artifact>) -> (r: Option<usize>)
    ensures
        match r {
            Some(i) => i as int == upstream_index(cfg@, artifacts_view(compiled@)) && i < compiled.len(),
            None => upstream_index(cfg@, artifacts_view(compiled@)) < 0,
        },
{
    let ghost av = artifacts_view(compiled@);
    let upstream: Option<NamespaceId> = cfg.upstream;
    assert(upstream == cfg@.upstream);
    match upstream {
        None => None,
        Some(u) => {
            let mut i: usize = 0;
            while i < compiled.len()
                invariant
                    i <= compiled.len(),
                    av == artifacts_view(compiled@),
                    cfg@.upstream == Some(u),
                    first_where(|i: int| av[i].namespace == u, i as int) < 0,
                decreases compiled.len() - i,
            {
                if compiled[i].namespace == u {
                    assert(av[i as int].namespace == u);
                    assert(first_where(|i: int| av[i].namespace == u, i + 1) == i);
                    proof {
                        lemma_first_where_stable(|i: int| av[i].namespace == u, i + 1, av.len() as int);
                    }
                    return Some(i);
                }
                i += 1;
            }
            None
        },
    }
}

fn find_binding(bindings: &Vec<ExternBinding>, name: &String) -> (r: Option<usize>)
    ensures
        match r {
            Some(i) => i as int == binding_index(bindings@.map_values(|b: ExternBinding| b@), name@)
                && i < bindings.len(),
            None => binding_index(bindings@.map_values(|b: ExternBinding| b@), name@) < 0,
        },
{
    let ghost bv = bindings@.map_values(|b: ExternBinding| b@);
    let mut i: usize = 0;
    while i < bindings.len()
        invariant
            i <= bindings.len(),
            bv == bindings@.map_values(|b: ExternBinding| b@),
            first_where(|i: int| bv[i].local_name == name@, i as int) < 0,
        decreases bindings.len() - i,
    {
        if bindings[i].local_name == *name {
            assert(bv[i as int].local_name == name@);
            proof {
                lemma_first_where_stable(|i: int| bv[i].local_name == name@, i + 1, bv.len() as int);
            }
            return Some(i);
        }
        i += 1;
    }
    None
}

fn defined_in(compiled: &Vec<Artifact>, name: &String) -> (r: bool)
    ensures
        r == defined_earlier(artifacts_view(compiled@), name@),
{
    let ghost av = artifacts_view(compiled@);
    let mut a: usize = 0;
    while a < compiled.len()
        invariant
            a <= compiled.len(),
            av == artifacts_view(compiled@),
            forall|x: int| 0 <= x < a ==> type_index(av[x].types, name@) < 0,
        decreases compiled.len() - a,
    {
        assert(av[a as int] == compiled@[a as int]@);
        if find_type(&compiled[a].types, name).is_some() {
            return true;
        }
        a += 1;
    }
    false
}

/// Whether `inner` is the directory `outer` or lies below it.
pub fn within(inner: &str, outer: &str) -> (r: bool)
    ensures
        r == dir_within(inner@, outer@),
{
    let li = inner.unicode_len();
    let lo = outer.unicode_len();
    if lo > li {
        return false;
    }
    let mut i: usize = 0;
    while i < lo
        invariant
            i <= lo <= li,
            li == inner@.len(),
            lo == outer@.len(),
            forall|k: int| 0 <= k < i ==> inner@[k] == outer@[k],
        decreases lo - i,
    {
        if inner.get_char(i) != outer.get_char(i) {
            assert(inner@.take(lo as int)[i as int] != outer@[i as int]);
            return false;
        }
        i += 1;
    }
    assert(inner@.take(lo as int) =~= outer@);
    li == lo || inner.get_char(lo) == '/' || (lo > 0 && outer.get_char(lo - 1) == '/')
}

fn dir_in_use(cfg: &NamespaceConfig, compiled: &Vec<Artifact>) -> (r: bool)
    ensures
        r == dir_taken(cfg@, artifacts_view(compiled@)),
{
    let ghost av = artifacts_view(compiled@);
    let mut a: usize = 0;
    while a < compiled.len()
        invariant
            a <= compiled.len(),
            av == artifacts_view(compiled@),
            forall|x: int| 0 <= x < a ==> !dirs_overlap(av[x].out_dir, cfg.out_dir@),
        decreases compiled.len() - a,
    {
        let d = compiled[a].out_dir.as_str();
        let o = cfg.out_dir.as_str();
        if within(d, o) || within(o, d) {
            assert(dirs_overlap(av[a as int].out_dir, cfg.out_dir@));
            return true;
        }
        a += 1;
    }
    false
}

/// Compiles one namespace against the artifacts of the namespaces compiled
/// before it. Nothing is emitted unless every rule names a declared type,
/// every binding resolves in the upstream artifact, no type is declared twice
/// or defined again, and the output directory is the namespace's own.
pub fn compile(
    cfg: &NamespaceConfig,
    files: &Vec<SchemaFile>,
    compiled: &Vec<Artifact>,
    serialization: bool,
) -> (r: Result<Artifact, BuildError>)
    ensures
        outcome_view(r) == compile_spec(
            cfg@,
            files_view(files@),
            artifacts_view(compiled@),
            serialization,
        ),
{
    let ghost cv = cfg@;
    let ghost av = artifacts_view(compiled@);
    let ds = declarations(files);
    let ghost dv = decls_view(ds@);
    let ghost pr = |k: int| !declares(dv, cv.rules[k].target_type);
    let mut k: usize = 0;
    while k < cfg.rules.len()
        invariant
            k <= cfg.rules.len(),
            cv == cfg@,
            dv == decls_view(ds@),
            dv == all_decls(files_view(files@)),
            pr == (|k: int| !declares(dv, cv.rules[k].target_type)),
            first_where(pr, k as int) < 0,
        decreases cfg.rules.len() - k,
    {
        if !declares_name(&ds, &cfg.rules[k].target_type) {
            assert(pr(k as int));
            assert(first_where(pr, k + 1) == k);
            proof {
                lemma_first_where_stable(pr, k + 1, cv.rules.len() as int);
            }
            return Err(
                BuildError::UnmatchedRule {
                    namespace: cfg.id,
                    name: cfg.rules[k].target_type.clone(),
                },
            );
        }
        k += 1;
    }
    let up = find_upstream(cfg, compiled);
    assert(first_unmatched(cv, all_decls(files_view(files@))) < 0);
    let ghost pb = |k: int| !resolves(cv, av, cv.bindings[k]);
    let mut k: usize = 0;
    while k < cfg.bindings.len()
        invariant
            k <= cfg.bindings.len(),
            cv == cfg@,
            av == artifacts_view(compiled@),
            pb == (|k: int| !resolves(cv, av, cv.bindings[k])),
            first_where(pb, k as int) < 0,
            first_unmatched(cv, all_decls(files_view(files@))) < 0,
            match up {
                Some(u) => u as int == upstream_index(cv, av) && u < compiled.len(),
                None => upstream_index(cv, av) < 0,
            },
        decreases cfg.bindings.len() - k,
    {
        let found = match up {
            Some(u) => {
                assert(av[u as int] == compiled@[u as int]@);
                find_type(&compiled[u].types, &cfg.bindings[k].upstream_name).is_some()
            },
            None => false,
        };
        if !found {
            assert(pb(k as int));
            assert(first_where(pb, k + 1) == k);
            proof {
                lemma_first_where_stable(pb, k + 1, cv.bindings.len() as int);
            }
            return Err(
                BuildError::UnresolvedExtern {
                    namespace: cfg.id,
                    name: cfg.bindings[k].upstream_name.clone(),
                },
            );
        }
        k += 1;
    }
    proof {
        lemma_first_where(pb, cv.bindings.len() as int);
        assert forall|k: int| 0 <= k < cv.bindings.len() implies resolves(
            cv,
            av,
            #[trigger] cv.bindings[k],
        ) by {
            assert(!pb(k));
        }
    }
    assert(first_unresolved(cv, av) < 0);
    let ghost pc = |j: int| clashes(cv, dv, av, j);
    let mut j: usize = 0;
    while j < ds.len()
        invariant
            j <= ds.len(),
            cv == cfg@,
            av == artifacts_view(compiled@),
            dv == decls_view(ds@),
            pc == (|j: int| clashes(cv, dv, av, j)),
            first_where(pc, j as int) < 0,
            dv == all_decls(files_view(files@)),
            first_unmatched(cv, dv) < 0,
            first_unresolved(cv, av) < 0,
        decreases ds.len() - j,
    {
        let clash = declared_before(&ds, j) || (find_binding(&cfg.bindings, &ds[j].name).is_none()
            && defined_in(compiled, &ds[j].name));
        if clash {
            assert(pc(j as int));
            assert(first_where(pc, j + 1) == j);
            proof {
                lemma_first_where_stable(pc, j + 1, dv.len() as int);
            }
            return Err(
                BuildError::DuplicateType {
                    namespace: cfg.id,
                    name: ds[j].name.clone(),
                    file: ds[j].file.clone(),
                },
            );
        }
        j += 1;
    }
    if dir_in_use(cfg, compiled) {
        return Err(BuildError::Output { namespace: cfg.id, dir: cfg.out_dir.clone() });
    }
    let ghost upv = av[upstream_index(cv, av)];
    let mut types: Vec<GeneratedType> = Vec::new();
    let mut j: usize = 0;
    while j < ds.len()
        invariant
            j <= ds.len(),
            types.len() == j,
            cv == cfg@,
            av == artifacts_view(compiled@),
            dv == decls_view(ds@),
            upv == av[upstream_index(cv, av)],
            forall|k: int| 0 <= k < cv.bindings.len() ==> resolves(cv, av, #[trigger] cv.bindings[k]),
            match up {
                Some(u) => u as int == upstream_index(cv, av) && u < compiled.len(),
                None => upstream_index(cv, av) < 0,
            },
            forall|x: int| 0 <= x < j ==> (#[trigger] types@[x])@ == generated(cv, upv, dv[x], serialization),
        decreases ds.len() - j,
    {
        let t = match find_binding(&cfg.bindings, &ds[j].name) {
            Some(b) => {
                assert(resolves(cv, av, cv.bindings[b as int]));
                assert(cv.bindings[b as int] == cfg.bindings@[b as int]@);
                let u = up.unwrap();
                assert(av[u as int] == compiled@[u as int]@);
                let ti = find_type(&compiled[u].types, &cfg.bindings[b].upstream_name).unwrap();
                let src = &compiled[u].types[ti];
                GeneratedType {
                    name: ds[j].name.clone(),
                    kind: src.kind,
                    capabilities: src.capabilities,
                    origin: Origin::Extern {
                        namespace: compiled[u].namespace,
                        upstream_name: cfg.bindings[b].upstream_name.clone(),
                        rust_path: cfg.bindings[b].rust_path.clone(),
                    },
                }
            },
            None => {
                let caps = rule_caps_of(&cfg.rules, &ds[j].name);
                GeneratedType {
                    name: ds[j].name.clone(),
                    kind: ds[j].kind,
                    capabilities: caps.gate(serialization),
                    origin: Origin::Local,
                }
            },
        };
        assert(dv[j as int] == ds@[j as int]@);
        assert(t@ == generated(cv, upv, dv[j as int], serialization));
        types.push(t);
        j += 1;
    }
    let mut stubs: Vec<ServiceStub> = Vec::new();
    let ghost sv = all_services(files_view(files@));
    if cfg.emit_stubs {
        let names = service_names(files);
        let mut i: usize = 0;
        while i < names.len()
            invariant
                i <= names.len(),
                stubs.len() == i,
                cv == cfg@,
                cv.emit_stubs,
                names@.map_values(|s: String| s@) == sv,
                forall|x: int| 0 <= x < i ==> (#[trigger] stubs@[x])@ == stubs_for(cv, sv)[x],
            decreases names.len() - i,
        {
            assert(sv[i as int] == names@[i as int]@);
            stubs.push(ServiceStub { name: names[i].clone(), client: true, server: cfg.server_stubs });
            i += 1;
        }
    }
    let art = Artifact { namespace: cfg.id, out_dir: cfg.out_dir.clone(), types, stubs };
    proof {
        lemma_first_where(pc, dv.len() as int);
        assert(art@.types =~= dv.map_values(|d: DeclView| generated(cv, upv, d, serialization)));
        assert(art@.stubs =~= stubs_for(cv, sv));
    }
    Ok(art)
}

} // verus!
