//! The data of one build: schema files, rules, bindings, namespaces,
//! generated artifacts and errors, with their mathematical views.
use vstd::prelude::*;

verus! {

/// The three compilation scopes, in dependency order.
#[derive(Clone, Copy, Debug, PartialEq, Eq, Structural)]
pub enum NamespaceId {
    Primary,
    Mirror,
    Streams,
}

/// What a declared schema type is.
#[derive(Clone, Copy, Debug, PartialEq, Eq, Structural)]
pub enum DeclKind {
    Message,
    Enum,
    Oneof,
}

/// The extra capabilities that may be attached to a generated type.
#[derive(Clone, Copy, Debug, PartialEq, Eq, Structural)]
pub struct Capabilities {
    /// Equality and hashing, so that the type can key a map.
    pub map_key: bool,
    /// Human-readable serialization.
    pub serialization: bool,
}

impl Capabilities {
    pub open spec fn union(self, o: Capabilities) -> Capabilities {
        Capabilities {
            map_key: self.map_key || o.map_key,
            serialization: self.serialization || o.serialization,
        }
    }

    /// What survives the feature gate: serialization only where it is enabled.
    pub open spec fn gated(self, serialization: bool) -> Capabilities {
        Capabilities { map_key: self.map_key, serialization: self.serialization && serialization }
    }

    pub fn none() -> (r: Capabilities)
        ensures
            !r.map_key && !r.serialization,
    {
        Capabilities { map_key: false, serialization: false }
    }

    pub fn join(&self, o: &Capabilities) -> (r: Capabilities)
        ensures
            r == self.union(*o),
    {
        Capabilities {
            map_key: self.map_key || o.map_key,
            serialization: self.serialization || o.serialization,
        }
    }

    pub fn gate(&self, serialization: bool) -> (r: Capabilities)
        ensures
            r == self.gated(serialization),
    {
        Capabilities { map_key: self.map_key, serialization: self.serialization && serialization }
    }
}

/// One type declared in a schema file, by its fully-qualified name.
pub struct TypeDecl {
    pub name: String,
    pub kind: DeclKind,
}

/// One schema source document and what it declares.
pub struct SchemaFile {
    pub path: String,
    pub types: Vec<TypeDecl>,
    pub services: Vec<String>,
}

/// An allow-listed grant of capabilities to the type of the given name.
pub struct AttributeRule {
    pub target_type: String,
    pub capabilities: Capabilities,
}

/// A directive that the dependent namespace refers to `upstream_name`, already
/// generated upstream at `rust_path`, wherever it would use `local_name`.
pub struct ExternBinding {
    pub local_name: String,
    pub upstream_name: String,
    pub rust_path: String,
}

/// Everything that one namespace's compilation is configured with.
pub struct NamespaceConfig {
    pub id: NamespaceId,
    pub out_dir: String,
    /// The namespace that bindings resolve against, if any.
    pub upstream: Option<NamespaceId>,
    pub rules: Vec<AttributeRule>,
    pub bindings: Vec<ExternBinding>,
    pub emit_stubs: bool,
    pub server_stubs: bool,
}

/// Whether a generated type is defined here or refers to an upstream type.
pub enum Origin {
    Local,
    Extern { namespace: NamespaceId, upstream_name: String, rust_path: String },
}

/// The generated representation of one declared type.
pub struct GeneratedType {
    pub name: String,
    pub kind: DeclKind,
    pub capabilities: Capabilities,
    pub origin: Origin,
}

/// The generated client and server surface of one service.
pub struct ServiceStub {
    pub name: String,
    pub client: bool,
    pub server: bool,
}

/// The generated code of one namespace, in its own directory.
pub struct Artifact {
    pub namespace: NamespaceId,
    pub out_dir: String,
    pub types: Vec<GeneratedType>,
    pub stubs: Vec<ServiceStub>,
}

/// Every way a build fails; each one aborts the build.
pub enum BuildError {
    Discovery { dir: String },
    Parse { file: String, offset: usize },
    DuplicateType { namespace: NamespaceId, name: String, file: String },
    UnmatchedRule { namespace: NamespaceId, name: String },
    UnresolvedExtern { namespace: NamespaceId, name: String },
    Output { namespace: NamespaceId, dir: String },
}

pub struct DeclView {
    pub name: Seq<char>,
    pub kind: DeclKind,
    pub file: Seq<char>,
}

pub struct RuleView {
    pub target_type: Seq<char>,
    pub capabilities: Capabilities,
}

pub struct BindingView {
    pub local_name: Seq<char>,
    pub upstream_name: Seq<char>,
    pub rust_path: Seq<char>,
}

pub struct FileView {
    pub path: Seq<char>,
    pub types: Seq<DeclView>,
    pub services: Seq<Seq<char>>,
}

pub struct ConfigView {
    pub id: NamespaceId,
    pub out_dir: Seq<char>,
    pub upstream: Option<NamespaceId>,
    pub rules: Seq<RuleView>,
    pub bindings: Seq<BindingView>,
    pub emit_stubs: bool,
    pub server_stubs: bool,
}

pub enum OriginView {
    Local,
    Extern { namespace: NamespaceId, upstream_name: Seq<char>, rust_path: Seq<char> },
}

pub struct TypeView {
    pub name: Seq<char>,
    pub kind: DeclKind,
    pub capabilities: Capabilities,
    pub origin: OriginView,
}

pub struct StubView {
    pub name: Seq<char>,
    pub client: bool,
    pub server: bool,
}

pub struct ArtifactView {
    pub namespace: NamespaceId,
    pub out_dir: Seq<char>,
    pub types: Seq<TypeView>,
    pub stubs: Seq<StubView>,
}

pub enum ErrorView {
    Discovery { dir: Seq<char> },
    Parse { file: Seq<char>, offset: nat },
    DuplicateType { namespace: NamespaceId, name: Seq<char>, file: Seq<char> },
    UnmatchedRule { namespace: NamespaceId, name: Seq<char> },
    UnresolvedExtern { namespace: NamespaceId, name: Seq<char> },
    Output { namespace: NamespaceId, dir: Seq<char> },
}

impl View for TypeDecl {
    type V = (Seq<char>, DeclKind);

    open spec fn view(&self) -> (Seq<char>, DeclKind) {
        (self.name@, self.kind)
    }
}

impl View for SchemaFile {
    type V = FileView;

    open spec fn view(&self) -> FileView {
        FileView {
            path: self.path@,
            types: self.types@.map_values(
                |t: TypeDecl| DeclView { name: t.name@, kind: t.kind, file: self.path@ },
            ),
            services: self.services@.map_values(|s: String| s@),
        }
    }
}

impl View for AttributeRule {
    type V = RuleView;

    open spec fn view(&self) -> RuleView {
        RuleView { target_type: self.target_type@, capabilities: self.capabilities }
    }
}

impl View for ExternBinding {
    type V = BindingView;

    open spec fn view(&self) -> BindingView {
        BindingView {
            local_name: self.local_name@,
            upstream_name: self.upstream_name@,
            rust_path: self.rust_path@,
        }
    }
}

impl View for NamespaceConfig {
    type V = ConfigView;

    open spec fn view(&self) -> ConfigView {
        ConfigView {
            id: self.id,
            out_dir: self.out_dir@,
            upstream: self.upstream,
            rules: self.rules@.map_values(|r: AttributeRule| r@),
            bindings: self.bindings@.map_values(|b: ExternBinding| b@),
            emit_stubs: self.emit_stubs,
            server_stubs: self.server_stubs,
        }
    }
}

impl View for Origin {
    type V = OriginView;

    open spec fn view(&self) -> OriginView {
        match self {
            Origin::Local => OriginView::Local,
            Origin::Extern { namespace, upstream_name, rust_path } => OriginView::Extern {
                namespace: *namespace,
                upstream_name: upstream_name@,
                rust_path: rust_path@,
            },
        }
    }
}

impl View for GeneratedType {
    type V = TypeView;

    open spec fn view(&self) -> TypeView {
        TypeView {
            name: self.name@,
            kind: self.kind,
            capabilities: self.capabilities,
            origin: self.origin@,
        }
    }
}

impl View for ServiceStub {
    type V = StubView;

    open spec fn view(&self) -> StubView {
        StubView { name: self.name@, client: self.client, server: self.server }
    }
}

impl View for Artifact {
    type V = ArtifactView;

    open spec fn view(&self) -> ArtifactView {
        ArtifactView {
            namespace: self.namespace,
            out_dir: self.out_dir@,
            types: self.types@.map_values(|t: GeneratedType| t@),
            stubs: self.stubs@.map_values(|s: ServiceStub| s@),
        }
    }
}

impl View for BuildError {
    type V = ErrorView;

    open spec fn view(&self) -> ErrorView {
        match self {
            BuildError::Discovery { dir } => ErrorView::Discovery { dir: dir@ },
            BuildError::Parse { file, offset } => ErrorView::Parse {
                file: file@,
                offset: *offset as nat,
            },
            BuildError::DuplicateType { namespace, name, file } => ErrorView::DuplicateType {
                namespace: *namespace,
                name: name@,
                file: file@,
            },
            BuildError::UnmatchedRule { namespace, name } => ErrorView::UnmatchedRule {
                namespace: *namespace,
                name: name@,
            },
            BuildError::UnresolvedExtern { namespace, name } => ErrorView::UnresolvedExtern {
                namespace: *namespace,
                name: name@,
            },
            BuildError::Output { namespace, dir } => ErrorView::Output {
                namespace: *namespace,
                dir: dir@,
            },
        }
    }
}

/// The views of a sequence of artifacts.
pub open spec fn artifacts_view(a: Seq<Artifact>) -> Seq<ArtifactView> {
    a.map_values(|x: Artifact| x@)
}

/// The views of a sequence of schema files.
pub open spec fn files_view(f: Seq<SchemaFile>) -> Seq<FileView> {
    f.map_values(|x: SchemaFile| x@)
}

/// The view of a build's outcome.
pub open spec fn outcome_view<T: View>(r: Result<T, BuildError>) -> Result<T::V, ErrorView> {
    match r {
        Ok(v) => Ok(v@),
        Err(e) => Err(e@),
    }
}

} // verus!
