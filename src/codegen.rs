//! What the code generator is told for one artifact: which locally defined
//! types receive which capability, and under which paths the bound types of
//! the namespace are referred to.
use vstd::prelude::*;
use vstd::string::StringExecFns;
use crate::model::{Artifact, ExternBinding, Origin, TypeView};

verus! {

#[derive(Clone, Copy, Debug, PartialEq, Eq, Structural)]
pub enum Capability {
    MapKey,
    Serialization,
}

/// One capability to attach to the generated type of the given name.
pub struct Grant {
    pub target_type: String,
    pub capability: Capability,
}

/// A schema path, with its leading separator, and the generated type it
/// stands for.
pub struct ExternPath {
    pub proto_path: String,
    pub rust_path: String,
}

/// The grants for one generated type: none for a reference to an upstream
/// type, else one per capability it has, map-key first.
pub open spec fn grants_of(t: TypeView) -> Seq<(Seq<char>, Capability)> {
    if t.origin is Local {
        (if t.capabilities.map_key {
            seq![(t.name, Capability::MapKey)]
        } else {
            Seq::empty()
        }) + (if t.capabilities.serialization {
            seq![(t.name, Capability::Serialization)]
        } else {
            Seq::empty()
        })
    } else {
        Seq::empty()
    }
}

pub open spec fn all_grants(types: Seq<TypeView>) -> Seq<(Seq<char>, Capability)>
    decreases types.len(),
{
    if types.len() == 0 {
        Seq::empty()
    } else {
        all_grants(types.drop_last()) + grants_of(types.last())
    }
}

pub open spec fn grants_view(g: Seq<Grant>) -> Seq<(Seq<char>, Capability)> {
    g.map_values(|x: Grant| (x.target_type@, x.capability))
}

/// The capabilities to attach, type by type in artifact order.
pub fn attribute_grants(a: &Artifact) -> (r: Vec<Grant>)
    ensures
        grants_view(r@) == all_grants(a@.types),
{
    let ghost tv = a@.types;
    let mut r: Vec<Grant> = Vec::new();
    let mut i: usize = 0;
    assert(grants_view(r@) =~= all_grants(tv.take(0)));
    while i < a.types.len()
        invariant
            i <= a.types.len(),
            tv == a@.types,
            grants_view(r@) == all_grants(tv.take(i as int)),
        decreases a.types.len() - i,
    {
        let t = &a.types[i];
        let ghost before = grants_view(r@);
        assert(tv[i as int] == t@);
        assert(tv.take(i + 1).drop_last() =~= tv.take(i as int));
        if let Origin::Local = t.origin {
            if t.capabilities.map_key {
                r.push(Grant { target_type: t.name.clone(), capability: Capability::MapKey });
            }
            if t.capabilities.serialization {
                r.push(Grant { target_type: t.name.clone(), capability: Capability::Serialization });
            }
            assert(grants_view(r@) =~= before + grants_of(t@));
        } else {
            assert(grants_of(t@) =~= Seq::<(Seq<char>, Capability)>::empty());
            assert(grants_view(r@) =~= before + grants_of(t@));
        }
        i += 1;
    }
    assert(tv.take(i as int) =~= tv);
    r
}

/// The extern paths of a namespace's bindings: each local name with a
/// leading `.`, and the path of the upstream type.
pub fn extern_paths(bindings: &Vec<ExternBinding>) -> (r: Vec<ExternPath>)
    ensures
        r@.len() == bindings@.len(),
        forall|i: int|
            0 <= i < r@.len() ==> (#[trigger] r@[i]).proto_path@ == seq!['.'] + bindings@[i].local_name@
                && r@[i].rust_path@ == bindings@[i].rust_path@,
{
    let mut r: Vec<ExternPath> = Vec::new();
    let mut i: usize = 0;
    while i < bindings.len()
        invariant
            i <= bindings.len(),
            r@.len() == i,
            forall|k: int|
                0 <= k < i ==> (#[trigger] r@[k]).proto_path@ == seq!['.'] + bindings@[k].local_name@
                    && r@[k].rust_path@ == bindings@[k].rust_path@,
        decreases bindings.len() - i,
    {
        let b = &bindings[i];
        let p = String::from_str(".").concat(b.local_name.as_str());
        proof {
            reveal_strlit(".");
        }
        assert(p@ =~= seq!['.'] + b.local_name@);
        r.push(ExternPath { proto_path: p, rust_path: b.rust_path.clone() });
        i += 1;
    }
    r
}

} // verus!
