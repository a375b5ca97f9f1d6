use vstd::prelude::*;
use crate::errors::HostError;
use crate::guest::GuestScript;

verus! {

/// One import a guest binary may request: a sanctioned capability group of
/// the trace contract, the runtime's own ambient imports, or something
/// outside the contract, named by an opaque identifier.
#[derive(Clone, Copy, Debug, PartialEq, Eq, Structural)]
pub enum CapabilityImport {
    /// The logging capability group.
    TraceLog,
    /// The blocking work-queue capability group.
    Queue,
    /// The read-only request-resource accessor group.
    ReqResource,
    /// The ambient imports the runtime itself satisfies.
    Wasi,
    /// An import outside the sanctioned surface.
    Unknown(u64),
}

/// The linkable surface of a guest binary, as the engine reports it after
/// decoding: whether the entry point is exported, and every import requested.
#[derive(Clone, Debug)]
pub struct BinarySurface {
    pub exports_enter: bool,
    pub imports: Vec<CapabilityImport>,
}

/// A guest binary as the host sees it: its linkable surface, and what its
/// entry point does when invoked.
#[derive(Clone, Debug)]
pub struct GuestBinary {
    pub surface: BinarySurface,
    pub script: GuestScript,
}

/// The capability linker: the set of named imports the host can satisfy.
#[derive(Clone, Debug)]
pub struct Linker {
    pub offered: Vec<CapabilityImport>,
}

impl Linker {
    /// Whether the linker satisfies the import `c`.
    pub open spec fn offers(self, c: CapabilityImport) -> bool {
        self.offered@.contains(c)
    }
}

/// A linker that offers the trace contract's three capability groups.
pub fn new_trace_linker() -> (l: Linker)
    ensures
        l.offered@ == seq![
            CapabilityImport::TraceLog,
            CapabilityImport::Queue,
            CapabilityImport::ReqResource,
        ],
{
    let mut offered: Vec<CapabilityImport> = Vec::new();
    offered.push(CapabilityImport::TraceLog);
    offered.push(CapabilityImport::Queue);
    offered.push(CapabilityImport::ReqResource);
    proof {
        assert(offered@ =~= seq![
            CapabilityImport::TraceLog,
            CapabilityImport::Queue,
            CapabilityImport::ReqResource,
        ]);
    }
    Linker { offered }
}

/// Add the runtime's ambient capability group to the linker, as the host does
/// once at engine construction.
pub fn my_add_to_linker(l: &mut Linker)
    ensures
        final(l).offered@ == old(l).offered@.push(CapabilityImport::Wasi),
{
    l.offered.push(CapabilityImport::Wasi);
}

/// Whether the linker offers `c`, decided at run time.
pub fn offers_import(l: &Linker, c: CapabilityImport) -> (r: bool)
    ensures
        r == l.offers(c),
{
    let mut i: usize = 0;
    while i < l.offered.len()
        invariant
            0 <= i <= l.offered@.len(),
            forall|j: int| 0 <= j < i ==> l.offered@[j] != c,
        decreases l.offered@.len() - i,
    {
        if l.offered[i] == c {
            return true;
        }
        i = i + 1;
    }
    false
}

/// The surface is fully satisfied: the entry point is exported and every
/// requested import is among the offered capabilities.
pub open spec fn surface_ok(s: BinarySurface, l: Linker) -> bool {
    &&& s.exports_enter
    &&& forall|i: int| 0 <= i < s.imports@.len() ==> l.offers(#[trigger] s.imports@[i])
}

/// A validated, reusable link of one guest binary against the host's
/// capability set: built (and its import surface checked) once, usable for
/// many runs of the same binary without re-validation.
#[derive(Clone, Debug)]
pub struct InstantiationPlan {
    pub binary: GuestBinary,
}

/// Validate `binary` against the linker and build its plan. A missing entry
/// point or an unresolved import is a construction-time `LinkError`; nothing
/// is ever instantiated from such a binary.
pub fn instantiate_pre(l: &Linker, binary: GuestBinary) -> (r: Result<
    InstantiationPlan,
    HostError,
>)
    ensures
        surface_ok(binary.surface, *l) ==> (r matches Ok(p) && p.binary == binary),
        !surface_ok(binary.surface, *l) ==> r == Err::<InstantiationPlan, HostError>(
            HostError::LinkError,
        ),
{
    if !binary.surface.exports_enter {
        return Err(HostError::LinkError);
    }
    let mut i: usize = 0;
    while i < binary.surface.imports.len()
        invariant
            0 <= i <= binary.surface.imports@.len(),
            forall|j: int| 0 <= j < i ==> l.offers(#[trigger] binary.surface.imports@[j]),
        decreases binary.surface.imports@.len() - i,
    {
        if !offers_import(l, binary.surface.imports[i]) {
            return Err(HostError::LinkError);
        }
        i = i + 1;
    }
    Ok(InstantiationPlan { binary })
}

/// Link validation law: a binary that does not export the entry point, or
/// that imports any capability the linker does not offer, has no satisfied
/// surface — so plan construction fails with `LinkError` and the binary is
/// never instantiated.
pub proof fn lemma_link_validation(b: GuestBinary, l: Linker)
    requires
        !b.surface.exports_enter || exists|i: int|
            0 <= i < b.surface.imports@.len() && !l.offers(#[trigger] b.surface.imports@[i]),
    ensures
        !surface_ok(b.surface, l),
{
}

} // verus!
