use vstd::prelude::*;

verus! {

#[verifier::external_type_specification]
#[verifier::external_body]
pub struct ExIcs23ProofSpec(ics23::ProofSpec);

/// Relies on the derived `Clone` of `ics23::ProofSpec`, a plain data struct
/// of two optional sub-messages, two integers and a flag: cloning yields an
/// equal value.
pub assume_specification[ <ics23::ProofSpec as Clone>::clone ](s: &ics23::ProofSpec) -> (r:
    ics23::ProofSpec)
    ensures
        r == *s,
;

/// A name for the constant `ics23::iavl_spec()` returns: the proof spec for
/// IAVL store proofs. The parameter is a placeholder; the constant does not
/// depend on it.
pub uninterp spec fn iavl_spec_of(tag: int) -> ics23::ProofSpec;

/// A name for the constant `ics23::tendermint_spec()` returns: the proof
/// spec for tendermint simple-merkle proofs. The parameter is a placeholder;
/// the constant does not depend on it.
pub uninterp spec fn tendermint_spec_of(tag: int) -> ics23::ProofSpec;

/// Relies on `ics23::iavl_spec`: it builds the same constant — the proof
/// spec describing IAVL store proofs (SHA-256 leaves with varint length
/// prefix, binary inner nodes) — on every call.
#[verifier::external_body]
fn iavl_spec() -> (r: ics23::ProofSpec)
    ensures
        r == iavl_spec_of(0),
{
    ics23::iavl_spec()
}

/// Relies on `ics23::tendermint_spec`: it builds the same constant — the
/// proof spec describing tendermint simple-merkle proofs — on every call.
#[verifier::external_body]
fn tendermint_spec() -> (r: ics23::ProofSpec)
    ensures
        r == tendermint_spec_of(0),
{
    ics23::tendermint_spec()
}

/// An ordered sequence of proof specifications, one per storage layer, from
/// the leaf-most store to the root commitment. Each entry fixes how that
/// store encodes and hashes the leaves and inner nodes of its Merkle proofs.
/// Constructed once at client creation and immutable thereafter; consulted
/// whenever an inclusion proof against the tracked chain's state is checked.
#[derive(Debug)]
pub struct ProofSpecs(pub Vec<ics23::ProofSpec>);

impl View for ProofSpecs {
    type V = Seq<ics23::ProofSpec>;

    open spec fn view(&self) -> Seq<ics23::ProofSpec> {
        self.0@
    }
}

impl ProofSpecs {
    /// The canonical two-layer Cosmos-SDK layout: the IAVL inner-store spec
    /// first (leaf-most), the simple-merkle tendermint spec second (root).
    pub fn cosmos() -> (r: Self)
        ensures
            r@.len() == 2,
            r@[0] == iavl_spec_of(0),
            r@[1] == tendermint_spec_of(0),
    {
        let mut layers: Vec<ics23::ProofSpec> = Vec::new();
        layers.push(iavl_spec());
        layers.push(tendermint_spec());
        ProofSpecs(layers)
    }

    /// True iff no layer is present, which signals to callers that proof
    /// verification is disabled or not applicable.
    pub fn is_empty(&self) -> (r: bool)
        ensures
            r == (self@.len() == 0),
    {
        self.0.is_empty()
    }

    /// Wraps a generic list of specs, preserving order and every field of
    /// every element.
    pub fn from_ics23_specs(specs: Vec<ics23::ProofSpec>) -> (r: Self)
        ensures
            r@ == specs@,
    {
        ProofSpecs(specs)
    }

    /// Unwraps into the generic list representation, preserving order and
    /// every field of every element.
    pub fn into_ics23_specs(self) -> (r: Vec<ics23::ProofSpec>)
        ensures
            r@ == self@,
    {
        self.0
    }
}

impl Clone for ProofSpecs {
    fn clone(&self) -> (r: Self)
        ensures
            r@ == self@,
    {
        let mut layers: Vec<ics23::ProofSpec> = Vec::new();
        let n = self.0.len();
        let mut i: usize = 0;
        while i < n
            invariant
                n == self@.len(),
                i <= n,
                layers@ =~= self@.subrange(0, i as int),
            decreases n - i,
        {
            layers.push(self.0[i].clone());
            proof {
                assert(layers@ =~= self@.subrange(0, i + 1 as int));
            }
            i = i + 1;
        }
        proof {
            assert(self@.subrange(0, n as int) =~= self@);
        }
        ProofSpecs(layers)
    }
}

impl Default for ProofSpecs {
    /// The default proof-spec sequence is the Cosmos-SDK layout, entry for
    /// entry.
    fn default() -> (r: Self)
        ensures
            r@.len() == 2,
            r@[0] == iavl_spec_of(0),
            r@[1] == tendermint_spec_of(0),
    {
        ProofSpecs::cosmos()
    }
}

/// Law (round trip, starting from the wrapper): unwrapping a proof-spec
/// sequence into the generic list and wrapping that list again yields an
/// element-for-element identical sequence, in the same order. The premises
/// are exactly what `into_ics23_specs` and `from_ics23_specs` ensure of
/// their results.
pub proof fn lemma_proof_specs_round_trip(
    original: ProofSpecs,
    external: Vec<ics23::ProofSpec>,
    recovered: ProofSpecs,
)
    requires
        external@ == original@,
        recovered@ == external@,
    ensures
        recovered@ == original@,
        recovered@.len() == original@.len(),
        forall|i: int| 0 <= i < original@.len() ==> recovered@[i] == original@[i],
{
}

/// Law (round trip, starting from the generic list): wrapping a generic spec
/// list and unwrapping it again yields an element-for-element identical
/// list, in the same order.
pub proof fn lemma_ics23_specs_round_trip(
    original: Vec<ics23::ProofSpec>,
    wrapped: ProofSpecs,
    recovered: Vec<ics23::ProofSpec>,
)
    requires
        wrapped@ == original@,
        recovered@ == wrapped@,
    ensures
        recovered@ == original@,
        recovered@.len() == original@.len(),
        forall|i: int| 0 <= i < original@.len() ==> recovered@[i] == original@[i],
{
}

} // verus!
