use ibc::proof_specs::ProofSpecs;

/// The default proof-spec sequence has exactly two entries and is not empty.
#[test]
fn default_specs_two_entries() {
    let specs = ProofSpecs::cosmos();
    assert!(!specs.is_empty());
    let entries: Vec<ics23::ProofSpec> = specs.into_ics23_specs();
    assert_eq!(entries.len(), 2);

    let defaulted: ProofSpecs = Default::default();
    assert!(!defaulted.is_empty());
    assert_eq!(defaulted.into_ics23_specs().len(), 2);
}

/// The two entries of the Cosmos-SDK layout are the IAVL store spec and the
/// tendermint simple-merkle spec, in that order.
#[test]
fn cosmos_specs_contents() {
    let entries: Vec<ics23::ProofSpec> = ProofSpecs::cosmos().into_ics23_specs();
    assert_eq!(entries[0], ics23::iavl_spec());
    assert_eq!(entries[1], ics23::tendermint_spec());
}

/// Converting a proof-spec list to the generic representation and back
/// yields an element-for-element identical sequence, in the same order.
#[test]
fn round_trip_preserves_entries() {
    let original: Vec<ics23::ProofSpec> = vec![ics23::tendermint_spec(), ics23::iavl_spec()];
    let wrapped = ProofSpecs::from_ics23_specs(original.clone());
    let recovered: Vec<ics23::ProofSpec> = wrapped.into_ics23_specs();
    assert_eq!(recovered, original);

    let wrapped_again = ProofSpecs::from_ics23_specs(recovered);
    let cloned = wrapped_again.clone();
    assert_eq!(cloned.into_ics23_specs(), original);
}

/// An empty sequence reports itself empty.
#[test]
fn empty_specs() {
    let specs = ProofSpecs::from_ics23_specs(Vec::new());
    assert!(specs.is_empty());
    assert_eq!(specs.into_ics23_specs().len(), 0);
}
