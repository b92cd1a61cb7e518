use vstd::prelude::*;

verus! {

/// Mathematical content of a `ConsensusState`.
#[verifier::ext_equal]
pub struct ConsensusStateV {
    pub timestamp: u64,
    pub root: Seq<u8>,
    pub next_validators_hash: Seq<u8>,
}

/// A minimal snapshot of a tracked chain at one height: the block timestamp
/// (nanoseconds), the commitment root against which inclusion proofs are
/// checked, and the digest of the next validator set. One instance is stored
/// per tracked height; never mutated once stored, only superseded by later
/// heights.
#[derive(Debug)]
pub struct ConsensusState {
    pub timestamp: u64,
    pub root: Vec<u8>,
    pub next_validators_hash: Vec<u8>,
}

impl View for ConsensusState {
    type V = ConsensusStateV;

    open spec fn view(&self) -> ConsensusStateV {
        ConsensusStateV {
            timestamp: self.timestamp,
            root: self.root@,
            next_validators_hash: self.next_validators_hash@,
        }
    }
}

/// Copies a byte string; used by the `Clone` impls of the types that carry
/// commitment roots and validator-set digests.
pub(crate) fn clone_bytes(v: &Vec<u8>) -> (r: Vec<u8>)
    ensures
        r@ == v@,
{
    let r = v.clone();
    proof {
        assert(r@ =~= v@);
    }
    r
}

impl ConsensusState {
    pub fn new(timestamp: u64, root: Vec<u8>, next_validators_hash: Vec<u8>) -> (r: ConsensusState)
        ensures
            r@ == (ConsensusStateV {
                timestamp,
                root: root@,
                next_validators_hash: next_validators_hash@,
            }),
    {
        ConsensusState { timestamp, root, next_validators_hash }
    }
}

impl Clone for ConsensusState {
    fn clone(&self) -> (r: Self)
        ensures
            r@ == self@,
    {
        ConsensusState {
            timestamp: self.timestamp,
            root: clone_bytes(&self.root),
            next_validators_hash: clone_bytes(&self.next_validators_hash),
        }
    }
}

} // verus!
