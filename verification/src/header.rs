use vstd::prelude::*;

use crate::consensus_state::clone_bytes;
use crate::consensus_state::ConsensusState;
use crate::consensus_state::ConsensusStateV;
use crate::height::Height;
use crate::identifier::ClientId;
use crate::identifier::ClientIdV;

verus! {

/// Mathematical content of a `Header`.
#[verifier::ext_equal]
pub struct HeaderV {
    pub height: Height,
    pub trusted_height: Height,
    pub timestamp: u64,
    pub root: Seq<u8>,
    pub validators_hash: Seq<u8>,
    pub next_validators_hash: Seq<u8>,
}

impl HeaderV {
    /// The consensus-state payload this header carries.
    pub open spec fn consensus_state(self) -> ConsensusStateV {
        ConsensusStateV {
            timestamp: self.timestamp,
            root: self.root,
            next_validators_hash: self.next_validators_hash,
        }
    }

    /// Whether two headers at one height diverge in the evidence they carry:
    /// a differing payload field or a differing trusted-height claim.
    pub open spec fn diverges_from(self, other: HeaderV) -> bool {
        self.timestamp != other.timestamp || self.root != other.root
            || self.next_validators_hash != other.next_validators_hash || self.trusted_height
            != other.trusted_height
    }

    /// Whether two headers are conflicting evidence: same height, divergent
    /// content.
    pub open spec fn conflicts_with(self, other: HeaderV) -> bool {
        self.height == other.height && self.diverges_from(other)
    }
}

/// Update evidence: a new consensus-state payload at `height`, the digests
/// of the validator sets backing it, and the trusted height it claims to
/// build on. Constructed by the source
/// chain's context, consumed read-only by the destination chain's update
/// procedure; immutable once issued (the relayer may still retarget the
/// trusted height before submission).
#[derive(Debug)]
pub struct Header {
    pub height: Height,
    pub trusted_height: Height,
    pub timestamp: u64,
    pub root: Vec<u8>,
    pub validators_hash: Vec<u8>,
    pub next_validators_hash: Vec<u8>,
}

impl View for Header {
    type V = HeaderV;

    open spec fn view(&self) -> HeaderV {
        HeaderV {
            height: self.height,
            trusted_height: self.trusted_height,
            timestamp: self.timestamp,
            root: self.root@,
            validators_hash: self.validators_hash@,
            next_validators_hash: self.next_validators_hash@,
        }
    }
}

impl Header {
    pub fn new(
        height: Height,
        trusted_height: Height,
        timestamp: u64,
        root: Vec<u8>,
        validators_hash: Vec<u8>,
        next_validators_hash: Vec<u8>,
    ) -> (r: Header)
        ensures
            r@ == (HeaderV {
                height,
                trusted_height,
                timestamp,
                root: root@,
                validators_hash: validators_hash@,
                next_validators_hash: next_validators_hash@,
            }),
    {
        Header { height, trusted_height, timestamp, root, validators_hash, next_validators_hash }
    }

    pub fn height(&self) -> (r: Height)
        ensures
            r == self.height,
    {
        self.height
    }

    pub fn trusted_height(&self) -> (r: Height)
        ensures
            r == self.trusted_height,
    {
        self.trusted_height
    }

    /// Retargets the trusted height the header claims to build on; every
    /// other field is kept.
    pub fn set_trusted_height(&mut self, trusted_height: Height)
        ensures
            final(self)@ == (HeaderV { trusted_height, ..old(self)@ }),
    {
        self.trusted_height = trusted_height;
    }

    /// The consensus state recorded when this header is accepted.
    pub fn consensus_state(&self) -> (r: ConsensusState)
        ensures
            r@ == self@.consensus_state(),
    {
        ConsensusState {
            timestamp: self.timestamp,
            root: clone_bytes(&self.root),
            next_validators_hash: clone_bytes(&self.next_validators_hash),
        }
    }
}

impl Clone for Header {
    fn clone(&self) -> (r: Self)
        ensures
            r@ == self@,
    {
        Header {
            height: self.height,
            trusted_height: self.trusted_height,
            timestamp: self.timestamp,
            root: clone_bytes(&self.root),
            validators_hash: clone_bytes(&self.validators_hash),
            next_validators_hash: clone_bytes(&self.next_validators_hash),
        }
    }
}

/// Compares two byte strings by value.
pub(crate) fn bytes_eq(a: &Vec<u8>, b: &Vec<u8>) -> (r: bool)
    ensures
        r == (a@ == b@),
{
    if a.len() != b.len() {
        return false;
    }
    let n = a.len();
    let mut i: usize = 0;
    while i < n
        invariant
            n == a@.len(),
            n == b@.len(),
            i <= n,
            forall|j: int| 0 <= j < i ==> a@[j] == b@[j],
        decreases n - i,
    {
        if a[i] != b[i] {
            return false;
        }
        i = i + 1;
    }
    proof {
        assert(a@ =~= b@);
    }
    true
}

/// Whether two headers diverge in the evidence they carry; the executable
/// mirror of `HeaderV::diverges_from`.
pub fn headers_diverge(h1: &Header, h2: &Header) -> (r: bool)
    ensures
        r == h1@.diverges_from(h2@),
{
    h1.timestamp != h2.timestamp || !bytes_eq(&h1.root, &h2.root) || !bytes_eq(
        &h1.next_validators_hash,
        &h2.next_validators_hash,
    ) || h1.trusted_height != h2.trusted_height
}

/// Whether two headers are conflicting evidence; the executable mirror of
/// `HeaderV::conflicts_with`.
pub fn headers_conflict(h1: &Header, h2: &Header) -> (r: bool)
    ensures
        r == h1@.conflicts_with(h2@),
{
    h1.height == h2.height && headers_diverge(h1, h2)
}

/// Mathematical content of a `Misbehaviour`.
#[verifier::ext_equal]
pub struct MisbehaviourV {
    pub client_id: ClientIdV,
    pub header1: HeaderV,
    pub header2: HeaderV,
}

/// Submitted evidence that a tracked chain equivocated: two conflicting
/// headers for the same height. Accepted evidence freezes the client.
#[derive(Debug)]
pub struct Misbehaviour {
    pub client_id: ClientId,
    pub header1: Header,
    pub header2: Header,
}

impl View for Misbehaviour {
    type V = MisbehaviourV;

    open spec fn view(&self) -> MisbehaviourV {
        MisbehaviourV { client_id: self.client_id@, header1: self.header1@, header2: self.header2@ }
    }
}

impl Misbehaviour {
    pub fn new(client_id: ClientId, header1: Header, header2: Header) -> (r: Misbehaviour)
        ensures
            r@ == (MisbehaviourV {
                client_id: client_id@,
                header1: header1@,
                header2: header2@,
            }),
    {
        Misbehaviour { client_id, header1, header2 }
    }
}

} // verus!
