use vstd::prelude::*;

use crate::client_state::ClientState;
use crate::client_state::ClientStateV;
use crate::consensus_state::ConsensusState;
use crate::consensus_state::ConsensusStateV;
use crate::errors::ClientError;
use crate::errors::ContextError;
use crate::header::Header;
use crate::header::HeaderV;
use crate::header::Misbehaviour;
use crate::header::MisbehaviourV;
use crate::height::Height;
use crate::identifier::ChainId;
use crate::identifier::ChainIdV;
use crate::identifier::ClientId;
use crate::identifier::ClientIdV;
use crate::identifier::ClientType;
use crate::identifier::Signer;
use crate::proof_specs::ProofSpecs;
use crate::relayer::ClientMsg;
use crate::relayer::MsgEnvelope;
use crate::relayer::MsgUpdateClientV;
use crate::relayer::RelayerContext;
use crate::trust_threshold::TrustThreshold;

verus! {

/// The client-type tag of the simulated host chains below.
pub fn mock_client_type() -> (r: ClientType)
    ensures
        r@ == "9999-mock"@,
{
    ClientType::new("9999-mock".to_owned())
}

/// Mathematical content of a `ClientRecord`.
#[verifier::ext_equal]
pub struct ClientRecordV {
    pub id: ClientIdV,
    pub client_state: ClientStateV,
    pub consensus_states: Seq<(Height, ConsensusStateV)>,
}

/// Everything a chain stores for one tracked client: the client state and
/// the consensus states recorded so far, keyed by height.
#[derive(Debug)]
pub struct ClientRecord {
    pub id: ClientId,
    pub client_state: ClientState,
    pub consensus_states: Vec<(Height, ConsensusState)>,
}

impl View for ClientRecord {
    type V = ClientRecordV;

    open spec fn view(&self) -> ClientRecordV {
        ClientRecordV {
            id: self.id@,
            client_state: self.client_state@,
            consensus_states: self.consensus_states@.map_values(
                |p: (Height, ConsensusState)| (p.0, p.1@),
            ),
        }
    }
}

/// The index of the first record for `id`, if one exists.
pub open spec fn find_client(clients: Seq<ClientRecordV>, id: ClientIdV) -> Option<int>
    decreases clients.len(),
{
    if clients.len() == 0 {
        None
    } else if clients[0].id == id {
        Some(0int)
    } else {
        match find_client(clients.drop_first(), id) {
            None => None,
            Some(i) => Some(i + 1),
        }
    }
}

/// The client state stored for `id`, if any.
pub open spec fn client_state_in(clients: Seq<ClientRecordV>, id: ClientIdV) -> Option<
    ClientStateV,
> {
    match find_client(clients, id) {
        None => None,
        Some(i) => Some(clients[i].client_state),
    }
}

/// Whether a consensus state is stored at height `h`.
pub open spec fn has_consensus_at(states: Seq<(Height, ConsensusStateV)>, h: Height) -> bool {
    exists|i: int| 0 <= i < states.len() && states[i].0 == h
}

/// What `find_client` returns is the first matching index, and a miss means
/// no record matches.
pub proof fn lemma_find_client_properties(clients: Seq<ClientRecordV>, id: ClientIdV)
    ensures
        match find_client(clients, id) {
            Some(i) => 0 <= i < clients.len() && clients[i].id == id && (forall|j: int|
                0 <= j < i ==> clients[j].id != id),
            None => forall|j: int| 0 <= j < clients.len() ==> clients[j].id != id,
        },
    decreases clients.len(),
{
    if clients.len() == 0 {
    } else if clients[0].id == id {
    } else {
        let rest = clients.drop_first();
        lemma_find_client_properties(rest, id);
        match find_client(rest, id) {
            None => {
                assert forall|j: int| 0 <= j < clients.len() implies clients[j].id != id by {
                    if j > 0 {
                        assert(clients[j] == rest[j - 1]);
                    }
                }
            },
            Some(i) => {
                assert(clients[i + 1] == rest[i]);
                assert forall|j: int| 0 <= j < i + 1 implies clients[j].id != id by {
                    if j > 0 {
                        assert(clients[j] == rest[j - 1]);
                    }
                }
            },
        }
    }
}

/// A first matching index determines what `find_client` returns.
pub proof fn lemma_find_client_witness(clients: Seq<ClientRecordV>, id: ClientIdV, i: int)
    requires
        0 <= i < clients.len(),
        clients[i].id == id,
        forall|j: int| 0 <= j < i ==> clients[j].id != id,
    ensures
        find_client(clients, id) == Some(i),
    decreases clients.len(),
{
    if i == 0 {
    } else {
        assert(clients[0].id != id);
        lemma_find_client_witness(clients.drop_first(), id, i - 1);
    }
}

/// Replacing a record does not change where any other id is found.
pub proof fn lemma_find_client_update_other(
    clients: Seq<ClientRecordV>,
    id: ClientIdV,
    i: int,
    rec: ClientRecordV,
    other: ClientIdV,
)
    requires
        0 <= i < clients.len(),
        clients[i].id == id,
        rec.id == id,
        other != id,
    ensures
        find_client(clients.update(i, rec), other) == find_client(clients, other),
    decreases clients.len(),
{
    if i == 0 {
        assert(clients.update(0int, rec).drop_first() =~= clients.drop_first());
    } else {
        assert(clients.update(i, rec).drop_first() =~= clients.drop_first().update(i - 1, rec));
        lemma_find_client_update_other(clients.drop_first(), id, i - 1, rec, other);
    }
}

/// Replacing the record an id resolves to, with a record under the same id,
/// leaves the id resolving there and every other id untouched.
pub proof fn lemma_find_client_update(
    clients: Seq<ClientRecordV>,
    id: ClientIdV,
    i: int,
    rec: ClientRecordV,
)
    requires
        find_client(clients, id) == Some(i),
        rec.id == id,
    ensures
        find_client(clients.update(i, rec), id) == Some(i),
        forall|other: ClientIdV|
            other != id ==> find_client(clients.update(i, rec), other) == find_client(
                clients,
                other,
            ),
{
    lemma_find_client_properties(clients, id);
    lemma_find_client_witness(clients.update(i, rec), id, i);
    assert forall|other: ClientIdV|
        other != id implies find_client(clients.update(i, rec), other) == find_client(
        clients,
        other,
    ) by {
        lemma_find_client_update_other(clients, id, i, rec, other);
    }
}

/// Mathematical content of a `MockContext`.
#[verifier::ext_equal]
pub struct MockContextV {
    pub chain_id: ChainIdV,
    pub latest_height: Height,
    pub signer: Seq<char>,
    pub clients: Seq<ClientRecordV>,
}

impl MockContextV {
    /// The context invariant: a well-formed own height and well-formed
    /// client states.
    pub open spec fn wf(self) -> bool {
        &&& self.latest_height.is_valid()
        &&& forall|i: int|
            0 <= i < self.clients.len() ==> (#[trigger] self.clients[i]).client_state.is_valid()
    }
}

/// A self-contained chain context for driving the update cycle: the chain's
/// identity, its own latest height, its signer, and the clients it tracks.
/// It answers the `RelayerContext` queries and dispatches update messages
/// against its stored client records.
#[derive(Debug)]
pub struct MockContext {
    pub chain_id: ChainId,
    pub latest_height: Height,
    pub signer: Signer,
    pub clients: Vec<ClientRecord>,
}

impl View for MockContext {
    type V = MockContextV;

    open spec fn view(&self) -> MockContextV {
        MockContextV {
            chain_id: self.chain_id@,
            latest_height: self.latest_height,
            signer: self.signer@,
            clients: self.clients@.map_values(|r: ClientRecord| r@),
        }
    }
}

impl MockContext {
    /// A fresh context with no tracked clients.
    pub fn new(chain_id: ChainId, initial_height: Height, signer: Signer) -> (r: MockContext)
        ensures
            r@ == (MockContextV {
                chain_id: chain_id@,
                latest_height: initial_height,
                signer: signer@,
                clients: Seq::empty(),
            }),
    {
        let r = MockContext { chain_id, latest_height: initial_height, signer, clients: Vec::new() };
        proof {
            assert(r@.clients =~= Seq::<ClientRecordV>::empty());
        }
        r
    }

    /// Adds a tracked client for the chain `counterparty_chain_id`, with the
    /// default trust policy, latest height `client_height` and one consensus
    /// state recorded at that height.
    pub fn with_client(
        self,
        counterparty_chain_id: ChainId,
        client_id: &ClientId,
        client_height: Height,
    ) -> (r: MockContext)
        requires
            client_height.is_valid(),
        ensures
            r@.chain_id == self@.chain_id,
            r@.latest_height == self@.latest_height,
            r@.signer == self@.signer,
            r@.clients.len() == self@.clients.len() + 1,
            forall|i: int| 0 <= i < self@.clients.len() ==> r@.clients[i] == self@.clients[i],
            ({
                let rec = r@.clients.last();
                &&& rec.id == client_id@
                &&& rec.client_state.chain_id == counterparty_chain_id@
                &&& rec.client_state.latest_height == client_height
                &&& rec.client_state.frozen_height is None
                &&& rec.client_state.is_valid()
                &&& rec.consensus_states.len() == 1
                &&& rec.consensus_states[0].0 == client_height
            }),
    {
        let client_state = ClientState {
            chain_id: counterparty_chain_id,
            trust_threshold: TrustThreshold::two_thirds(),
            trusting_period: 1_209_600,
            unbonding_period: 1_814_400,
            max_clock_drift: 5,
            latest_height: client_height,
            proof_specs: ProofSpecs::cosmos(),
            frozen_height: None,
        };
        let consensus = ConsensusState {
            timestamp: client_height.revision_height,
            root: Vec::new(),
            next_validators_hash: Vec::new(),
        };
        let mut consensus_states: Vec<(Height, ConsensusState)> = Vec::new();
        consensus_states.push((client_height, consensus));
        let record = ClientRecord { id: client_id.clone(), client_state, consensus_states };
        let MockContext { chain_id, latest_height, signer, mut clients } = self;
        clients.push(record);
        let r = MockContext { chain_id, latest_height, signer, clients };
        proof {
            assert(forall|i: int|
                0 <= i < self@.clients.len() ==> r@.clients[i] == self@.clients[i]);
        }
        r
    }

    /// Checks the context invariant, reporting the first violated check.
    pub fn validate(&self) -> (r: Result<(), ClientError>)
        ensures
            r is Ok <==> self@.wf(),
    {
        if self.latest_height.revision_height() == 0 {
            return Err(ClientError::InvalidHeight);
        }
        let n = self.clients.len();
        let mut i: usize = 0;
        while i < n
            invariant
                n == self.clients@.len(),
                i <= n,
                forall|j: int| 0 <= j < i ==> (#[trigger] self@.clients[j]).client_state.is_valid(),
            decreases n - i,
        {
            if !self.clients[i].client_state.check_valid() {
                proof {
                    assert(self@.clients[i as int] == self.clients@[i as int]@);
                    assert(!self@.clients[i as int].client_state.is_valid());
                }
                return Err(ClientError::InvalidClientState);
            }
            i = i + 1;
        }
        Ok(())
    }
}

impl RelayerContext for MockContext {
    open spec fn latest_height_spec(&self) -> Height {
        self.latest_height
    }

    open spec fn client_state_of(&self, client_id: ClientIdV) -> Option<ClientStateV> {
        client_state_in(self@.clients, client_id)
    }

    open spec fn signer_spec(&self) -> Seq<char> {
        self.signer@
    }

    fn query_latest_height(&self) -> (r: Result<Height, ContextError>)
        ensures
            r == Ok::<Height, ContextError>(self.latest_height),
    {
        Ok(self.latest_height)
    }

    fn query_client_full_state(&self, client_id: &ClientId) -> (r: Option<ClientState>) {
        let n = self.clients.len();
        let mut i: usize = 0;
        while i < n
            invariant
                n == self.clients@.len(),
                i <= n,
                forall|j: int| 0 <= j < i ==> (#[trigger] self@.clients[j]).id != client_id@,
            decreases n - i,
        {
            if self.clients[i].id == *client_id {
                let cs = self.clients[i].client_state.clone();
                proof {
                    lemma_find_client_witness(self@.clients, client_id@, i as int);
                }
                return Some(cs);
            }
            i = i + 1;
        }
        proof {
            lemma_find_client_properties(self@.clients, client_id@);
        }
        None
    }

    fn query_latest_header(&self) -> (r: Option<Header>)
        ensures
            r is Some <==> self.latest_height.revision_height >= 2,
            r matches Some(h) ==> h@ == (HeaderV {
                height: self.latest_height,
                trusted_height: Height {
                    revision_number: self.latest_height.revision_number,
                    revision_height: (self.latest_height.revision_height - 1) as u64,
                },
                timestamp: self.latest_height.revision_height,
                root: Seq::empty(),
                validators_hash: Seq::empty(),
                next_validators_hash: Seq::empty(),
            }),
    {
        if self.latest_height.revision_height() >= 2 {
            let trusted = Height {
                revision_number: self.latest_height.revision_number,
                revision_height: self.latest_height.revision_height - 1,
            };
            Some(
                Header::new(
                    self.latest_height,
                    trusted,
                    self.latest_height.revision_height,
                    Vec::new(),
                    Vec::new(),
                    Vec::new(),
                ),
            )
        } else {
            None
        }
    }

    fn signer(&self) -> (r: Signer) {
        self.signer.clone()
    }
}

/// The update transition of a context (dispatching one update message):
/// the addressed client must exist and be active, the header's trusted
/// height must match a stored consensus state, and the header must strictly
/// advance the client's latest height. On acceptance the new consensus state
/// is stored at the header's height, the client's latest height advances to
/// it, and the host chain itself grows by one block. Exactly one error
/// names every way the message can be refused, and a refusal leaves the
/// context unchanged.
pub open spec fn deliver_transition(ctx: MockContextV, m: MsgUpdateClientV) -> Result<
    MockContextV,
    ClientError,
> {
    match find_client(ctx.clients, m.client_id) {
        None => Err(ClientError::UnknownClient),
        Some(i) => {
            let rec = ctx.clients[i];
            match rec.client_state.frozen_height {
                Some(fh) => Err(ClientError::ClientFrozen { frozen_height: fh }),
                None => if !has_consensus_at(rec.consensus_states, m.header.trusted_height) {
                    Err(ClientError::TrustedHeightMismatch {
                        trusted_height: m.header.trusted_height,
                    })
                } else if !rec.client_state.latest_height.lt_spec(m.header.height) {
                    Err(ClientError::HeaderNotNewer {
                        header_height: m.header.height,
                        latest_height: rec.client_state.latest_height,
                    })
                } else if ctx.latest_height.revision_height == u64::MAX {
                    Err(ClientError::HeightOverflow)
                } else {
                    Ok(MockContextV {
                        latest_height: Height {
                            revision_number: ctx.latest_height.revision_number,
                            revision_height: (ctx.latest_height.revision_height + 1) as u64,
                        },
                        clients: ctx.clients.update(
                            i,
                            ClientRecordV {
                                client_state: ClientStateV {
                                    latest_height: m.header.height,
                                    ..rec.client_state
                                },
                                consensus_states: rec.consensus_states.push(
                                    (m.header.height, m.header.consensus_state()),
                                ),
                                ..rec
                            },
                        ),
                        ..ctx
                    })
                },
            }
        },
    }
}

/// The misbehaviour transition of a context: the addressed client must
/// exist and be active, and the two headers must conflict at one height.
/// On acceptance the client's frozen height becomes that height, a terminal
/// state. A refusal leaves the context unchanged.
pub open spec fn misbehaviour_transition(ctx: MockContextV, m: MisbehaviourV) -> Result<
    MockContextV,
    ClientError,
> {
    match find_client(ctx.clients, m.client_id) {
        None => Err(ClientError::UnknownClient),
        Some(i) => {
            let rec = ctx.clients[i];
            match rec.client_state.frozen_height {
                Some(fh) => Err(ClientError::ClientFrozen { frozen_height: fh }),
                None => if m.header1.height != m.header2.height {
                    Err(ClientError::MisbehaviourHeightMismatch {
                        height1: m.header1.height,
                        height2: m.header2.height,
                    })
                } else if !m.header1.diverges_from(m.header2) {
                    Err(ClientError::MisbehaviourNotConflicting { height: m.header1.height })
                } else {
                    Ok(MockContextV {
                        clients: ctx.clients.update(
                            i,
                            ClientRecordV {
                                client_state: ClientStateV {
                                    frozen_height: Some(m.header1.height),
                                    ..rec.client_state
                                },
                                ..rec
                            },
                        ),
                        ..ctx
                    })
                },
            }
        },
    }
}

impl MockContext {
    /// Dispatches an update message into this context, performing the
    /// update transition described by `deliver_transition`.
    pub fn deliver(&mut self, msg: MsgEnvelope) -> (r: Result<(), ClientError>)
        ensures
            match deliver_transition(old(self)@, msg.update_msg()) {
                Ok(ctx2) => r == Ok::<(), ClientError>(()) && final(self)@ == ctx2,
                Err(e) => r == Err::<(), ClientError>(e) && final(self)@ == old(self)@,
            },
    {
        let ghost msgv = msg.update_msg();
        let m = match msg {
            MsgEnvelope::Client(client_msg) => match client_msg {
                ClientMsg::UpdateClient(m) => m,
            },
        };
        let n = self.clients.len();
        let mut idx: usize = 0;
        while idx < n && !(self.clients[idx].id == m.client_id)
            invariant
                n == self.clients@.len(),
                idx <= n,
                forall|j: int| 0 <= j < idx ==> (#[trigger] self@.clients[j]).id != m.client_id@,
            decreases n - idx,
        {
            idx = idx + 1;
        }
        if idx == n {
            proof {
                lemma_find_client_properties(self@.clients, m.client_id@);
            }
            return Err(ClientError::UnknownClient);
        }
        proof {
            lemma_find_client_witness(self@.clients, m.client_id@, idx as int);
        }
        match self.clients[idx].client_state.frozen_height {
            Some(frozen_height) => {
                return Err(ClientError::ClientFrozen { frozen_height });
            },
            None => {},
        }
        let trusted_height = m.header.trusted_height;
        let cons_n = self.clients[idx].consensus_states.len();
        let mut k: usize = 0;
        while k < cons_n && !(self.clients[idx].consensus_states[k].0 == trusted_height)
            invariant
                idx < self.clients@.len(),
                cons_n == self.clients@[idx as int].consensus_states@.len(),
                k <= cons_n,
                forall|j: int|
                    0 <= j < k ==> (#[trigger] self@.clients[idx as int].consensus_states[j]).0
                        != trusted_height,
            decreases cons_n - k,
        {
            k = k + 1;
        }
        if k == cons_n {
            proof {
                assert(!has_consensus_at(
                    self@.clients[idx as int].consensus_states,
                    trusted_height,
                ));
            }
            return Err(ClientError::TrustedHeightMismatch { trusted_height });
        }
        proof {
            assert(self@.clients[idx as int].consensus_states[k as int].0 == trusted_height);
            assert(has_consensus_at(self@.clients[idx as int].consensus_states, trusted_height));
        }
        let latest = self.clients[idx].client_state.latest_height;
        let header_height = m.header.height;
        if !(latest < header_height) {
            return Err(ClientError::HeaderNotNewer { header_height, latest_height: latest });
        }
        if self.latest_height.revision_height == u64::MAX {
            return Err(ClientError::HeightOverflow);
        }
        let ghost old_ctx = self@;
        let ghost i = idx as int;
        let ghost old_rec = self@.clients[i];
        let ghost old_clients_exec = self.clients@;
        let new_consensus = m.header.consensus_state();
        let mut rec = self.clients.remove(idx);
        rec.client_state.latest_height = header_height;
        rec.consensus_states.push((header_height, new_consensus));
        proof {
            assert(rec@.consensus_states =~= old_rec.consensus_states.push(
                (msgv.header.height, msgv.header.consensus_state()),
            ));
            assert(rec@ =~= (ClientRecordV {
                client_state: ClientStateV { latest_height: msgv.header.height, ..old_rec.client_state },
                consensus_states: old_rec.consensus_states.push(
                    (msgv.header.height, msgv.header.consensus_state()),
                ),
                ..old_rec
            }));
        }
        self.clients.insert(idx, rec);
        self.latest_height = Height {
            revision_number: self.latest_height.revision_number,
            revision_height: self.latest_height.revision_height + 1,
        };
        proof {
            assert(self.clients@ =~= old_clients_exec.update(i, rec));
            assert(self@.clients =~= old_ctx.clients.update(i, rec@));
            assert(self@ =~= (MockContextV {
                latest_height: Height {
                    revision_number: old_ctx.latest_height.revision_number,
                    revision_height: (old_ctx.latest_height.revision_height + 1) as u64,
                },
                clients: old_ctx.clients.update(i, rec@),
                ..old_ctx
            }));
            assert(deliver_transition(old_ctx, msgv) == Ok::<MockContextV, ClientError>(self@));
        }
        Ok(())
    }

    /// Submits misbehaviour evidence into this context, performing the
    /// freezing transition described by `misbehaviour_transition`.
    pub fn submit_misbehaviour(&mut self, misbehaviour: Misbehaviour) -> (r: Result<
        (),
        ClientError,
    >)
        ensures
            match misbehaviour_transition(old(self)@, misbehaviour@) {
                Ok(ctx2) => r == Ok::<(), ClientError>(()) && final(self)@ == ctx2,
                Err(e) => r == Err::<(), ClientError>(e) && final(self)@ == old(self)@,
            },
    {
        let ghost mv = misbehaviour@;
        let n = self.clients.len();
        let mut idx: usize = 0;
        while idx < n && !(self.clients[idx].id == misbehaviour.client_id)
            invariant
                n == self.clients@.len(),
                idx <= n,
                forall|j: int|
                    0 <= j < idx ==> (#[trigger] self@.clients[j]).id != misbehaviour.client_id@,
            decreases n - idx,
        {
            idx = idx + 1;
        }
        if idx == n {
            proof {
                lemma_find_client_properties(self@.clients, misbehaviour.client_id@);
            }
            return Err(ClientError::UnknownClient);
        }
        proof {
            lemma_find_client_witness(self@.clients, misbehaviour.client_id@, idx as int);
        }
        match self.clients[idx].client_state.frozen_height {
            Some(frozen_height) => {
                return Err(ClientError::ClientFrozen { frozen_height });
            },
            None => {},
        }
        if !(misbehaviour.header1.height == misbehaviour.header2.height) {
            return Err(ClientError::MisbehaviourHeightMismatch {
                height1: misbehaviour.header1.height,
                height2: misbehaviour.header2.height,
            });
        }
        if !crate::header::headers_diverge(&misbehaviour.header1, &misbehaviour.header2) {
            return Err(ClientError::MisbehaviourNotConflicting {
                height: misbehaviour.header1.height,
            });
        }
        let ghost old_ctx = self@;
        let ghost i = idx as int;
        let ghost old_rec = self@.clients[i];
        let ghost old_clients_exec = self.clients@;
        let frozen_at = misbehaviour.header1.height;
        let mut rec = self.clients.remove(idx);
        rec.client_state.frozen_height = Some(frozen_at);
        proof {
            assert(rec@ =~= (ClientRecordV {
                client_state: ClientStateV {
                    frozen_height: Some(mv.header1.height),
                    ..old_rec.client_state
                },
                ..old_rec
            }));
        }
        self.clients.insert(idx, rec);
        proof {
            assert(self.clients@ =~= old_clients_exec.update(i, rec));
            assert(self@.clients =~= old_ctx.clients.update(i, rec@));
            assert(self@ =~= (MockContextV {
                clients: old_ctx.clients.update(i, rec@),
                ..old_ctx
            }));
            assert(misbehaviour_transition(old_ctx, mv) == Ok::<MockContextV, ClientError>(
                self@,
            ));
        }
        Ok(())
    }
}

/// Law (monotonicity, one step): a successful update strictly advances the
/// addressed client's tracked latest height, to exactly the header's
/// height, and leaves every other client's state untouched.
pub proof fn lemma_update_monotonic(ctx: MockContextV, m: MsgUpdateClientV, ctx2: MockContextV)
    requires
        deliver_transition(ctx, m) == Ok::<MockContextV, ClientError>(ctx2),
    ensures
        ({
            let before = client_state_in(ctx.clients, m.client_id);
            let after = client_state_in(ctx2.clients, m.client_id);
            &&& before matches Some(b) && after matches Some(a) && b.latest_height.lt_spec(
                a.latest_height,
            ) && a.latest_height == m.header.height
        }),
        forall|other: ClientIdV|
            other != m.client_id ==> client_state_in(ctx2.clients, other) == client_state_in(
                ctx.clients,
                other,
            ),
{
    match find_client(ctx.clients, m.client_id) {
        None => {
            assert(false);
        },
        Some(i) => {
            lemma_find_client_properties(ctx.clients, m.client_id);
            let rec2 = ClientRecordV {
                client_state: ClientStateV {
                    latest_height: m.header.height,
                    ..ctx.clients[i].client_state
                },
                consensus_states: ctx.clients[i].consensus_states.push(
                    (m.header.height, m.header.consensus_state()),
                ),
                ..ctx.clients[i]
            };
            lemma_find_client_update(ctx.clients, m.client_id, i, rec2);
            assert forall|other: ClientIdV|
                other != m.client_id implies client_state_in(ctx2.clients, other)
                == client_state_in(ctx.clients, other) by {
                match find_client(ctx.clients, other) {
                    None => {},
                    Some(j) => {
                        lemma_find_client_properties(ctx.clients, other);
                        assert(j != i);
                        assert(ctx2.clients[j] == ctx.clients[j]);
                    },
                }
            }
        },
    }
}

/// Law (monotonicity, chained): across consecutive successful updates of
/// one client the tracked latest height keeps strictly increasing, so it
/// never returns to or below an earlier value.
pub proof fn lemma_update_monotonic_chain(
    ctx0: MockContextV,
    m1: MsgUpdateClientV,
    ctx1: MockContextV,
    m2: MsgUpdateClientV,
    ctx2: MockContextV,
)
    requires
        deliver_transition(ctx0, m1) == Ok::<MockContextV, ClientError>(ctx1),
        deliver_transition(ctx1, m2) == Ok::<MockContextV, ClientError>(ctx2),
        m1.client_id == m2.client_id,
    ensures
        ({
            let first = client_state_in(ctx0.clients, m1.client_id);
            let last = client_state_in(ctx2.clients, m1.client_id);
            &&& first matches Some(b) && last matches Some(a) && b.latest_height.lt_spec(
                a.latest_height,
            )
        }),
{
    lemma_update_monotonic(ctx0, m1, ctx1);
    lemma_update_monotonic(ctx1, m2, ctx2);
    match (client_state_in(ctx0.clients, m1.client_id), client_state_in(
        ctx1.clients,
        m1.client_id,
    ), client_state_in(ctx2.clients, m1.client_id)) {
        (Some(b), Some(mid), Some(a)) => {
            crate::height::lemma_height_lt_transitive(
                b.latest_height,
                mid.latest_height,
                a.latest_height,
            );
        },
        _ => {
            assert(false);
        },
    }
}

/// A successful update of a well-formed header preserves the context
/// invariant: the advanced client state stays well formed.
pub proof fn lemma_deliver_preserves_wf(ctx: MockContextV, m: MsgUpdateClientV, ctx2: MockContextV)
    requires
        ctx.wf(),
        m.header.height.is_valid(),
        deliver_transition(ctx, m) == Ok::<MockContextV, ClientError>(ctx2),
    ensures
        ctx2.wf(),
{
    match find_client(ctx.clients, m.client_id) {
        None => {
            assert(false);
        },
        Some(i) => {
            lemma_find_client_properties(ctx.clients, m.client_id);
            assert forall|j: int|
                0 <= j < ctx2.clients.len() implies (#[trigger] ctx2.clients[j]).client_state.is_valid() by {
                if j == i {
                    assert(ctx.clients[i].client_state.is_valid());
                } else {
                    assert(ctx2.clients[j] == ctx.clients[j]);
                    assert(ctx.clients[j].client_state.is_valid());
                }
            }
        },
    }
}

} // verus!
