use vstd::prelude::*;

use crate::client_state::ClientState;
use crate::client_state::ClientStateV;
use crate::errors::ContextError;
use crate::errors::RelayerError;
use crate::errors::RelayerErrorV;
use crate::header::Header;
use crate::header::HeaderV;
use crate::height::Height;
use crate::identifier::ClientId;
use crate::identifier::ClientIdV;
use crate::identifier::Signer;

verus! {

/// Mathematical content of a `MsgUpdateClient`.
#[verifier::ext_equal]
pub struct MsgUpdateClientV {
    pub client_id: ClientIdV,
    pub header: HeaderV,
    pub signer: Seq<char>,
}

/// The update instruction the decision procedure emits: which client to
/// advance, the header that advances it, and the destination chain's own
/// signer identity. Transient; consumed by the dispatcher that performs the
/// state transition.
#[derive(Debug)]
pub struct MsgUpdateClient {
    pub client_id: ClientId,
    pub header: Header,
    pub signer: Signer,
}

impl View for MsgUpdateClient {
    type V = MsgUpdateClientV;

    open spec fn view(&self) -> MsgUpdateClientV {
        MsgUpdateClientV { client_id: self.client_id@, header: self.header@, signer: self.signer@ }
    }
}

/// Mathematical content of a `ClientMsg`.
#[verifier::ext_equal]
pub enum ClientMsgV {
    UpdateClient(MsgUpdateClientV),
}

/// A client-facing message, ready for dispatch.
#[derive(Debug)]
pub enum ClientMsg {
    UpdateClient(MsgUpdateClient),
}

impl View for ClientMsg {
    type V = ClientMsgV;

    open spec fn view(&self) -> ClientMsgV {
        match self {
            ClientMsg::UpdateClient(m) => ClientMsgV::UpdateClient(m@),
        }
    }
}

/// An envelope around the messages a chain context can process.
#[derive(Debug)]
pub enum MsgEnvelope {
    Client(ClientMsg),
}

impl MsgEnvelope {
    /// The update message an envelope carries.
    pub open spec fn update_msg(self) -> MsgUpdateClientV {
        match self {
            MsgEnvelope::Client(ClientMsg::UpdateClient(m)) => m@,
        }
    }
}

/// The capability set a chain exposes to relaying algorithms: the context
/// of a single chain, with no networking, header verification or RPC below
/// it. The three spec functions are the abstract chain state an
/// implementation answers from.
pub trait RelayerContext {
    /// The chain's own latest height.
    spec fn latest_height_spec(&self) -> Height;

    /// The client state this chain stores for a client id, if any.
    spec fn client_state_of(&self, client_id: ClientIdV) -> Option<ClientStateV>;

    /// The identity this chain signs with.
    spec fn signer_spec(&self) -> Seq<char>;

    /// Returns the latest height of the chain.
    fn query_latest_height(&self) -> (r: Result<Height, ContextError>)
        ensures
            r matches Ok(h) ==> h == self.latest_height_spec(),
    ;

    /// Returns this chain's client state for the given `client_id`.
    fn query_client_full_state(&self, client_id: &ClientId) -> (r: Option<ClientState>)
        ensures
            r is Some <==> self.client_state_of(client_id@) is Some,
            r matches Some(cs) ==> self.client_state_of(client_id@) == Some(cs@),
    ;

    /// Returns the most advanced header of this chain.
    fn query_latest_header(&self) -> (r: Option<Header>)
        ensures
            r matches Some(h) ==> h.height == self.latest_height_spec(),
    ;

    /// Returns the local signer identity.
    fn signer(&self) -> (r: Signer)
        ensures
            r@ == self.signer_spec(),
    ;
}

/// The update decision: given the destination's stored client state for a
/// client id, the source chain's latest header and the destination's signer,
/// exactly one of four outcomes follows. No stored state means
/// `ClientStateNotFound`; an equal height means `ClientAlreadyUpToDate`; a
/// destination already ahead means `ClientAtHigherHeight`; otherwise the
/// update message is owed.
pub open spec fn client_update_outcome(
    dest_client_state: Option<ClientStateV>,
    client_id: ClientIdV,
    src_header: HeaderV,
    dest_signer: Seq<char>,
) -> Result<ClientMsgV, RelayerErrorV> {
    match dest_client_state {
        None => Err(RelayerErrorV::ClientStateNotFound { client_id }),
        Some(cs) => if src_header.height == cs.latest_height {
            Err(RelayerErrorV::ClientAlreadyUpToDate {
                client_id,
                source_height: src_header.height,
                destination_height: cs.latest_height,
            })
        } else if src_header.height.lt_spec(cs.latest_height) {
            Err(RelayerErrorV::ClientAtHigherHeight {
                client_id,
                source_height: src_header.height,
                destination_height: cs.latest_height,
            })
        } else {
            Ok(ClientMsgV::UpdateClient(MsgUpdateClientV {
                client_id,
                header: src_header,
                signer: dest_signer,
            }))
        },
    }
}

/// The outcome a concrete result stands for.
pub open spec fn datagram_view(r: Result<ClientMsg, RelayerError>) -> Result<
    ClientMsgV,
    RelayerErrorV,
> {
    match r {
        Ok(m) => Ok(m@),
        Err(e) => Err(e@),
    }
}

/// Builds the `ClientMsg::UpdateClient` that advances the client `client_id`
/// on the `dest` context, assuming the latest header on the source context
/// is `src_header`. Reads the destination's stored client state, decides by
/// the three-way height comparison, and on success carries the header and
/// the destination's signer; the actual state transition is the
/// dispatcher's, not this function's.
pub fn build_client_update_datagram<Ctx: RelayerContext>(
    dest: &Ctx,
    client_id: &ClientId,
    src_header: &Header,
) -> (r: Result<ClientMsg, RelayerError>)
    ensures
        datagram_view(r) == client_update_outcome(
            dest.client_state_of(client_id@),
            client_id@,
            src_header@,
            dest.signer_spec(),
        ),
{
    let dest_client_state = match dest.query_client_full_state(client_id) {
        Some(cs) => cs,
        None => {
            return Err(RelayerError::ClientStateNotFound { client_id: client_id.clone() });
        },
    };
    let dest_client_latest_height = dest_client_state.latest_height();
    let source_height = src_header.height();

    if source_height == dest_client_latest_height {
        return Err(RelayerError::ClientAlreadyUpToDate {
            client_id: client_id.clone(),
            source_height,
            destination_height: dest_client_latest_height,
        });
    }
    if dest_client_latest_height > source_height {
        return Err(RelayerError::ClientAtHigherHeight {
            client_id: client_id.clone(),
            source_height,
            destination_height: dest_client_latest_height,
        });
    }
    let msg = MsgUpdateClient {
        client_id: client_id.clone(),
        header: src_header.clone(),
        signer: dest.signer(),
    };
    proof {
        assert(msg@ =~= (MsgUpdateClientV {
            client_id: client_id@,
            header: src_header@,
            signer: dest.signer_spec(),
        }));
    }
    Ok(ClientMsg::UpdateClient(msg))
}

/// Law (idempotence guard): while the destination's stored client state is
/// unchanged and already at the source header's height, every update
/// decision — a repeated one in particular — yields `ClientAlreadyUpToDate`,
/// and repeated decisions agree.
pub proof fn lemma_update_idempotence_guard(
    cs: ClientStateV,
    client_id: ClientIdV,
    src_header: HeaderV,
    signer: Seq<char>,
    first: Result<ClientMsgV, RelayerErrorV>,
    second: Result<ClientMsgV, RelayerErrorV>,
)
    requires
        src_header.height == cs.latest_height,
        first == client_update_outcome(Some(cs), client_id, src_header, signer),
        second == client_update_outcome(Some(cs), client_id, src_header, signer),
    ensures
        first == Err::<ClientMsgV, RelayerErrorV>(RelayerErrorV::ClientAlreadyUpToDate {
            client_id,
            source_height: src_header.height,
            destination_height: cs.latest_height,
        }),
        second == first,
{
}

/// Law (rejection on regression): where the destination's tracked height
/// already exceeds the presented header's height, the decision is
/// `ClientAtHigherHeight`. The decision reads the destination and mutates
/// nothing.
pub proof fn lemma_update_rejects_regression(
    cs: ClientStateV,
    client_id: ClientIdV,
    src_header: HeaderV,
    signer: Seq<char>,
)
    requires
        src_header.height.lt_spec(cs.latest_height),
    ensures
        client_update_outcome(Some(cs), client_id, src_header, signer) == Err::<
            ClientMsgV,
            RelayerErrorV,
        >(RelayerErrorV::ClientAtHigherHeight {
            client_id,
            source_height: src_header.height,
            destination_height: cs.latest_height,
        }),
{
}

/// Law (not-found propagation): an update request against a client id the
/// destination does not track yields `ClientStateNotFound`, whatever the
/// header and signer.
pub proof fn lemma_update_unknown_client(
    client_id: ClientIdV,
    src_header: HeaderV,
    signer: Seq<char>,
)
    ensures
        client_update_outcome(None, client_id, src_header, signer) == Err::<
            ClientMsgV,
            RelayerErrorV,
        >(RelayerErrorV::ClientStateNotFound { client_id }),
{
}

} // verus!
