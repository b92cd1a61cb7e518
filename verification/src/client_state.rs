use vstd::prelude::*;

use crate::errors::ClientError;
use crate::height::Height;
use crate::identifier::ChainId;
use crate::identifier::ChainIdV;
use crate::proof_specs::ProofSpecs;
use crate::trust_threshold::TrustThreshold;

verus! {

/// Mathematical content of a `ClientState`.
#[verifier::ext_equal]
pub struct ClientStateV {
    pub chain_id: ChainIdV,
    pub trust_threshold: TrustThreshold,
    pub trusting_period: u64,
    pub unbonding_period: u64,
    pub max_clock_drift: u64,
    pub latest_height: Height,
    pub proof_specs: Seq<ics23::ProofSpec>,
    pub frozen_height: Option<Height>,
}

impl ClientStateV {
    /// The invariant every client state built through `new` satisfies and
    /// every transition preserves: a positive trusting period, a well-formed
    /// trust threshold, and well-formed heights.
    pub open spec fn is_valid(self) -> bool {
        &&& self.trusting_period > 0
        &&& self.trust_threshold.is_valid()
        &&& self.latest_height.is_valid()
        &&& match self.frozen_height {
            Some(h) => h.is_valid(),
            None => true,
        }
    }
}

/// The durable record of what a chain knows about another chain: the trust
/// policy under which headers are accepted, the latest tracked height, the
/// proof specs used to check inclusion proofs against that chain's state,
/// and the frozen height set once misbehaviour is accepted. The latest
/// height only moves forward on successful updates; a set frozen height is
/// terminal.
#[derive(Debug)]
pub struct ClientState {
    pub chain_id: ChainId,
    pub trust_threshold: TrustThreshold,
    pub trusting_period: u64,
    pub unbonding_period: u64,
    pub max_clock_drift: u64,
    pub latest_height: Height,
    pub proof_specs: ProofSpecs,
    pub frozen_height: Option<Height>,
}

impl View for ClientState {
    type V = ClientStateV;

    open spec fn view(&self) -> ClientStateV {
        ClientStateV {
            chain_id: self.chain_id@,
            trust_threshold: self.trust_threshold,
            trusting_period: self.trusting_period,
            unbonding_period: self.unbonding_period,
            max_clock_drift: self.max_clock_drift,
            latest_height: self.latest_height,
            proof_specs: self.proof_specs@,
            frozen_height: self.frozen_height,
        }
    }
}

impl ClientState {
    /// Builds an active (unfrozen) client state, rejecting a zero trusting
    /// period, an invalid trust threshold and an invalid latest height.
    pub fn new(
        chain_id: ChainId,
        trust_threshold: TrustThreshold,
        trusting_period: u64,
        unbonding_period: u64,
        max_clock_drift: u64,
        latest_height: Height,
        proof_specs: ProofSpecs,
    ) -> (r: Result<ClientState, ClientError>)
        ensures
            trusting_period == 0 ==> (r matches Err(e) && e
                == ClientError::InvalidTrustingPeriod),
            trusting_period > 0 && !trust_threshold.is_valid() ==> (r matches Err(e) && e == (
            ClientError::InvalidTrustThreshold {
                numerator: trust_threshold.numerator,
                denominator: trust_threshold.denominator,
            })),
            trusting_period > 0 && trust_threshold.is_valid() && !latest_height.is_valid() ==> (r
                matches Err(e) && e == ClientError::InvalidHeight),
            trusting_period > 0 && trust_threshold.is_valid() && latest_height.is_valid() ==> (r
                matches Ok(cs) && cs@ == (ClientStateV {
                chain_id: chain_id@,
                trust_threshold,
                trusting_period,
                unbonding_period,
                max_clock_drift,
                latest_height,
                proof_specs: proof_specs@,
                frozen_height: None,
            }) && cs@.is_valid()),
    {
        if trusting_period == 0 {
            return Err(ClientError::InvalidTrustingPeriod);
        }
        if trust_threshold.denominator == 0 || trust_threshold.numerator
            > trust_threshold.denominator {
            return Err(ClientError::InvalidTrustThreshold {
                numerator: trust_threshold.numerator,
                denominator: trust_threshold.denominator,
            });
        }
        if latest_height.revision_height() == 0 {
            return Err(ClientError::InvalidHeight);
        }
        Ok(ClientState {
            chain_id,
            trust_threshold,
            trusting_period,
            unbonding_period,
            max_clock_drift,
            latest_height,
            proof_specs,
            frozen_height: None,
        })
    }

    pub fn latest_height(&self) -> (r: Height)
        ensures
            r == self.latest_height,
    {
        self.latest_height
    }

    /// Whether misbehaviour has made this client permanently inert.
    pub fn is_frozen(&self) -> (r: bool)
        ensures
            r == (self.frozen_height is Some),
    {
        match self.frozen_height {
            Some(_) => true,
            None => false,
        }
    }

    /// Checks the client-state invariant.
    pub fn check_valid(&self) -> (r: bool)
        ensures
            r == self@.is_valid(),
    {
        self.trusting_period > 0 && self.trust_threshold.denominator > 0
            && self.trust_threshold.numerator <= self.trust_threshold.denominator
            && self.latest_height.revision_height() >= 1 && (match self.frozen_height {
            Some(h) => h.revision_height >= 1,
            None => true,
        })
    }
}

impl Clone for ClientState {
    fn clone(&self) -> (r: Self)
        ensures
            r@ == self@,
    {
        ClientState {
            chain_id: self.chain_id.clone(),
            trust_threshold: self.trust_threshold,
            trusting_period: self.trusting_period,
            unbonding_period: self.unbonding_period,
            max_clock_drift: self.max_clock_drift,
            latest_height: self.latest_height,
            proof_specs: self.proof_specs.clone(),
            frozen_height: self.frozen_height,
        }
    }
}

} // verus!
