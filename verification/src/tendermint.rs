use vstd::prelude::*;

use crate::identifier::ClientType;

verus! {

/// Returns the tendermint `ClientType`, the tag under which clients running
/// the tendermint light-client verification algorithm are identified.
pub fn client_type() -> (r: ClientType)
    ensures
        r@ == "07-tendermint"@,
{
    ClientType::new("07-tendermint".to_owned())
}

} // verus!
