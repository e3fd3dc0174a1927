//! The performer escrow: an accounted balance of harvested fee shares
//! waiting for the collection's performer to claim it.

use vstd::prelude::*;
use crate::errors::ProtocolError;
use crate::state::PerformerEscrow;

verus! {

/// Creates a collection's performer escrow with an empty balance.
pub fn initialize_performer_escrow(collection_key: u64, performer_wallet: u64) -> (escrow:
    PerformerEscrow)
    ensures
        escrow == (PerformerEscrow { collection: collection_key, performer_wallet, balance: 0 }),
{
    PerformerEscrow { collection: collection_key, performer_wallet, balance: 0 }
}

/// Pays out the whole accounted performer balance: the returned amount is
/// what the host transfers from the escrow holding to the performer, and
/// the balance is reset to zero.  Only the recorded performer may claim,
/// and an empty balance is refused.
pub fn claim_performer_escrow(performer_escrow: &mut PerformerEscrow, caller: u64) -> (r: Result<
    u64,
    ProtocolError,
>)
    ensures
        r is Err <==> caller != old(performer_escrow).performer_wallet || old(
            performer_escrow,
        ).balance == 0,
        r is Err ==> *final(performer_escrow) == *old(performer_escrow) && r == Err::<
            u64,
            ProtocolError,
        >(
            if caller != old(performer_escrow).performer_wallet {
                ProtocolError::Unauthorized
            } else {
                ProtocolError::InsufficientFunds
            },
        ),
        r matches Ok(paid) ==> ({
            &&& paid == old(performer_escrow).balance
            &&& paid > 0
            &&& *final(performer_escrow) == (PerformerEscrow { balance: 0, ..*old(performer_escrow) })
        }),
{
    if caller != performer_escrow.performer_wallet {
        return Err(ProtocolError::Unauthorized);
    }
    if performer_escrow.balance == 0 {
        return Err(ProtocolError::InsufficientFunds);
    }
    let claim_amount = performer_escrow.balance;
    performer_escrow.balance = 0;
    Ok(claim_amount)
}

} // verus!
