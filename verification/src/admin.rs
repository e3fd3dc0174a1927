//! Global protocol configuration: one record, admin-controlled, with a
//! one-way lock that makes it immutable forever.

use vstd::prelude::*;
use crate::constants::MAX_URL_LEN;
use crate::errors::ProtocolError;
use crate::state::GlobalState;

verus! {

/// Creates the protocol's global configuration record.  The fee rate is
/// capped at 10000 basis points (100%) and the URLs at their byte limits;
/// updates start out enabled.
pub fn initialize_protocol(
    admin: u64,
    treasury: u64,
    capgm_mint: u64,
    indexer_url: Vec<u8>,
    registry_url: Vec<u8>,
    mod_stake_min: u64,
    fee_basis_points: u16,
) -> (r: Result<GlobalState, ProtocolError>)
    ensures
        r is Err <==> indexer_url@.len() > MAX_URL_LEN || registry_url@.len() > MAX_URL_LEN
            || fee_basis_points > 10000,
        r is Err ==> r == Err::<GlobalState, ProtocolError>(
            if indexer_url@.len() > MAX_URL_LEN || registry_url@.len() > MAX_URL_LEN {
                ProtocolError::StringTooLong
            } else {
                ProtocolError::InvalidFeeConfig
            },
        ),
        r matches Ok(state) ==> ({
            &&& state.admin == admin
            &&& state.treasury == treasury
            &&& state.capgm_mint == capgm_mint
            &&& state.indexer_api_url@ == indexer_url@
            &&& state.node_registry_url@ == registry_url@
            &&& state.moderator_stake_minimum == mod_stake_min
            &&& state.fee_basis_points == fee_basis_points
            &&& !state.updates_disabled
            &&& state.wf()
        }),
{
    if indexer_url.len() > MAX_URL_LEN {
        return Err(ProtocolError::StringTooLong);
    }
    if registry_url.len() > MAX_URL_LEN {
        return Err(ProtocolError::StringTooLong);
    }
    if fee_basis_points > 10000 {
        return Err(ProtocolError::InvalidFeeConfig);
    }
    Ok(
        GlobalState {
            admin,
            treasury,
            indexer_api_url: indexer_url,
            node_registry_url: registry_url,
            moderator_stake_minimum: mod_stake_min,
            capgm_mint,
            fee_basis_points,
            updates_disabled: false,
        },
    )
}

/// The first reason an update is refused, or `None`: only the admin may
/// update, never after the lock, and every provided field must pass the
/// same validation as at initialization.
pub open spec fn update_error(
    state: GlobalState,
    caller: u64,
    indexer_url: Option<Seq<u8>>,
    registry_url: Option<Seq<u8>>,
    fee_basis_points: Option<u16>,
) -> Option<ProtocolError> {
    if caller != state.admin {
        Some(ProtocolError::Unauthorized)
    } else if state.updates_disabled {
        Some(ProtocolError::Unauthorized)
    } else if indexer_url is Some && indexer_url.unwrap().len() > MAX_URL_LEN {
        Some(ProtocolError::StringTooLong)
    } else if registry_url is Some && registry_url.unwrap().len() > MAX_URL_LEN {
        Some(ProtocolError::StringTooLong)
    } else if fee_basis_points is Some && fee_basis_points.unwrap() > 10000 {
        Some(ProtocolError::InvalidFeeConfig)
    } else {
        None
    }
}

/// The sequence view of an optional byte string.
pub open spec fn spec_opt_bytes(v: Option<Vec<u8>>) -> Option<Seq<u8>> {
    match v {
        Some(b) => Some(b@),
        None => None,
    }
}

/// Updates the global configuration: each `Some` field replaces its
/// counterpart, the treasury and ecosystem-mint identities are always
/// taken from the arguments (pass the current ones to keep them), and
/// nothing changes on failure.  Only the admin may call this, and only
/// while updates are enabled.
pub fn update_global_state(
    state: &mut GlobalState,
    caller: u64,
    indexer_url: Option<Vec<u8>>,
    registry_url: Option<Vec<u8>>,
    mod_stake_min: Option<u64>,
    fee_basis_points: Option<u16>,
    new_treasury: u64,
    new_capgm_mint: u64,
) -> (r: Result<(), ProtocolError>)
    requires
        old(state).wf(),
    ensures
        final(state).wf(),
        r is Err <==> update_error(
            *old(state),
            caller,
            spec_opt_bytes(indexer_url),
            spec_opt_bytes(registry_url),
            fee_basis_points,
        ) is Some,
        r is Err ==> *final(state) == *old(state) && r == Err::<(), ProtocolError>(
            update_error(
                *old(state),
                caller,
                spec_opt_bytes(indexer_url),
                spec_opt_bytes(registry_url),
                fee_basis_points,
            ).unwrap(),
        ),
        r is Ok ==> ({
            &&& final(state).admin == old(state).admin
            &&& final(state).treasury == new_treasury
            &&& final(state).capgm_mint == new_capgm_mint
            &&& final(state).indexer_api_url@ == match spec_opt_bytes(indexer_url) {
                Some(u) => u,
                None => old(state).indexer_api_url@,
            }
            &&& final(state).node_registry_url@ == match spec_opt_bytes(registry_url) {
                Some(u) => u,
                None => old(state).node_registry_url@,
            }
            &&& final(state).moderator_stake_minimum == match mod_stake_min {
                Some(m) => m,
                None => old(state).moderator_stake_minimum,
            }
            &&& final(state).fee_basis_points == match fee_basis_points {
                Some(f) => f,
                None => old(state).fee_basis_points,
            }
            &&& final(state).updates_disabled == old(state).updates_disabled
        }),
{
    if caller != state.admin {
        return Err(ProtocolError::Unauthorized);
    }
    if state.updates_disabled {
        return Err(ProtocolError::Unauthorized);
    }
    match &indexer_url {
        Some(u) => {
            if u.len() > MAX_URL_LEN {
                return Err(ProtocolError::StringTooLong);
            }
        },
        None => {},
    }
    match &registry_url {
        Some(u) => {
            if u.len() > MAX_URL_LEN {
                return Err(ProtocolError::StringTooLong);
            }
        },
        None => {},
    }
    match fee_basis_points {
        Some(f) => {
            if f > 10000 {
                return Err(ProtocolError::InvalidFeeConfig);
            }
        },
        None => {},
    }

    match indexer_url {
        Some(u) => {
            state.indexer_api_url = u;
        },
        None => {},
    }
    match registry_url {
        Some(u) => {
            state.node_registry_url = u;
        },
        None => {},
    }
    match mod_stake_min {
        Some(m) => {
            state.moderator_stake_minimum = m;
        },
        None => {},
    }
    match fee_basis_points {
        Some(f) => {
            state.fee_basis_points = f;
        },
        None => {},
    }
    state.treasury = new_treasury;
    state.capgm_mint = new_capgm_mint;
    Ok(())
}

/// Throws the one-way lock: after this, no update of the global
/// configuration will ever be accepted again.  Only the admin may do it,
/// and only once.
pub fn disable_global_state_updates(state: &mut GlobalState, caller: u64) -> (r: Result<
    (),
    ProtocolError,
>)
    ensures
        r is Err <==> caller != old(state).admin || old(state).updates_disabled,
        r is Err ==> *final(state) == *old(state) && r == Err::<(), ProtocolError>(
            ProtocolError::Unauthorized,
        ),
        r is Ok ==> *final(state) == (GlobalState { updates_disabled: true, ..*old(state) }),
{
    if caller != state.admin {
        return Err(ProtocolError::Unauthorized);
    }
    if state.updates_disabled {
        return Err(ProtocolError::Unauthorized);
    }
    state.updates_disabled = true;
    Ok(())
}

} // verus!
