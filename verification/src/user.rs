//! Users and collections: profile records, collection creation, the
//! one-time token mint with its three-way distribution, and the burn of
//! unclaimed claim-vault tokens after the vesting window.

use vstd::prelude::*;
use crate::constants::{CLAIM_VAULT_VESTING_SECONDS, MAX_ID_LEN, MAX_IPNS_KEY_LEN, MAX_NAME_LEN};
use crate::errors::ProtocolError;
use crate::math::lemma_div_mul_le;
use crate::state::{CollectionState, GlobalState, UserAccount};

verus! {

/// Creates a user profile record.
pub fn initialize_user_account(authority: u64, ipns_key: Vec<u8>) -> (r: Result<
    UserAccount,
    ProtocolError,
>)
    ensures
        r is Err <==> ipns_key@.len() > MAX_IPNS_KEY_LEN,
        r is Err ==> r == Err::<UserAccount, ProtocolError>(ProtocolError::StringTooLong),
        r matches Ok(account) ==> ({
            &&& account.authority == authority
            &&& account.ipns_key@ == ipns_key@
            &&& !account.is_online
            &&& account.wf()
        }),
{
    if ipns_key.len() > MAX_IPNS_KEY_LEN {
        return Err(ProtocolError::StringTooLong);
    }
    Ok(UserAccount { authority, ipns_key, is_online: false })
}

/// The first reason a collection cannot be created, or `None`.
pub open spec fn create_collection_error(
    global: GlobalState,
    collection_id: Seq<u8>,
    name: Seq<u8>,
    total_videos: u16,
    treasury: u64,
    now: i64,
) -> Option<ProtocolError> {
    if collection_id.len() > MAX_ID_LEN {
        Some(ProtocolError::StringTooLong)
    } else if name.len() > MAX_NAME_LEN {
        Some(ProtocolError::StringTooLong)
    } else if total_videos == 0 {
        Some(ProtocolError::InvalidFeeConfig)
    } else if treasury != global.treasury {
        Some(ProtocolError::Unauthorized)
    } else if now + CLAIM_VAULT_VESTING_SECONDS > i64::MAX {
        Some(ProtocolError::MathOverflow)
    } else {
        None
    }
}

/// Creates a collection record: text fields validated, the claim window
/// set to the vesting period from now, empty claim and censor bitmaps
/// sized to the unit count, and every balance and accumulator zeroed.
/// Tokens are not yet minted; the host creates the collection's mint
/// beside the record.
pub fn create_collection(
    global: &GlobalState,
    owner: u64,
    collection_id: Vec<u8>,
    name: Vec<u8>,
    cid_hash: u64,
    access_threshold_usd: u64,
    total_videos: u16,
    max_video_limit: u32,
    oracle_feed: u64,
    pool_address: u64,
    claim_vault: u64,
    mint: u64,
    treasury: u64,
    now: i64,
) -> (r: Result<CollectionState, ProtocolError>)
    ensures
        r is Err <==> create_collection_error(
            *global,
            collection_id@,
            name@,
            total_videos,
            treasury,
            now,
        ) is Some,
        r is Err ==> r == Err::<CollectionState, ProtocolError>(
            create_collection_error(
                *global,
                collection_id@,
                name@,
                total_videos,
                treasury,
                now,
            ).unwrap(),
        ),
        r matches Ok(collection) ==> ({
            &&& collection.owner == owner
            &&& collection.collection_id@ == collection_id@
            &&& collection.cid_hash == cid_hash
            &&& collection.mint == mint
            &&& collection.pool_address == pool_address
            &&& collection.claim_vault == claim_vault
            &&& collection.claim_deadline == now + CLAIM_VAULT_VESTING_SECONDS
            &&& collection.total_trust_score == 0
            &&& !collection.is_blacklisted
            &&& collection.name@ == name@
            &&& collection.access_threshold_usd == access_threshold_usd
            &&& collection.oracle_feed == oracle_feed
            &&& collection.owner_reward_balance == 0
            &&& collection.staker_reward_balance == 0
            &&& !collection.tokens_minted
            &&& collection.total_videos == total_videos
            &&& collection.claim_vault_initial_amount == 0
            &&& collection.claimed_bitmap@ == Seq::<u8>::new(
                CollectionState::bitmap_len(total_videos) as nat,
                |k: int| 0u8,
            )
            &&& collection.censored_bitmap@ == Seq::<u8>::new(
                CollectionState::bitmap_len(total_videos) as nat,
                |k: int| 0u8,
            )
            &&& collection.total_shares == 0
            &&& collection.acc_reward_per_share == 0
            &&& collection.reward_pool_balance == 0
            &&& collection.video_count == 0
            &&& collection.max_video_limit == max_video_limit
            &&& collection.wf()
        }),
{
    if collection_id.len() > MAX_ID_LEN {
        return Err(ProtocolError::StringTooLong);
    }
    if name.len() > MAX_NAME_LEN {
        return Err(ProtocolError::StringTooLong);
    }
    if total_videos == 0 {
        return Err(ProtocolError::InvalidFeeConfig);
    }
    if treasury != global.treasury {
        return Err(ProtocolError::Unauthorized);
    }
    let claim_deadline = match now.checked_add(CLAIM_VAULT_VESTING_SECONDS) {
        Some(v) => v,
        None => {
            return Err(ProtocolError::MathOverflow);
        },
    };

    let bitmap_size = ((total_videos as usize) + 7) / 8;
    let mut claimed_bitmap: Vec<u8> = Vec::new();
    let mut censored_bitmap: Vec<u8> = Vec::new();
    let mut k: usize = 0;
    while k < bitmap_size
        invariant
            k <= bitmap_size,
            claimed_bitmap@.len() == k,
            censored_bitmap@.len() == k,
            forall|t: int| 0 <= t < k ==> claimed_bitmap@[t] == 0u8 && censored_bitmap@[t] == 0u8,
        decreases bitmap_size - k,
    {
        claimed_bitmap.push(0);
        censored_bitmap.push(0);
        k += 1;
    }
    proof {
        assert(claimed_bitmap@ =~= Seq::<u8>::new(
            CollectionState::bitmap_len(total_videos) as nat,
            |t: int| 0u8,
        ));
        assert(censored_bitmap@ =~= Seq::<u8>::new(
            CollectionState::bitmap_len(total_videos) as nat,
            |t: int| 0u8,
        ));
    }

    Ok(
        CollectionState {
            owner,
            collection_id,
            cid_hash,
            mint,
            pool_address,
            claim_vault,
            claim_deadline,
            total_trust_score: 0,
            is_blacklisted: false,
            name,
            access_threshold_usd,
            oracle_feed,
            owner_reward_balance: 0,
            staker_reward_balance: 0,
            tokens_minted: false,
            total_videos,
            claim_vault_initial_amount: 0,
            claimed_bitmap,
            censored_bitmap,
            total_shares: 0,
            acc_reward_per_share: 0,
            reward_pool_balance: 0,
            video_count: 0,
            max_video_limit,
        },
    )
}

/// The three mint destinations of the one-time collection-token mint.
#[derive(Clone, Copy, Debug, PartialEq, Eq, Structural)]
pub struct MintDistribution {
    /// Creator's 10% floor share.
    pub to_creator: u64,
    /// Claim vault's 10% floor share — the snapshot that fixes all later
    /// copyright-claim payouts.
    pub to_claim_vault: u64,
    /// Liquidity reserve's 80% floor share plus all rounding dust.
    pub to_reserve: u64,
}

/// The first reason the one-time mint is refused, or `None`.
pub open spec fn mint_error(
    collection: CollectionState,
    caller: u64,
    mint_key: u64,
    amount: u64,
) -> Option<ProtocolError> {
    if caller != collection.owner {
        Some(ProtocolError::Unauthorized)
    } else if amount == 0 {
        Some(ProtocolError::InvalidFeeConfig)
    } else if collection.tokens_minted {
        Some(ProtocolError::Unauthorized)
    } else if mint_key != collection.mint {
        Some(ProtocolError::Unauthorized)
    } else if (amount as int) * 80 > u64::MAX {
        Some(ProtocolError::MathOverflow)
    } else {
        None
    }
}

/// Mints the collection's tokens, once and only once: 10% to the creator,
/// 10% into the claim vault — snapshotted as the base of every future
/// copyright-claim payout — and 80% plus all rounding dust into the
/// liquidity reserve.  The three parts conserve the minted amount
/// exactly, and the one-time flag makes a second mint impossible.
pub fn mint_collection_tokens(
    collection: &mut CollectionState,
    caller: u64,
    mint_key: u64,
    amount: u64,
) -> (r: Result<MintDistribution, ProtocolError>)
    ensures
        r is Err <==> mint_error(*old(collection), caller, mint_key, amount) is Some,
        r is Err ==> *final(collection) == *old(collection) && r == Err::<
            MintDistribution,
            ProtocolError,
        >(mint_error(*old(collection), caller, mint_key, amount).unwrap()),
        r matches Ok(dist) ==> ({
            let a = amount as int;
            &&& dist.to_creator == (a * 10) / 100
            &&& dist.to_claim_vault == (a * 10) / 100
            &&& dist.to_reserve == a - ((a * 10) / 100) * 2
            &&& dist.to_creator + dist.to_claim_vault + dist.to_reserve == amount
            &&& *final(collection) == (CollectionState {
                claim_vault_initial_amount: dist.to_claim_vault,
                tokens_minted: true,
                ..*old(collection)
            })
        }),
{
    if caller != collection.owner {
        return Err(ProtocolError::Unauthorized);
    }
    if amount == 0 {
        return Err(ProtocolError::InvalidFeeConfig);
    }
    if collection.tokens_minted {
        return Err(ProtocolError::Unauthorized);
    }
    if mint_key != collection.mint {
        return Err(ProtocolError::Unauthorized);
    }

    let reserve_base = match amount.checked_mul(80) {
        Some(v) => v,
        None => {
            return Err(ProtocolError::MathOverflow);
        },
    } / 100;
    proof {
        let a = amount as int;
        lemma_div_mul_le(a * 80, 100);
        lemma_div_mul_le(a * 10, 100);
        assert(a * 10 <= a * 80 && a * 10 >= 0) by (nonlinear_arith)
            requires
                a >= 0,
        ;
    }
    let creator_amount = (amount * 10) / 100;
    let claim_vault_amount = (amount * 10) / 100;
    let total_distributed = reserve_base + creator_amount + claim_vault_amount;
    let remainder = amount - total_distributed;
    let final_reserve_amount = reserve_base + remainder;

    collection.claim_vault_initial_amount = claim_vault_amount;
    collection.tokens_minted = true;
    Ok(
        MintDistribution {
            to_creator: creator_amount,
            to_claim_vault: claim_vault_amount,
            to_reserve: final_reserve_amount,
        },
    )
}

/// Decides the permissionless burn of unclaimed claim-vault tokens after
/// the vesting deadline: the whole remaining vault balance is returned
/// for the host to burn.  Succeeds exactly when the deadline has been
/// reached and the vault still has value.
pub fn burn_unclaimed_tokens(collection: &CollectionState, claim_vault_balance: u64, now: i64) -> (r:
    Result<u64, ProtocolError>)
    ensures
        r == if now < collection.claim_deadline {
            Err::<u64, ProtocolError>(ProtocolError::Unauthorized)
        } else if claim_vault_balance == 0 {
            Err::<u64, ProtocolError>(ProtocolError::InsufficientFunds)
        } else {
            Ok::<u64, ProtocolError>(claim_vault_balance)
        },
{
    if now < collection.claim_deadline {
        return Err(ProtocolError::Unauthorized);
    }
    if claim_vault_balance == 0 {
        return Err(ProtocolError::InsufficientFunds);
    }
    Ok(claim_vault_balance)
}

} // verus!
