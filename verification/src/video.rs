//! Video uploads: one record per content unit, counted against the
//! collection's upload limit.

use vstd::prelude::*;
use crate::constants::{MAX_ID_LEN, MAX_URL_LEN};
use crate::errors::ProtocolError;
use crate::state::{CollectionState, VideoState};

verus! {

/// The first reason an upload is refused, or `None`: only the collection
/// owner may upload, the text fields are bounded, and the collection must
/// still be under its video limit.
pub open spec fn upload_error(
    collection: CollectionState,
    caller: u64,
    video_id: Seq<u8>,
    root_cid: Seq<u8>,
) -> Option<ProtocolError> {
    if caller != collection.owner {
        Some(ProtocolError::Unauthorized)
    } else if video_id.len() > MAX_ID_LEN {
        Some(ProtocolError::StringTooLong)
    } else if root_cid.len() > MAX_URL_LEN {
        Some(ProtocolError::StringTooLong)
    } else if collection.video_count >= collection.max_video_limit {
        Some(ProtocolError::VideoLimitExceeded)
    } else {
        None
    }
}

/// Records one uploaded video and steps the collection's video counter.
pub fn upload_video(
    collection: &mut CollectionState,
    collection_key: u64,
    caller: u64,
    video_id: Vec<u8>,
    root_cid: Vec<u8>,
    performer_wallet: Option<u64>,
    now: i64,
) -> (r: Result<VideoState, ProtocolError>)
    ensures
        r is Err <==> upload_error(*old(collection), caller, video_id@, root_cid@) is Some,
        r is Err ==> *final(collection) == *old(collection) && r == Err::<
            VideoState,
            ProtocolError,
        >(upload_error(*old(collection), caller, video_id@, root_cid@).unwrap()),
        r matches Ok(video) ==> ({
            &&& video.collection == collection_key
            &&& video.video_id@ == video_id@
            &&& video.root_cid@ == root_cid@
            &&& video.performer_wallet == performer_wallet
            &&& video.uploaded_at == now
            &&& video.wf()
            &&& *final(collection) == (CollectionState {
                video_count: (old(collection).video_count + 1) as u32,
                ..*old(collection)
            })
        }),
{
    if caller != collection.owner {
        return Err(ProtocolError::Unauthorized);
    }
    if video_id.len() > MAX_ID_LEN {
        return Err(ProtocolError::StringTooLong);
    }
    if root_cid.len() > MAX_URL_LEN {
        return Err(ProtocolError::StringTooLong);
    }
    if collection.video_count >= collection.max_video_limit {
        return Err(ProtocolError::VideoLimitExceeded);
    }
    collection.video_count = collection.video_count + 1;
    Ok(VideoState { collection: collection_key, video_id, root_cid, performer_wallet, uploaded_at: now })
}

} // verus!
