//! Re-deriving a personalized distributable file from a stored descriptor.
use crate::encode::{
    announce_bytes, announce_url_bytes, comment_bytes, comment_url_bytes, encode_personalized,
    personalized_file,
};
use crate::error::TorrentError;
use crate::metainfo::{decoded_private_flag, info_decodes, read_private_flag};
use crate::private_entry::{
    ends_with_public_entry, ends_with_terminators, insert_private_entry, made_private,
    mark_private, with_private_entry,
};
use vstd::prelude::*;
use vstd::string::{StrSliceExecFns, StringSliceAdditionalSpecFns};

verus! {

/// A requesting user: their id and the two halves of their secret.
pub struct Identity {
    pub id: i64,
    pub passkey_upper: i64,
    pub passkey_lower: i64,
}

/// What a fetch reads back from a record: the canonical info bytes, the
/// creation time in seconds since the epoch, and the display title.
pub struct StoredTorrent {
    pub info_dict: Vec<u8>,
    pub created_at_secs: i64,
    pub release_name: String,
}

/// A personalized file and the title to offer it under.
pub struct GetTorrentResult {
    pub title: String,
    pub file_contents: Vec<u8>,
}

/// The info dictionary to wrap: the stored one when it is marked private;
/// with the private entry added when it has no flag; with its closing
/// `private: 0` entry set to 1 when it is marked public (checked to decode
/// as private afterwards).
pub open spec fn private_info(stored: Seq<u8>) -> Option<Seq<u8>> {
    if !info_decodes(stored) {
        None
    } else if decoded_private_flag(stored) == Some(true) {
        Some(stored)
    } else if decoded_private_flag(stored) is None && ends_with_terminators(stored, 1) {
        Some(with_private_entry(stored, 1))
    } else if decoded_private_flag(stored) == Some(false) && ends_with_public_entry(stored)
        && info_decodes(made_private(stored)) && decoded_private_flag(made_private(stored))
        == Some(true) {
        Some(made_private(stored))
    } else {
        None
    }
}

/// Builds the personalized file for `user` from a stored record: the stored
/// info dictionary, marked private, wrapped unchanged with the user's
/// announce URL, the record's creation time, the record's page as comment
/// and the tracker's name as creator. A stored descriptor that does not
/// decode, or whose flag cannot be set where `private_info` says, gives
/// `InvalidMetainfo`.
pub fn personalize(
    stored: StoredTorrent,
    record_id: i64,
    user: &Identity,
    tracker_name: &str,
    frontend_url: &str,
    tracker_url: &str,
) -> (r: Result<GetTorrentResult, TorrentError>)
    ensures
        r is Ok <==> private_info(stored.info_dict@) is Some,
        r matches Err(e) ==> e == TorrentError::InvalidMetainfo,
        r matches Ok(g) ==> {
            &&& g.title@ == stored.release_name@
            &&& g.file_contents@ == personalized_file(
                announce_bytes(tracker_url.spec_bytes(), user.passkey_upper, user.passkey_lower),
                comment_bytes(frontend_url.spec_bytes(), record_id),
                tracker_name.spec_bytes(),
                stored.created_at_secs as int,
                private_info(stored.info_dict@)->0,
            )
        },
{
    let info = match read_private_flag(stored.info_dict.as_slice()) {
        Some(Some(true)) => stored.info_dict,
        Some(None) => match insert_private_entry(&stored.info_dict, 1) {
            Some(bytes) => bytes,
            None => {
                return Err(TorrentError::InvalidMetainfo);
            },
        },
        Some(Some(false)) => {
            let flipped = match mark_private(stored.info_dict) {
                Some(bytes) => bytes,
                None => {
                    return Err(TorrentError::InvalidMetainfo);
                },
            };
            match read_private_flag(flipped.as_slice()) {
                Some(Some(true)) => flipped,
                _ => {
                    return Err(TorrentError::InvalidMetainfo);
                },
            }
        },
        _ => {
            return Err(TorrentError::InvalidMetainfo);
        },
    };
    let announce = announce_url_bytes(
        tracker_url.as_bytes_vec().as_slice(),
        user.passkey_upper,
        user.passkey_lower,
    );
    let comment = comment_url_bytes(frontend_url.as_bytes_vec().as_slice(), record_id);
    let created_by = tracker_name.as_bytes_vec();
    let file_contents = encode_personalized(
        announce.as_slice(),
        comment.as_slice(),
        created_by.as_slice(),
        stored.created_at_secs,
        info.as_slice(),
    );
    Ok(GetTorrentResult { title: stored.release_name, file_contents })
}

} // verus!
