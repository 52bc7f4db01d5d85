//! Turning an uploaded metainfo file into its canonical, private form.
use crate::error::TorrentError;
use crate::manifest::{
    build_manifest, counts_extensions, file_pairs, lemma_pairs_total, names_of, pairs_total,
    total_size, FileManifest, MAX_TOTAL_SIZE,
};
use crate::metainfo::{
    decoded_private_flag, info_decodes, info_hash_of, metainfo_parses, read_private_flag,
    read_upload_directory, read_upload_files, read_upload_piece_length, rebuild_upload_info,
    sha1_digest, upload_directory, upload_files, upload_parses, upload_piece_length,
    upload_rebuilt_info, MAX_PIECE_LENGTH,
};
use crate::private_entry::{ends_with_terminators, insert_private_entry, with_private_entry};
use vstd::prelude::*;

verus! {

/// The canonical form of an upload: the rebuilt info dictionary, its
/// identifier, the piece length it keeps, and the catalog summary.
pub struct CanonicalDescriptor {
    pub info_hash: Vec<u8>,
    pub info_bytes: Vec<u8>,
    pub piece_length: u64,
    pub manifest: FileManifest,
}

impl CanonicalDescriptor {
    /// The identifier is the digest of the canonical bytes, those bytes
    /// decode with the private flag set, and the summary is consistent.
    pub open spec fn wf(&self) -> bool {
        &&& self.info_hash@ == sha1_digest(self.info_bytes@)
        &&& self.info_hash@.len() == 20
        &&& info_decodes(self.info_bytes@)
        &&& decoded_private_flag(self.info_bytes@) == Some(true)
        &&& self.manifest.size == total_size(self.manifest.files@)
        &&& self.manifest.size <= MAX_TOTAL_SIZE
        &&& counts_extensions(self.manifest.extension_counts@, names_of(self.manifest.files@))
    }
}

/// The canonical info bytes of an upload: its rebuilt info dictionary with
/// the private entry added.
pub open spec fn canonical_info_of(upload: Seq<u8>) -> Seq<u8> {
    with_private_entry(upload_rebuilt_info(upload)->0, 1)
}

/// Whether an upload normalizes: it parses, its piece length and total size
/// are in range, its info dictionary rebuilds, and the rebuilt bytes with
/// the private entry decode as private.
pub open spec fn normalizes(upload: Seq<u8>) -> bool {
    &&& metainfo_parses(upload)
    &&& upload_piece_length(upload) <= MAX_PIECE_LENGTH
    &&& pairs_total(upload_files(upload)) <= MAX_TOTAL_SIZE
    &&& upload_rebuilt_info(upload) is Some
    &&& ends_with_terminators(upload_rebuilt_info(upload)->0, 1)
    &&& info_decodes(canonical_info_of(upload))
    &&& decoded_private_flag(canonical_info_of(upload)) == Some(true)
}

/// Normalizes an uploaded metainfo file: the info dictionary is rebuilt
/// with the declared piece length kept and the private flag forced on (the
/// flag is read back from the result), its identifier is the digest of the
/// rebuilt bytes, and the upload's folder and files are summarised for the
/// catalog. Every failure is `InvalidMetainfo`.
pub fn normalize_upload(upload: &[u8]) -> (r: Result<CanonicalDescriptor, TorrentError>)
    ensures
        r is Ok <==> normalizes(upload@),
        r matches Err(e) ==> e == TorrentError::InvalidMetainfo,
        r matches Ok(d) ==> {
            &&& d.wf()
            &&& d.info_bytes@ == canonical_info_of(upload@)
            &&& d.piece_length == upload_piece_length(upload@)
            &&& file_pairs(d.manifest.files@) == upload_files(upload@)
            &&& d.manifest.parent_folder@ == match upload_directory(upload@) {
                Some(p) => p,
                None => Seq::<char>::empty(),
            }
        },
{
    if !upload_parses(upload) {
        return Err(TorrentError::InvalidMetainfo);
    }
    let piece_length = read_upload_piece_length(upload);
    let parent_folder = read_upload_directory(upload);
    let files = read_upload_files(upload);
    proof {
        lemma_pairs_total(files@);
    }
    if piece_length > MAX_PIECE_LENGTH {
        return Err(TorrentError::InvalidMetainfo);
    }
    let manifest = match build_manifest(parent_folder, files) {
        Some(m) => m,
        None => {
            return Err(TorrentError::InvalidMetainfo);
        },
    };
    let rebuilt = match rebuild_upload_info(upload) {
        Some(bytes) => bytes,
        None => {
            return Err(TorrentError::InvalidMetainfo);
        },
    };
    let canonical = match insert_private_entry(&rebuilt, 1) {
        Some(bytes) => bytes,
        None => {
            return Err(TorrentError::InvalidMetainfo);
        },
    };
    match read_private_flag(canonical.as_slice()) {
        Some(Some(true)) => {},
        _ => {
            return Err(TorrentError::InvalidMetainfo);
        },
    }
    let info_hash = info_hash_of(canonical.as_slice());
    Ok(CanonicalDescriptor { info_hash, info_bytes: canonical, piece_length, manifest })
}

} // verus!
