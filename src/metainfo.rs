//! The metainfo format, read and written by `bip_metainfo`. Each reading of
//! an upload decodes the upload's bytes afresh, so every result is named as
//! a function of those bytes.
use crate::manifest::{pairs_total, FileEntry, MAX_TOTAL_SIZE};
use bip_metainfo::{Info, InfoBuilder, InfoHash, Metainfo, PieceLength};
use vstd::prelude::*;

verus! {

/// The largest piece length that an upload may declare: the rebuild
/// allocates two buffers of one piece each.
pub const MAX_PIECE_LENGTH: u64 = 0x400_0000;

/// Whether `Metainfo::from_bytes` accepts these bytes.
pub uninterp spec fn metainfo_parses(bytes: Seq<u8>) -> bool;

/// The piece length that `Info::piece_length` reports for a parsed upload.
pub uninterp spec fn upload_piece_length(bytes: Seq<u8>) -> u64;

/// The folder that `Info::directory` reports for a parsed upload.
pub uninterp spec fn upload_directory(bytes: Seq<u8>) -> Option<Seq<char>>;

/// The path and length of each file that `Info::files` reports for a parsed
/// upload, in file order.
pub uninterp spec fn upload_files(bytes: Seq<u8>) -> Seq<(Seq<char>, u64)>;

/// What `InfoBuilder::build` returns when it re-encodes the info dictionary
/// of a parsed upload with the private flag asked for and the declared piece
/// length kept; `None` when it fails.
pub uninterp spec fn upload_rebuilt_info(bytes: Seq<u8>) -> Option<Seq<u8>>;

/// Whether `Info::from_bytes` accepts these info-dictionary bytes.
pub uninterp spec fn info_decodes(bytes: Seq<u8>) -> bool;

/// The private flag that `Info::from_bytes` reads from these bytes.
pub uninterp spec fn decoded_private_flag(bytes: Seq<u8>) -> Option<bool>;

/// The SHA-1 digest that `InfoHash::from_bytes` computes over these bytes.
pub uninterp spec fn sha1_digest(bytes: Seq<u8>) -> Seq<u8>;

/// Relies on `Metainfo::from_bytes`: decoding depends on the bytes alone.
#[verifier::external_body]
pub(crate) fn upload_parses(bytes: &[u8]) -> (r: bool)
    ensures
        r == metainfo_parses(bytes@),
{
    Metainfo::from_bytes(bytes).is_ok()
}

/// Relies on `Metainfo::from_bytes` and `Info::piece_length`.
#[verifier::external_body]
pub(crate) fn read_upload_piece_length(bytes: &[u8]) -> (r: u64)
    requires
        metainfo_parses(bytes@),
    ensures
        r == upload_piece_length(bytes@),
{
    Metainfo::from_bytes(bytes).map(|m| m.info().piece_length()).unwrap_or(0)
}

/// Relies on `Metainfo::from_bytes` and `Info::directory`: the folder of a
/// multi-file upload. Its components were decoded as UTF-8 text.
#[verifier::external_body]
pub(crate) fn read_upload_directory(bytes: &[u8]) -> (r: Option<String>)
    requires
        metainfo_parses(bytes@),
    ensures
        match r {
            Some(d) => upload_directory(bytes@) == Some(d@),
            None => upload_directory(bytes@) is None,
        },
{
    Metainfo::from_bytes(bytes)
        .ok()
        .and_then(|m| m.info().directory().map(|d| d.to_string_lossy().into_owned()))
}

/// Relies on `Metainfo::from_bytes` and `Info::files`: each file's path and
/// length, in file order. The path components were decoded as UTF-8 text.
#[verifier::external_body]
pub(crate) fn read_upload_files(bytes: &[u8]) -> (r: Vec<FileEntry>)
    requires
        metainfo_parses(bytes@),
    ensures
        r@.map_values(|f: FileEntry| (f.name@, f.size)) == upload_files(bytes@),
{
    match Metainfo::from_bytes(bytes) {
        Ok(m) => m.info().files().map(|f| FileEntry { name: f.path().to_string_lossy().into_owned(), size: f.length() }).collect(),
        Err(_) => Vec::new(),
    }
}

/// Relies on `Metainfo::from_bytes` and `InfoBuilder`: re-encodes the
/// upload's info dictionary with the declared piece length kept as a custom
/// length. The builder allocates buffers of one piece and sums the file
/// lengths in a `u64`, hence the bounds. `set_private_flag` removes the key
/// right after inserting it when it was not there before, so the bytes come
/// back without a private entry; the caller adds it.
#[verifier::external_body]
pub(crate) fn rebuild_upload_info(bytes: &[u8]) -> (r: Option<Vec<u8>>)
    requires
        metainfo_parses(bytes@),
        upload_piece_length(bytes@) <= MAX_PIECE_LENGTH,
        pairs_total(upload_files(bytes@)) <= MAX_TOTAL_SIZE,
    ensures
        match r {
            Some(b) => upload_rebuilt_info(bytes@) == Some(b@),
            None => upload_rebuilt_info(bytes@) is None,
        },
{
    let m = Metainfo::from_bytes(bytes).ok()?;
    let info: &Info = m.info();
    InfoBuilder::new()
        .set_private_flag(Some(true))
        .set_piece_length(PieceLength::Custom(info.piece_length() as usize))
        .build(1, info, |_| {})
        .ok()
}

/// Relies on `Info::from_bytes` and `Info::is_private`: the private flag
/// stored in info-dictionary bytes, `None` when they do not decode.
#[verifier::external_body]
pub(crate) fn read_private_flag(bytes: &[u8]) -> (r: Option<Option<bool>>)
    ensures
        r is Some == info_decodes(bytes@),
        r matches Some(flag) ==> flag == decoded_private_flag(bytes@),
{
    Info::from_bytes(bytes).ok().map(|info| info.is_private())
}

/// Relies on `InfoHash::from_bytes`: the 20-byte SHA-1 digest of the bytes.
#[verifier::external_body]
pub(crate) fn info_hash_of(bytes: &[u8]) -> (r: Vec<u8>)
    ensures
        r@ == sha1_digest(bytes@),
        r@.len() == 20,
{
    InfoHash::from_bytes(bytes).as_ref().to_vec()
}

} // verus!
