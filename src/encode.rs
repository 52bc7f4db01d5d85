//! The encoded form of a personalized file: a dictionary whose entries are
//! the announce URL, the comment, the creator, the creation date and the
//! stored info dictionary, in sorted key order.
//!
//! The file is encoded here rather than with `bip_metainfo`'s
//! `MetainfoBuilder`: in the version used, each of that builder's setters
//! removes its key right after inserting it on a fresh builder, so the
//! announce URL, comment, creator, creation date and private flag would all
//! be lost, and the builder would re-encode the info dictionary instead of
//! wrapping the stored bytes unchanged.
use crate::passkey::token_value;
use vstd::prelude::*;

verus! {

/// The ASCII byte of the digit `d < 16` (lowercase for digits above 9).
pub open spec fn digit_byte(d: nat) -> u8 {
    if d < 10 {
        (48 + d) as u8
    } else {
        (87 + d) as u8
    }
}

/// `v` as exactly `width` lowercase hexadecimal ASCII digits.
pub open spec fn hex_bytes(v: nat, width: nat) -> Seq<u8>
    decreases width,
{
    if width == 0 {
        Seq::empty()
    } else {
        hex_bytes(v / 16, (width - 1) as nat).push(digit_byte(v % 16))
    }
}

/// `v` in decimal ASCII digits, without leading zeros.
pub open spec fn decimal_bytes(v: nat) -> Seq<u8>
    decreases v,
{
    if v < 10 {
        seq![digit_byte(v)]
    } else {
        decimal_bytes(v / 10).push(digit_byte(v % 10))
    }
}

/// A signed integer in decimal ASCII, with a leading `-` when negative.
pub open spec fn signed_decimal_bytes(v: int) -> Seq<u8> {
    if v < 0 {
        seq![45u8] + decimal_bytes((-v) as nat)
    } else {
        decimal_bytes(v as nat)
    }
}

/// A byte string: its length in decimal, `:`, then the bytes.
pub open spec fn byte_string(b: Seq<u8>) -> Seq<u8> {
    decimal_bytes(b.len()) + seq![58u8] + b
}

/// The announce URL of a user: the tracker URL, `announce/`, and the
/// 32-digit hexadecimal token.
pub open spec fn announce_bytes(tracker_url: Seq<u8>, upper: i64, lower: i64) -> Seq<u8> {
    tracker_url + seq![97u8, 110u8, 110u8, 111u8, 117u8, 110u8, 99u8, 101u8, 47u8] + hex_bytes(
        token_value(upper, lower),
        32,
    )
}

/// The comment URL of a record: the frontend URL, `torrent/`, and the id.
pub open spec fn comment_bytes(frontend_url: Seq<u8>, record_id: i64) -> Seq<u8> {
    frontend_url + seq![116u8, 111u8, 114u8, 114u8, 101u8, 110u8, 116u8, 47u8]
        + signed_decimal_bytes(record_id as int)
}

/// The entries of a personalized file after the announce URL, and the end
/// of the file.
pub open spec fn file_tail(
    comment: Seq<u8>,
    created_by: Seq<u8>,
    creation_date: int,
    info: Seq<u8>,
) -> Seq<u8> {
    seq![55u8, 58u8, 99u8, 111u8, 109u8, 109u8, 101u8, 110u8, 116u8] + byte_string(comment) + seq![
        49u8,
        48u8,
        58u8,
        99u8,
        114u8,
        101u8,
        97u8,
        116u8,
        101u8,
        100u8,
        32u8,
        98u8,
        121u8,
    ] + byte_string(created_by) + seq![
        49u8,
        51u8,
        58u8,
        99u8,
        114u8,
        101u8,
        97u8,
        116u8,
        105u8,
        111u8,
        110u8,
        32u8,
        100u8,
        97u8,
        116u8,
        101u8,
    ] + seq![105u8] + signed_decimal_bytes(creation_date) + seq![101u8] + seq![
        52u8,
        58u8,
        105u8,
        110u8,
        102u8,
        111u8,
    ] + info + seq![101u8]
}

/// The encoded personalized file around the info dictionary `info`.
pub open spec fn personalized_file(
    announce: Seq<u8>,
    comment: Seq<u8>,
    created_by: Seq<u8>,
    creation_date: int,
    info: Seq<u8>,
) -> Seq<u8> {
    seq![100u8, 56u8, 58u8, 97u8, 110u8, 110u8, 111u8, 117u8, 110u8, 99u8, 101u8] + byte_string(
        announce,
    ) + file_tail(comment, created_by, creation_date, info)
}

/// Appends `src` to `out`.
pub fn append_bytes(out: &mut Vec<u8>, src: &[u8])
    ensures
        final(out)@ == old(out)@ + src@,
{
    let ghost start = out@;
    let mut i: usize = 0;
    while i < src.len()
        invariant
            i <= src@.len(),
            out@ == start + src@.subrange(0, i as int),
        decreases src@.len() - i,
    {
        out.push(src[i]);
        i = i + 1;
        assert(out@ =~= start + src@.subrange(0, i as int));
    }
    assert(src@.subrange(0, src@.len() as int) =~= src@);
}

fn digit(d: u128) -> (r: u8)
    requires
        d < 16,
    ensures
        r == digit_byte(d as nat),
{
    if d < 10 {
        (48 + d) as u8
    } else {
        (87 + d) as u8
    }
}

/// Appends `v` as exactly `width` lowercase hexadecimal digits.
pub fn append_hex(out: &mut Vec<u8>, v: u128, width: usize)
    ensures
        final(out)@ == old(out)@ + hex_bytes(v as nat, width as nat),
    decreases width,
{
    if width > 0 {
        append_hex(out, v / 16, width - 1);
        out.push(digit(v % 16));
        assert(final(out)@ =~= old(out)@ + hex_bytes(v as nat, width as nat));
    } else {
        assert(out@ =~= old(out)@ + hex_bytes(v as nat, width as nat));
    }
}

/// Appends `v` in decimal.
pub fn append_decimal(out: &mut Vec<u8>, v: u128)
    ensures
        final(out)@ == old(out)@ + decimal_bytes(v as nat),
    decreases v,
{
    if v < 10 {
        out.push(digit(v));
        assert(final(out)@ =~= old(out)@ + decimal_bytes(v as nat));
    } else {
        append_decimal(out, v / 10);
        out.push(digit(v % 10));
        assert(final(out)@ =~= old(out)@ + decimal_bytes(v as nat));
    }
}

/// Appends a signed integer in decimal.
pub fn append_signed(out: &mut Vec<u8>, v: i64)
    ensures
        final(out)@ == old(out)@ + signed_decimal_bytes(v as int),
{
    if v < 0 {
        out.push(45u8);
        let magnitude: i128 = -(v as i128);
        append_decimal(out, magnitude as u128);
        assert(final(out)@ =~= old(out)@ + signed_decimal_bytes(v as int));
    } else {
        append_decimal(out, v as u128);
    }
}

/// Appends a byte string: its length, `:`, and the bytes.
pub fn append_byte_string(out: &mut Vec<u8>, b: &[u8])
    ensures
        final(out)@ == old(out)@ + byte_string(b@),
{
    append_decimal(out, b.len() as u128);
    out.push(58u8);
    append_bytes(out, b);
    assert(final(out)@ =~= old(out)@ + byte_string(b@));
}

/// The announce URL of a user, as bytes.
pub fn announce_url_bytes(tracker_url: &[u8], upper: i64, lower: i64) -> (r: Vec<u8>)
    ensures
        r@ == announce_bytes(tracker_url@, upper, lower),
{
    let mut out: Vec<u8> = Vec::new();
    append_bytes(&mut out, tracker_url);
    let tag: [u8; 9] = [97u8, 110u8, 110u8, 111u8, 117u8, 110u8, 99u8, 101u8, 47u8];
    append_bytes(&mut out, &tag);
    append_hex(&mut out, crate::passkey::combine_passkey(upper, lower), 32);
    assert(out@ =~= announce_bytes(tracker_url@, upper, lower));
    out
}

/// The comment URL of a record, as bytes.
pub fn comment_url_bytes(frontend_url: &[u8], record_id: i64) -> (r: Vec<u8>)
    ensures
        r@ == comment_bytes(frontend_url@, record_id),
{
    let mut out: Vec<u8> = Vec::new();
    append_bytes(&mut out, frontend_url);
    let tag: [u8; 8] = [116u8, 111u8, 114u8, 114u8, 101u8, 110u8, 116u8, 47u8];
    append_bytes(&mut out, &tag);
    append_signed(&mut out, record_id);
    assert(out@ =~= comment_bytes(frontend_url@, record_id));
    out
}

/// Encodes the personalized file around the info dictionary `info`.
pub fn encode_personalized(
    announce: &[u8],
    comment: &[u8],
    created_by: &[u8],
    creation_date: i64,
    info: &[u8],
) -> (r: Vec<u8>)
    ensures
        r@ == personalized_file(announce@, comment@, created_by@, creation_date as int, info@),
{
    let mut out: Vec<u8> = Vec::new();
    out.push(100u8);
    let k_announce: [u8; 10] = [56u8, 58u8, 97u8, 110u8, 110u8, 111u8, 117u8, 110u8, 99u8, 101u8];
    append_bytes(&mut out, &k_announce);
    append_byte_string(&mut out, announce);
    let k_comment: [u8; 9] = [55u8, 58u8, 99u8, 111u8, 109u8, 109u8, 101u8, 110u8, 116u8];
    append_bytes(&mut out, &k_comment);
    append_byte_string(&mut out, comment);
    let k_created_by: [u8; 13] = [
        49u8,
        48u8,
        58u8,
        99u8,
        114u8,
        101u8,
        97u8,
        116u8,
        101u8,
        100u8,
        32u8,
        98u8,
        121u8,
    ];
    append_bytes(&mut out, &k_created_by);
    append_byte_string(&mut out, created_by);
    let k_creation_date: [u8; 16] = [
        49u8,
        51u8,
        58u8,
        99u8,
        114u8,
        101u8,
        97u8,
        116u8,
        105u8,
        111u8,
        110u8,
        32u8,
        100u8,
        97u8,
        116u8,
        101u8,
    ];
    append_bytes(&mut out, &k_creation_date);
    out.push(105u8);
    append_signed(&mut out, creation_date);
    out.push(101u8);
    let k_info: [u8; 6] = [52u8, 58u8, 105u8, 110u8, 102u8, 111u8];
    append_bytes(&mut out, &k_info);
    append_bytes(&mut out, info);
    out.push(101u8);
    assert(out@ =~= personalized_file(
        announce@,
        comment@,
        created_by@,
        creation_date as int,
        info@,
    ));
    out
}

proof fn lemma_hex_bytes_len(v: nat, width: nat)
    ensures
        hex_bytes(v, width).len() == width,
    decreases width,
{
    if width > 0 {
        lemma_hex_bytes_len(v / 16, (width - 1) as nat);
    }
}

/// For a fixed record, files made for two users have the same length and
/// the same bytes everywhere but at the 32 token digits of the announce URL,
/// which start at the same offset in both.
pub proof fn lemma_personalization_isolation(
    tracker_url: Seq<u8>,
    comment: Seq<u8>,
    created_by: Seq<u8>,
    creation_date: int,
    info: Seq<u8>,
    a_upper: i64,
    a_lower: i64,
    b_upper: i64,
    b_lower: i64,
)
    ensures
        ({
            let fa = personalized_file(
                announce_bytes(tracker_url, a_upper, a_lower),
                comment,
                created_by,
                creation_date,
                info,
            );
            let fb = personalized_file(
                announce_bytes(tracker_url, b_upper, b_lower),
                comment,
                created_by,
                creation_date,
                info,
            );
            let start: int = 11int + decimal_bytes(tracker_url.len() + 41).len() as int + 1 + tracker_url.len() as int
                + 9;
            &&& fa.len() == fb.len()
            &&& fa.subrange(0, start) == fb.subrange(0, start)
            &&& fa.subrange(start, start + 32) == hex_bytes(token_value(a_upper, a_lower), 32)
            &&& fb.subrange(start, start + 32) == hex_bytes(token_value(b_upper, b_lower), 32)
            &&& fa.subrange(start + 32, fa.len() as int) == fb.subrange(
                start + 32,
                fb.len() as int,
            )
        }),
{
    lemma_hex_bytes_len(token_value(a_upper, a_lower), 32);
    lemma_hex_bytes_len(token_value(b_upper, b_lower), 32);
    let ha = hex_bytes(token_value(a_upper, a_lower), 32);
    let hb = hex_bytes(token_value(b_upper, b_lower), 32);
    let tail = file_tail(comment, created_by, creation_date, info);
    let head = seq![100u8, 56u8, 58u8, 97u8, 110u8, 110u8, 111u8, 117u8, 110u8, 99u8, 101u8]
        + decimal_bytes(tracker_url.len() + 41) + seq![58u8] + tracker_url + seq![
        97u8,
        110u8,
        110u8,
        111u8,
        117u8,
        110u8,
        99u8,
        101u8,
        47u8,
    ];
    let fa = personalized_file(
        announce_bytes(tracker_url, a_upper, a_lower),
        comment,
        created_by,
        creation_date,
        info,
    );
    let fb = personalized_file(
        announce_bytes(tracker_url, b_upper, b_lower),
        comment,
        created_by,
        creation_date,
        info,
    );
    let start: int = 11int + decimal_bytes(tracker_url.len() + 41).len() as int + 1
        + tracker_url.len() as int + 9;
    assert(fa =~= head + ha + tail);
    assert(fb =~= head + hb + tail);
    assert(fa.subrange(0, start) =~= head);
    assert(fb.subrange(0, start) =~= head);
    assert(fa.subrange(start, start + 32) =~= ha);
    assert(fb.subrange(start, start + 32) =~= hb);
    assert(fa.subrange(start + 32, fa.len() as int) =~= tail);
    assert(fb.subrange(start + 32, fb.len() as int) =~= tail);
}

} // verus!
