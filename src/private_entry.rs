//! Adding the `private` entry to an encoded info dictionary.
//!
//! Dictionary keys are encoded in sorted order, and `private` sorts after
//! every key of an info dictionary the builder writes (`files`, `length`,
//! `name`, `piece length`, `pieces`), so the entry belongs right before the
//! dictionary's closing `e`. When the info dictionary is the last value of
//! an enclosing dictionary, that is before the last `depth` bytes.
use vstd::prelude::*;

verus! {

/// The encoded entry `private: 1`, that is `7:privatei1e`.
pub open spec fn private_entry() -> Seq<u8> {
    seq![55u8, 58u8, 112u8, 114u8, 105u8, 118u8, 97u8, 116u8, 101u8, 105u8, 49u8, 101u8]
}

/// `bytes` with the private entry put before its last `depth` bytes.
pub open spec fn with_private_entry(bytes: Seq<u8>, depth: nat) -> Seq<u8> {
    bytes.subrange(0, bytes.len() - depth) + private_entry() + bytes.subrange(
        bytes.len() - depth,
        bytes.len() as int,
    )
}

/// Whether `bytes` ends with `depth` dictionary terminators (`e`).
pub open spec fn ends_with_terminators(bytes: Seq<u8>, depth: nat) -> bool {
    &&& depth <= bytes.len()
    &&& forall|i: int| bytes.len() - depth <= i < bytes.len() ==> bytes[i] == 101u8
}

/// Puts the private entry before the last `depth` bytes, which must all be
/// dictionary terminators; `None` when they are not.
pub fn insert_private_entry(bytes: &Vec<u8>, depth: usize) -> (r: Option<Vec<u8>>)
    ensures
        r is Some <==> ends_with_terminators(bytes@, depth as nat),
        r matches Some(out) ==> out@ == with_private_entry(bytes@, depth as nat),
{
    let len = bytes.len();
    if depth > len {
        return None;
    }
    let cut = len - depth;
    let mut k: usize = cut;
    while k < len
        invariant
            cut <= k <= len == bytes@.len(),
            cut == len - depth,
            forall|i: int| cut <= i < k ==> bytes@[i] == 101u8,
        decreases len - k,
    {
        if bytes[k] != 101u8 {
            return None;
        }
        k = k + 1;
    }
    let mut out: Vec<u8> = Vec::new();
    let mut i: usize = 0;
    while i < cut
        invariant
            i <= cut <= len == bytes@.len(),
            out@ == bytes@.subrange(0, i as int),
        decreases cut - i,
    {
        out.push(bytes[i]);
        i = i + 1;
        assert(out@ =~= bytes@.subrange(0, i as int));
    }
    let entry: Vec<u8> = vec![55u8, 58u8, 112u8, 114u8, 105u8, 118u8, 97u8, 116u8, 101u8, 105u8, 49u8, 101u8];
    let mut j: usize = 0;
    while j < entry.len()
        invariant
            i == cut <= len == bytes@.len(),
            entry@ == private_entry(),
            j <= entry@.len(),
            out@ == bytes@.subrange(0, cut as int) + entry@.subrange(0, j as int),
        decreases entry@.len() - j,
    {
        out.push(entry[j]);
        j = j + 1;
        assert(out@ =~= bytes@.subrange(0, cut as int) + entry@.subrange(0, j as int));
    }
    assert(entry@.subrange(0, entry@.len() as int) =~= entry@);
    while i < len
        invariant
            cut <= i <= len == bytes@.len(),
            out@ == bytes@.subrange(0, cut as int) + private_entry() + bytes@.subrange(
                cut as int,
                i as int,
            ),
        decreases len - i,
    {
        out.push(bytes[i]);
        i = i + 1;
        assert(out@ =~= bytes@.subrange(0, cut as int) + private_entry() + bytes@.subrange(
            cut as int,
            i as int,
        ));
    }
    Some(out)
}

/// The encoded entry `private: 0`, that is `7:privatei0e`.
pub open spec fn public_entry() -> Seq<u8> {
    seq![55u8, 58u8, 112u8, 114u8, 105u8, 118u8, 97u8, 116u8, 101u8, 105u8, 48u8, 101u8]
}

/// Whether `bytes` ends with the entry `private: 0` and one terminator.
pub open spec fn ends_with_public_entry(bytes: Seq<u8>) -> bool {
    bytes.len() >= 13 && bytes.subrange(bytes.len() - 13, bytes.len() - 1) == public_entry()
        && bytes.last() == 101u8
}

/// `bytes` with the value of its closing `private: 0` entry set to 1.
pub open spec fn made_private(bytes: Seq<u8>) -> Seq<u8> {
    bytes.update(bytes.len() - 3, 49u8)
}

/// Sets a closing `private: 0` entry to `private: 1`; `None` when the bytes
/// do not end with such an entry.
pub fn mark_private(bytes: Vec<u8>) -> (r: Option<Vec<u8>>)
    ensures
        r is Some <==> ends_with_public_entry(bytes@),
        r matches Some(out) ==> out@ == made_private(bytes@),
{
    let len = bytes.len();
    if len < 13 {
        return None;
    }
    let entry: [u8; 12] = [55u8, 58u8, 112u8, 114u8, 105u8, 118u8, 97u8, 116u8, 101u8, 105u8, 48u8, 101u8];
    let start = len - 13;
    let mut k: usize = 0;
    while k < 12
        invariant
            len == bytes@.len() >= 13,
            start == len - 13,
            entry@ == public_entry(),
            k <= 12,
            forall|j: int| 0 <= j < k ==> bytes@[start + j] == entry@[j],
        decreases 12 - k,
    {
        if bytes[start + k] != entry[k] {
            assert(bytes@.subrange(len - 13, len - 1)[k as int] != public_entry()[k as int]);
            return None;
        }
        k = k + 1;
    }
    assert(bytes@.subrange(len - 13, len - 1) =~= public_entry());
    if bytes[len - 1] != 101u8 {
        return None;
    }
    let mut out = bytes;
    out.set(len - 3, 49u8);
    Some(out)
}

} // verus!
