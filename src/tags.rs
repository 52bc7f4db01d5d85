//! Comma-separated tag lists of the upload form.
use vstd::prelude::*;

verus! {

/// The pieces of `s` between commas (one empty piece for an empty text).
pub open spec fn comma_split(s: Seq<char>) -> Seq<Seq<char>>
    decreases s.len(),
{
    if s.len() == 0 {
        seq![Seq::empty()]
    } else {
        let pieces = comma_split(s.drop_last());
        if s.last() == ',' {
            pieces.push(Seq::empty())
        } else {
            pieces.update(pieces.len() - 1, pieces.last().push(s.last()))
        }
    }
}

/// The non-empty pieces, each trimmed when `trim` holds.
pub open spec fn kept_fields(pieces: Seq<Seq<char>>, trim: bool) -> Seq<Seq<char>>
    decreases pieces.len(),
{
    if pieces.len() == 0 {
        Seq::empty()
    } else if pieces.last().len() == 0 {
        kept_fields(pieces.drop_last(), trim)
    } else {
        kept_fields(pieces.drop_last(), trim).push(
            if trim {
                trimmed(pieces.last())
            } else {
                pieces.last()
            },
        )
    }
}

/// What `str::trim` leaves of a text.
pub uninterp spec fn trimmed(s: Seq<char>) -> Seq<char>;

/// Relies on `str::trim`: the text without leading and trailing whitespace.
#[verifier::external_body]
fn trim(s: &str) -> (r: String)
    ensures
        r@ == trimmed(s@),
{
    s.trim().to_string()
}

fn fields(s: &str, do_trim: bool) -> (r: Vec<String>)
    ensures
        r@.map_values(|f: String| f@) == kept_fields(comma_split(s@), do_trim),
{
    let len = s.unicode_len();
    let mut out: Vec<String> = Vec::new();
    let mut start: usize = 0;
    let mut i: usize = 0;
    let ghost mut done: Seq<Seq<char>> = Seq::empty();
    assert(s@.subrange(0, 0) =~= Seq::<char>::empty());
    assert(s@.subrange(0, 0).subrange(0, 0) =~= Seq::<char>::empty());
    while i < len
        invariant
            len == s@.len(),
            start <= i <= len,
            comma_split(s@.subrange(0, i as int)) == done.push(s@.subrange(start as int, i as int)),
            out@.map_values(|f: String| f@) == kept_fields(done, do_trim),
        decreases len - i,
    {
        let ghost prefix = s@.subrange(0, i as int);
        assert(s@.subrange(0, i + 1).drop_last() =~= prefix);
        if s.get_char(i) == ',' {
            let piece = s.substring_char(start, i);
            let ghost old_out = out@;
            if i > start {
                let f = if do_trim {
                    trim(piece)
                } else {
                    String::from_str(piece)
                };
                out.push(f);
                assert(out@.map_values(|f: String| f@) =~= old_out.map_values(|f: String| f@).push(
                    f@,
                ));
            }
            proof {
                let d2 = done.push(s@.subrange(start as int, i as int));
                assert(d2.drop_last() =~= done);
                done = d2;
            }
            start = i + 1;
            assert(s@.subrange(start as int, i + 1) =~= Seq::<char>::empty());
        } else {
            assert(s@.subrange(start as int, i + 1) =~= s@.subrange(start as int, i as int).push(
                s@[i as int],
            ));
        }
        i = i + 1;
    }
    assert(s@.subrange(0, len as int) =~= s@);
    let piece = s.substring_char(start, len);
    let ghost old_out = out@;
    let ghost all = done.push(s@.subrange(start as int, len as int));
    assert(all.drop_last() =~= done);
    if len > start {
        let f = if do_trim {
            trim(piece)
        } else {
            String::from_str(piece)
        };
        out.push(f);
        assert(out@.map_values(|f: String| f@) =~= old_out.map_values(|f: String| f@).push(f@));
    }
    out
}

/// The non-empty pieces of `s` between commas, as they stand.
pub fn comma_fields(s: &str) -> (r: Vec<String>)
    ensures
        r@.map_values(|f: String| f@) == kept_fields(comma_split(s@), false),
{
    fields(s, false)
}

/// The non-empty pieces of `s` between commas, each trimmed.
pub fn trimmed_comma_fields(s: &str) -> (r: Vec<String>)
    ensures
        r@.map_values(|f: String| f@) == kept_fields(comma_split(s@), true),
{
    fields(s, true)
}

} // verus!
