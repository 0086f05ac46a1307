use vstd::prelude::*;
use crate::record::{PacketInfo, PacketView, protocol_text};

verus! {

/// `pat` occurs contiguously somewhere inside `text`.
pub open spec fn contains_seq(text: Seq<char>, pat: Seq<char>) -> bool {
    exists|i: int| 0 <= i && i + pat.len() <= text.len() && #[trigger] text.subrange(i, i + pat.len()) == pat
}

/// What the display filter accepts: the empty filter accepts every record;
/// a non-empty filter accepts a record iff it is a literal, case-sensitive
/// substring of the source address, the destination address, or the textual
/// form of the protocol tag.
pub open spec fn matches_spec(r: PacketView, f: Seq<char>) -> bool {
    ||| f.len() == 0
    ||| contains_seq(r.source, f)
    ||| contains_seq(r.destination, f)
    ||| contains_seq(protocol_text(r.protocol), f)
}

/// The empty filter matches every record, whatever it holds.
pub proof fn lemma_empty_filter_matches(r: PacketView)
    ensures
        matches_spec(r, Seq::<char>::empty()),
{
}

/// A non-empty filter matches exactly the records of which it is a literal
/// substring of the source, the destination, or the protocol's text form.
pub proof fn lemma_nonempty_filter_is_substring_test(r: PacketView, f: Seq<char>)
    requires
        f.len() != 0,
    ensures
        matches_spec(r, f) <==> (contains_seq(r.source, f) || contains_seq(r.destination, f)
            || contains_seq(protocol_text(r.protocol), f)),
{
}

/// Does `pat` occur in `text` starting exactly at character position `i`?
fn match_at(text: &str, pat: &str, i: usize) -> (r: bool)
    requires
        i + pat@.len() <= text@.len(),
        text@.len() <= usize::MAX,
    ensures
        r == (text@.subrange(i as int, i + pat@.len()) == pat@),
{
    let n = pat.unicode_len();
    let mut j: usize = 0;
    while j < n
        invariant
            n == pat@.len(),
            i + n <= text@.len(),
            text@.len() <= usize::MAX,
            j <= n,
            forall|k: int| 0 <= k < j ==> text@[i + k] == pat@[k],
        decreases n - j,
    {
        if text.get_char(i + j) != pat.get_char(j) {
            proof {
                assert(text@.subrange(i as int, i + n as int)[j as int] == text@[i + j]);
            }
            return false;
        }
        j = j + 1;
    }
    proof {
        assert(text@.subrange(i as int, i + n as int) =~= pat@);
    }
    true
}

/// Case-sensitive substring search over character sequences.
pub fn str_contains(text: &str, pat: &str) -> (r: bool)
    ensures
        r == contains_seq(text@, pat@),
{
    let n = text.unicode_len();
    let m = pat.unicode_len();
    if m > n {
        return false;
    }
    if m == 0 {
        proof {
            assert(text@.subrange(0, 0 + pat@.len() as int) =~= pat@);
            assert(contains_seq(text@, pat@));
        }
        return true;
    }
    let mut i: usize = 0;
    while i <= n - m
        invariant
            n == text@.len(),
            m == pat@.len(),
            1 <= m <= n,
            i <= n,
            forall|k: int| 0 <= k < i ==> #[trigger] text@.subrange(k, k + m as int) != pat@,
        decreases n - i,
    {
        if match_at(text, pat, i) {
            proof {
                assert(0 <= i as int && i as int + pat@.len() <= text@.len()
                    && text@.subrange(i as int, i as int + pat@.len()) == pat@);
            }
            return true;
        }
        i = i + 1;
    }
    proof {
        assert forall|k: int| 0 <= k && k + pat@.len() <= text@.len()
            implies #[trigger] text@.subrange(k, k + pat@.len()) != pat@ by {
            assert(k < i);
        }
    }
    false
}

/// The stateless display filter: empty filter matches everything; a non-empty
/// filter matches iff it is a literal substring of the record's source,
/// destination, or protocol name. Filtering is applied at display time only
/// and never discards captured records.
pub fn matches(record: &PacketInfo, filter: &str) -> (r: bool)
    ensures
        r == matches_spec(record@, filter@),
{
    if filter.unicode_len() == 0 {
        return true;
    }
    if str_contains(record.source.as_str(), filter) {
        return true;
    }
    if str_contains(record.destination.as_str(), filter) {
        return true;
    }
    let lab = record.protocol.label();
    str_contains(lab, filter)
}

} // verus!
