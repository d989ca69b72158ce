//! Splitting a string on a separator character.
//!
//! The identifier codec is defined over [`split_of`], a recursive
//! specification of the segments between separators, together with the
//! executable [`split_str`] and the lemmas that the codec's round-trip
//! proofs need.

use vstd::prelude::*;

verus! {

/// The segments of `s` between occurrences of `sep`, defined from the back:
/// the empty string has one empty segment, a trailing separator opens a new
/// empty segment, and any other character extends the last segment.
pub open spec fn split_of(s: Seq<char>, sep: char) -> Seq<Seq<char>>
    decreases s.len(),
{
    if s.len() == 0 {
        seq![Seq::<char>::empty()]
    } else if s.last() == sep {
        split_of(s.drop_last(), sep).push(Seq::<char>::empty())
    } else {
        let parts = split_of(s.drop_last(), sep);
        parts.update(parts.len() - 1, parts.last().push(s.last()))
    }
}

/// How many times `c` occurs in `s`.
pub open spec fn count_char(s: Seq<char>, c: char) -> nat
    decreases s.len(),
{
    if s.len() == 0 {
        0
    } else {
        count_char(s.drop_last(), c) + if s.last() == c {
            1nat
        } else {
            0nat
        }
    }
}

/// Splitting yields one segment more than there are separators.
pub proof fn lemma_split_len(s: Seq<char>, sep: char)
    ensures
        split_of(s, sep).len() == count_char(s, sep) + 1,
    decreases s.len(),
{
    if s.len() > 0 {
        lemma_split_len(s.drop_last(), sep);
    }
}

/// No segment produced by splitting contains the separator.
pub proof fn lemma_split_parts_free(s: Seq<char>, sep: char)
    ensures
        forall|i: int|
            0 <= i < split_of(s, sep).len() ==> !(#[trigger] split_of(s, sep)[i]).contains(sep),
    decreases s.len(),
{
    lemma_split_len(s, sep);
    if s.len() == 0 {
        let empty = Seq::<char>::empty();
        assert(!empty.contains(sep));
        assert forall|i: int|
            0 <= i < split_of(s, sep).len() implies !(#[trigger] split_of(s, sep)[i]).contains(
            sep,
        ) by {
            assert(split_of(s, sep)[i] == empty);
        }
    } else if s.last() == sep {
        lemma_split_parts_free(s.drop_last(), sep);
        let parts = split_of(s.drop_last(), sep);
        let empty = Seq::<char>::empty();
        assert(!empty.contains(sep));
        assert forall|i: int|
            0 <= i < split_of(s, sep).len() implies !(#[trigger] split_of(s, sep)[i]).contains(
            sep,
        ) by {
            if i < parts.len() {
                assert(split_of(s, sep)[i] == parts[i]);
            } else {
                assert(split_of(s, sep)[i] == empty);
            }
        }
    } else {
        lemma_split_parts_free(s.drop_last(), sep);
        let parts = split_of(s.drop_last(), sep);
        lemma_split_len(s.drop_last(), sep);
        assert(parts.len() >= 1);
        assert forall|i: int|
            0 <= i < split_of(s, sep).len() implies !(#[trigger] split_of(s, sep)[i]).contains(
            sep,
        ) by {
            if i == parts.len() - 1 {
                assert(!parts[i].contains(sep));
                assert(parts.last() == parts[i]);
                vstd::seq_lib::lemma_seq_contains_after_push(parts.last(), s.last(), sep);
                assert(split_of(s, sep)[i] == parts.last().push(s.last()));
            } else {
                assert(!parts[i].contains(sep));
                assert(split_of(s, sep)[i] == parts[i]);
            }
        }
    }
}

/// A string without the separator splits into that single segment.
pub proof fn lemma_split_whole(s: Seq<char>, sep: char)
    requires
        !s.contains(sep),
    ensures
        split_of(s, sep) == seq![s],
    decreases s.len(),
{
    if s.len() == 0 {
        assert(s =~= Seq::<char>::empty());
        assert(split_of(s, sep) =~= seq![s]);
    } else {
        assert(s.last() != sep) by {
            assert(s[s.len() - 1] == s.last());
        }
        assert(!s.drop_last().contains(sep)) by {
            assert forall|i: int| 0 <= i < s.drop_last().len() implies s.drop_last()[i]
                != sep by {
                assert(s.drop_last()[i] == s[i]);
            }
        }
        lemma_split_whole(s.drop_last(), sep);
        assert(seq![s.drop_last()].update(0, s.drop_last().push(s.last())) =~~= seq![s]);
    }
}

/// Splitting distributes over a separator between two strings.
pub proof fn lemma_split_append(a: Seq<char>, b: Seq<char>, sep: char)
    ensures
        split_of(a + seq![sep] + b, sep) == split_of(a, sep) + split_of(b, sep),
    decreases b.len(),
{
    let s = a + seq![sep] + b;
    if b.len() == 0 {
        assert(s.last() == sep);
        assert(s.drop_last() =~= a);
        assert(split_of(b, sep) =~= seq![Seq::<char>::empty()]);
        assert(split_of(a, sep).push(Seq::<char>::empty()) =~= split_of(a, sep) + split_of(
            b,
            sep,
        ));
    } else {
        assert(s.last() == b.last());
        assert(s.drop_last() =~= a + seq![sep] + b.drop_last());
        lemma_split_append(a, b.drop_last(), sep);
        lemma_split_len(a, sep);
        lemma_split_len(b.drop_last(), sep);
        let pa = split_of(a, sep);
        let pb = split_of(b.drop_last(), sep);
        if b.last() == sep {
            assert((pa + pb).push(Seq::<char>::empty()) =~= pa + pb.push(Seq::<char>::empty()));
        } else {
            assert((pa + pb).last() == pb.last());
            assert((pa + pb).update((pa + pb).len() - 1, pb.last().push(b.last())) =~= pa
                + pb.update(pb.len() - 1, pb.last().push(b.last())));
        }
    }
}

/// Joining two separator-free segments splits back into exactly those two.
pub proof fn lemma_split_pair(a: Seq<char>, b: Seq<char>, sep: char)
    requires
        !a.contains(sep),
        !b.contains(sep),
    ensures
        split_of(a + seq![sep] + b, sep) == seq![a, b],
{
    lemma_split_append(a, b, sep);
    lemma_split_whole(a, sep);
    lemma_split_whole(b, sep);
    assert(seq![a] + seq![b] =~= seq![a, b]);
}

/// Splits `s` into the segments between occurrences of `sep`, in order.
pub fn split_str(s: &str, sep: char) -> (parts: Vec<String>)
    ensures
        parts.deep_view() == split_of(s@, sep),
{
    let len = s.unicode_len();
    let mut parts: Vec<String> = Vec::new();
    let mut start: usize = 0;
    let mut i: usize = 0;
    proof {
        assert(s@.subrange(0, 0) =~= Seq::<char>::empty());
        assert(split_of(s@.subrange(0, 0), sep) == seq![Seq::<char>::empty()]);
        assert(parts.deep_view().push(s@.subrange(0, 0)) =~~= seq![Seq::<char>::empty()]);
    }
    while i < len
        invariant
            start <= i <= len,
            len == s@.len(),
            parts.deep_view().push(s@.subrange(start as int, i as int)) == split_of(
                s@.subrange(0, i as int),
                sep,
            ),
        decreases len - i,
    {
        let c = s.get_char(i);
        proof {
            assert(s@.subrange(0, i + 1).drop_last() =~= s@.subrange(0, i as int));
            assert(s@.subrange(0, i + 1).last() == s@[i as int]);
        }
        if c == sep {
            let part = s.substring_char(start, i).to_owned();
            let ghost old_parts = parts.deep_view();
            parts.push(part);
            proof {
                assert(parts.deep_view() =~~= old_parts.push(s@.subrange(
                    start as int,
                    i as int,
                )));
                assert(parts.deep_view().push(s@.subrange(i + 1, i + 1)) =~~= split_of(
                    s@.subrange(0, i + 1),
                    sep,
                ));
            }
            start = i + 1;
        } else {
            proof {
                let prev = split_of(s@.subrange(0, i as int), sep);
                assert(prev.last() == s@.subrange(start as int, i as int));
                assert(prev.update(prev.len() - 1, prev.last().push(s@[i as int]))
                    =~~= parts.deep_view().push(s@.subrange(start as int, i + 1)));
            }
        }
        i = i + 1;
    }
    let last = s.substring_char(start, len).to_owned();
    let ghost old_parts = parts.deep_view();
    parts.push(last);
    proof {
        assert(s@.subrange(0, len as int) =~= s@);
        assert(parts.deep_view() =~~= old_parts.push(s@.subrange(start as int, len as int)));
    }
    parts
}

} // verus!
