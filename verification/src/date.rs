//! Structural validation of the date path parameter.

use vstd::prelude::*;
use vstd::std_specs::iter::IteratorSpec;

verus! {

/// The number of `-` characters in `s`.
pub open spec fn dash_count(s: Seq<char>) -> nat
    decreases s.len(),
{
    if s.len() == 0 {
        0
    } else {
        dash_count(s.drop_last()) + if s.last() == '-' {
            1nat
        } else {
            0nat
        }
    }
}

/// The number of segments `s` falls into when it is cut at every `-`.
/// Empty segments count: the empty string is one segment.
pub open spec fn segment_count(s: Seq<char>) -> nat {
    dash_count(s) + 1
}

/// A date has the accepted shape when it consists of exactly three segments.
/// Nothing is asked of the segments themselves.
pub open spec fn is_date_shape(s: Seq<char>) -> bool {
    segment_count(s) == 3
}

/// Whether `s` holds no `-` at all.
pub open spec fn dash_free(s: Seq<char>) -> bool {
    forall|i: int| 0 <= i < s.len() ==> s[i] != '-'
}

/// Counting dashes distributes over concatenation.
pub proof fn lemma_dash_count_concat(a: Seq<char>, b: Seq<char>)
    ensures
        dash_count(a + b) == dash_count(a) + dash_count(b),
    decreases b.len(),
{
    if b.len() == 0 {
        assert(a + b =~= a);
    } else {
        lemma_dash_count_concat(a, b.drop_last());
        assert((a + b).drop_last() =~= a + b.drop_last());
        assert((a + b).last() == b.last());
    }
}

/// A string has no dash exactly when its dash count is zero.
pub proof fn lemma_dash_free_count(s: Seq<char>)
    ensures
        dash_free(s) <==> dash_count(s) == 0,
    decreases s.len(),
{
    if s.len() > 0 {
        lemma_dash_free_count(s.drop_last());
        if dash_free(s) {
            assert forall|i: int| 0 <= i < s.drop_last().len() implies s.drop_last()[i] != '-' by {
                assert(s.drop_last()[i] == s[i]);
            }
        }
        if dash_count(s) == 0 {
            assert forall|i: int| 0 <= i < s.len() implies s[i] != '-' by {
                if i < s.len() - 1 {
                    assert(s.drop_last()[i] == s[i]);
                }
            }
        }
    }
}

/// `parts` joined with one `-` between neighbours.
pub open spec fn join_dashed(parts: Seq<Seq<char>>) -> Seq<char>
    decreases parts.len(),
{
    if parts.len() == 0 {
        Seq::empty()
    } else if parts.len() == 1 {
        parts[0]
    } else {
        join_dashed(parts.drop_last()) + seq!['-'] + parts.last()
    }
}

/// Whether none of `parts` holds a `-`.
pub open spec fn all_dash_free(parts: Seq<Seq<char>>) -> bool {
    forall|i: int| 0 <= i < parts.len() ==> dash_free(#[trigger] parts[i])
}

/// The segments of `s`: what stands between its dashes, in order. A dash at
/// either end, or two in a row, leave an empty segment.
pub open spec fn segments_of(s: Seq<char>) -> Seq<Seq<char>>
    decreases s.len(),
{
    if s.len() == 0 {
        seq![Seq::<char>::empty()]
    } else {
        let before = segments_of(s.drop_last());
        if s.last() == '-' {
            before.push(Seq::<char>::empty())
        } else {
            before.drop_last().push(before.last().push(s.last()))
        }
    }
}

/// Every string is its segments joined by dashes, the segments hold no
/// dash, and there are as many of them as `segment_count` says.
pub proof fn lemma_segments_of(s: Seq<char>)
    ensures
        segments_of(s).len() == segment_count(s),
        all_dash_free(segments_of(s)),
        join_dashed(segments_of(s)) == s,
    decreases s.len(),
{
    let parts = segments_of(s);
    if s.len() == 0 {
        assert(join_dashed(parts) =~= s);
    } else {
        let before = segments_of(s.drop_last());
        lemma_segments_of(s.drop_last());
        if s.last() == '-' {
            assert(parts.drop_last() =~= before);
            assert(join_dashed(parts) =~= s);
            assert forall|i: int| 0 <= i < parts.len() implies dash_free(#[trigger] parts[i]) by {
                if i < before.len() {
                    assert(parts[i] == before[i]);
                }
            }
        } else {
            let grown = before.last().push(s.last());
            assert(dash_free(before.last()));
            assert(dash_free(grown));
            assert forall|i: int| 0 <= i < parts.len() implies dash_free(#[trigger] parts[i]) by {
                if i < before.len() - 1 {
                    assert(parts[i] == before[i]);
                }
            }
            if before.len() == 1 {
                assert(join_dashed(parts) =~= s);
            } else {
                assert(parts.drop_last() =~= before.drop_last());
                assert(join_dashed(parts) =~= join_dashed(before).push(s.last()));
                assert(join_dashed(parts) =~= s);
            }
        }
    }
}

/// Joining dash-free parts gives a string of exactly that many segments.
pub proof fn lemma_join_segment_count(parts: Seq<Seq<char>>)
    requires
        parts.len() >= 1,
        all_dash_free(parts),
    ensures
        segment_count(join_dashed(parts)) == parts.len(),
    decreases parts.len(),
{
    if parts.len() == 1 {
        lemma_dash_free_count(parts[0]);
    } else {
        let front = parts.drop_last();
        assert forall|i: int| 0 <= i < front.len() implies dash_free(#[trigger] front[i]) by {
            assert(front[i] == parts[i]);
        }
        lemma_join_segment_count(front);
        let dash = seq!['-'];
        assert(dash.drop_last() =~= Seq::<char>::empty());
        assert(dash_count(dash.drop_last()) == 0);
        assert(dash_count(dash) == 1);
        lemma_dash_free_count(parts.last());
        lemma_dash_count_concat(join_dashed(front), dash);
        lemma_dash_count_concat(join_dashed(front) + dash, parts.last());
    }
}

/// A string is accepted exactly when it is three dash-free parts joined by
/// dashes; a string of any other number of parts is rejected.
pub proof fn lemma_date_shape_is_three_parts(parts: Seq<Seq<char>>)
    requires
        parts.len() >= 1,
        all_dash_free(parts),
    ensures
        is_date_shape(join_dashed(parts)) <==> parts.len() == 3,
{
    lemma_join_segment_count(parts);
}

/// Three dash-free segments joined by two dashes always have the accepted
/// shape, whatever the segments hold.
pub proof fn lemma_three_segments_accepted(a: Seq<char>, b: Seq<char>, c: Seq<char>)
    requires
        dash_free(a),
        dash_free(b),
        dash_free(c),
    ensures
        is_date_shape(a + seq!['-'] + b + seq!['-'] + c),
{
    let dash = seq!['-'];
    lemma_dash_free_count(a);
    lemma_dash_free_count(b);
    lemma_dash_free_count(c);
    assert(dash.drop_last() =~= Seq::<char>::empty());
    assert(dash_count(dash.drop_last()) == 0);
    assert(dash_count(dash) == 1);
    lemma_dash_count_concat(a, dash);
    lemma_dash_count_concat(a + dash, b);
    lemma_dash_count_concat(a + dash + b, dash);
    lemma_dash_count_concat(a + dash + b + dash, c);
}

/// Says whether `date` consists of exactly three `-`-separated segments.
/// The date is read once, front to back.
pub fn is_date(date: &str) -> (ok: bool)
    ensures
        ok == is_date_shape(date@),
{
    broadcast use {vstd::string::axiom_spec_iter, vstd::string::next_postcondition};

    let mut rest = date.chars();
    let mut dashes: u8 = 0;
    let ghost mut seen: int = 0;
    loop
        invariant
            0 <= seen <= date@.len(),
            rest.remaining() == date@.skip(seen),
            dashes <= 3,
            dashes == if dash_count(date@.take(seen)) < 3 {
                dash_count(date@.take(seen))
            } else {
                3
            },
        ensures
            seen == date@.len(),
            dashes == if dash_count(date@.take(seen)) < 3 {
                dash_count(date@.take(seen))
            } else {
                3
            },
        decreases date@.len() - seen,
    {
        match rest.next() {
            Some(c) => {
                proof {
                    assert(c == date@[seen]);
                    assert(date@.take(seen + 1).drop_last() =~= date@.take(seen));
                    assert(date@.skip(seen).drop_first() =~= date@.skip(seen + 1));
                    seen = seen + 1;
                }
                if c == '-' && dashes < 3 {
                    dashes += 1;
                }
            },
            None => {
                break ;
            },
        }
    }
    proof {
        assert(date@.take(seen) =~= date@);
    }
    dashes == 2
}

} // verus!
