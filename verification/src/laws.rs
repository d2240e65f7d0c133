//! Laws of the segmentation, proved over the model: one section per marker,
//! the round trip from sections back to the stream, and determinism.

use vstd::prelude::*;

use crate::model::{
    concat_lines, is_marker_line, marker_count, preamble_len, run_steps, split_spec,
};

verus! {

/// Once the automaton has stopped on an error, it stays there.
pub(crate) proof fn lemma_run_steps_err_stays(ls: Seq<Seq<char>>, n: int, m: int)
    requires
        0 <= n <= m,
        run_steps(ls, n) is Err,
    ensures
        run_steps(ls, m) == run_steps(ls, n),
    decreases m - n,
{
    if m > n {
        lemma_run_steps_err_stays(ls, n, m - 1);
    }
}

/// After `n` lines, the sections cut so far together with the one being read
/// account for one marker each.
proof fn lemma_run_marker_count(ls: Seq<Seq<char>>, n: int)
    requires
        0 <= n <= ls.len(),
        run_steps(ls, n) is Ok,
    ensures
        ({
            let st = run_steps(ls, n)->Ok_0;
            st.done.len() + (if st.started {
                1nat
            } else {
                0nat
            }) == marker_count(ls.take(n))
        }),
    decreases n,
{
    if n == 0 {
        assert(ls.take(0) =~= Seq::<Seq<char>>::empty());
    } else {
        lemma_run_marker_count(ls, n - 1);
        assert(ls.take(n).drop_last() =~= ls.take(n - 1));
        assert(ls.take(n).last() == ls[n - 1]);
    }
}

/// Every boundary marker yields exactly one section: a successful split of
/// a stream with N markers yields exactly N sections, and N is at least one.
pub proof fn lemma_section_count(ls: Seq<Seq<char>>)
    ensures
        split_spec(ls) is Ok ==> split_spec(ls)->Ok_0.len() == marker_count(ls),
        split_spec(ls) is Ok ==> marker_count(ls) >= 1,
{
    if split_spec(ls) is Ok {
        lemma_run_marker_count(ls, ls.len() as int);
        assert(ls.take(ls.len() as int) =~= ls);
    }
}

/// After `n` lines, the lines of the sections cut so far followed by the
/// buffered lines are exactly the stream from its first marker on; before
/// the first marker nothing is kept.
proof fn lemma_run_concat(ls: Seq<Seq<char>>, n: int)
    requires
        0 <= n <= ls.len(),
        run_steps(ls, n) is Ok,
    ensures
        ({
            let st = run_steps(ls, n)->Ok_0;
            let p = preamble_len(ls.take(n)) as int;
            &&& (st.started <==> p < n)
            &&& (!st.started ==> st.done.len() == 0 && st.buf.len() == 0 && p == n)
            &&& (st.started ==> st.buf.len() >= 1 && concat_lines(st.done) + st.buf
                == ls.subrange(p, n))
        }),
    decreases n,
{
    if n == 0 {
        assert(ls.take(0) =~= Seq::<Seq<char>>::empty());
    } else {
        lemma_run_concat(ls, n - 1);
        let prev = run_steps(ls, n - 1)->Ok_0;
        let st = run_steps(ls, n)->Ok_0;
        assert(ls.take(n).drop_last() =~= ls.take(n - 1));
        assert(ls.take(n).last() == ls[n - 1]);
        let p0 = preamble_len(ls.take(n - 1)) as int;
        let p = preamble_len(ls.take(n)) as int;
        let line = ls[n - 1];
        if is_marker_line(line) {
            if prev.started {
                assert(st.done.drop_last() == prev.done && st.done.last().lines == prev.buf);
                assert(concat_lines(st.done) == concat_lines(prev.done) + prev.buf);
                assert(concat_lines(st.done) + st.buf =~= ls.subrange(p, n));
            } else {
                assert(p == n - 1);
                assert(concat_lines(st.done) + st.buf =~= ls.subrange(p, n));
            }
        } else {
            if prev.started {
                assert(p == p0);
                assert(st.done == prev.done && st.buf == prev.buf.push(line));
                let ab = concat_lines(prev.done) + prev.buf;
                assert(ab == ls.subrange(p0, n - 1));
                assert(ab.len() == n - 1 - p0);
                assert(concat_lines(st.done) + st.buf =~= ab.push(line));
                assert(ab.push(line) =~= ls.subrange(p, n));
            }
        }
    }
}

/// Round trip: a successful split reproduces the stream.  Concatenating the
/// lines of all sections, in order, yields every line of the input except
/// the lines before the first boundary marker and the two trailer lines at
/// the end.
pub proof fn lemma_round_trip(ls: Seq<Seq<char>>)
    ensures
        split_spec(ls) is Ok ==> {
            &&& preamble_len(ls) + 2 <= ls.len()
            &&& concat_lines(split_spec(ls)->Ok_0) == ls.subrange(
                preamble_len(ls) as int,
                ls.len() - 2,
            )
        },
{
    if split_spec(ls) is Ok {
        let len = ls.len() as int;
        lemma_run_concat(ls, len);
        assert(ls.take(len) =~= ls);
        let st = run_steps(ls, len)->Ok_0;
        let p = preamble_len(ls) as int;
        let secs = split_spec(ls)->Ok_0;
        assert(secs.drop_last() == st.done && secs.last().lines == st.buf.subrange(
            0,
            st.buf.len() - 2,
        ));
        assert(concat_lines(secs) == concat_lines(st.done) + st.buf.subrange(
            0,
            st.buf.len() - 2,
        ));
        assert(st.started);
        let ab = concat_lines(st.done) + st.buf;
        assert(ab == ls.subrange(p, len));
        assert(ab.len() == len - p);
        assert(concat_lines(st.done).len() + st.buf.len() == ab.len());
        assert(concat_lines(secs) =~= ls.subrange(p, len - 2));
    }
}

/// The preamble is exactly the run of lines before the first boundary
/// marker: no marker stands in it, and where it ends short of the stream, a
/// marker follows it.
pub proof fn lemma_preamble(ls: Seq<Seq<char>>)
    ensures
        preamble_len(ls) <= ls.len(),
        forall|j: int| 0 <= j < preamble_len(ls) ==> !is_marker_line(ls[j]),
        preamble_len(ls) < ls.len() ==> is_marker_line(ls[preamble_len(ls) as int]),
    decreases ls.len(),
{
    if ls.len() > 0 {
        lemma_preamble(ls.drop_last());
        assert(forall|j: int| 0 <= j < ls.len() - 1 ==> ls.drop_last()[j] == ls[j]);
    }
}

/// Determinism: splitting the same lines yields the same sections, so two
/// runs over one input produce identical artifacts.  (That a second run
/// replaces the first run's files rather than extending them is the file
/// layer's doing, outside this model.)
pub proof fn lemma_split_deterministic(l1: Seq<Seq<char>>, l2: Seq<Seq<char>>)
    requires
        l1 == l2,
    ensures
        split_spec(l1) == split_spec(l2),
{
}

} // verus!
