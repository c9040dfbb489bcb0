use vstd::prelude::*;

use crate::text::{blank, is_blank, is_white_space, opt_view, opts_view};

verus! {

/// Whether a recognized observation becomes a line: it needs a top candidate,
/// and the candidate's text must not be blank.
pub open spec fn keeps(top: Option<Seq<char>>) -> bool {
    match top {
        Some(t) => !blank(t),
        None => false,
    }
}

/// The indices, in ascending order, of the first `n` observations that
/// become lines.
pub open spec fn kept_indices(tops: Seq<Option<Seq<char>>>, n: nat) -> Seq<int>
    decreases n,
{
    if n == 0 {
        seq![]
    } else {
        let before = kept_indices(tops, (n - 1) as nat);
        if keeps(tops[n - 1]) {
            before.push(n - 1)
        } else {
            before
        }
    }
}

/// Indices as mathematical integers.
pub open spec fn indices(s: Seq<usize>) -> Seq<int> {
    s.map_values(|i: usize| i as int)
}

/// Chooses which observations of a recognition are reported, given the text
/// of each observation's top candidate (`None` where it has none).
///
/// The result lists the indices of the kept observations in the order the
/// recognizer returned them: an observation is kept when it has a top
/// candidate whose text is not blank.
///
/// Said directly of the candidates: every observation whose top candidate
/// holds a character that is not white space is selected, whatever else its
/// text is; every selected observation is such an observation; and the
/// selection follows the recognizer's order without repeats.
pub fn select_lines(tops: &Vec<Option<String>>) -> (kept: Vec<usize>)
    ensures
        indices(kept@) == kept_indices(opts_view(tops@), tops@.len()),
        forall|i: int|
            #![trigger tops@[i]]
            0 <= i < tops@.len() && tops@[i] is Some && (exists|j: int|
                0 <= j < tops@[i]->0@.len() && !is_white_space(tops@[i]->0@[j]))
                ==> kept@.contains(i as usize),
        forall|k: int|
            #![trigger kept@[k]]
            0 <= k < kept@.len() ==> {
                &&& kept@[k] < tops@.len()
                &&& tops@[kept@[k] as int] is Some
                &&& exists|j: int|
                    0 <= j < tops@[kept@[k] as int]->0@.len() && !is_white_space(
                        tops@[kept@[k] as int]->0@[j],
                    )
            },
        forall|a: int, b: int| 0 <= a < b < kept@.len() ==> #[trigger] kept@[a] < #[trigger] kept@[b],
{
    let ghost views = opts_view(tops@);
    let n = tops.len();
    let mut kept: Vec<usize> = Vec::new();
    let mut i: usize = 0;
    while i < n
        invariant
            n == tops@.len(),
            views == opts_view(tops@),
            i <= n,
            indices(kept@) == kept_indices(views, i as nat),
        decreases n - i,
    {
        let keep = match &tops[i] {
            Some(t) => !is_blank(t.as_str()),
            None => false,
        };
        assert(views[i as int] == opt_view(tops@[i as int]));
        let ghost prev = kept@;
        if keep {
            kept.push(i);
            assert(indices(kept@) =~= indices(prev).push(i as int));
        }
        i = i + 1;
    }
    proof {
        let ks = kept_indices(views, n as nat);
        lemma_kept_indices(views, n as nat);
        assert forall|i: int|
            #![trigger tops@[i]]
            0 <= i < tops@.len() && tops@[i] is Some && (exists|j: int|
                0 <= j < tops@[i]->0@.len() && !is_white_space(tops@[i]->0@[j]))
                implies kept@.contains(i as usize) by {
            let j = choose|j: int| 0 <= j < tops@[i]->0@.len() && !is_white_space(tops@[i]->0@[j]);
            assert(views[i] == opt_view(tops@[i]));
            assert(!blank(tops@[i]->0@));
            assert(keeps(views[i]));
            assert(ks.contains(i));
            let k = choose|k: int| 0 <= k < ks.len() && ks[k] == i;
            assert(indices(kept@)[k] == i);
            assert(kept@[k] == i as usize);
        }
        assert forall|k: int|
            #![trigger kept@[k]]
            0 <= k < kept@.len() implies {
                &&& kept@[k] < tops@.len()
                &&& tops@[kept@[k] as int] is Some
                &&& exists|j: int|
                    0 <= j < tops@[kept@[k] as int]->0@.len() && !is_white_space(
                        tops@[kept@[k] as int]->0@[j],
                    )
            } by {
            assert(indices(kept@)[k] == kept@[k] as int);
            assert(0 <= ks[k] < n);
            let i = kept@[k] as int;
            assert(views[i] == opt_view(tops@[i]));
            assert(keeps(views[i]));
            assert(!blank(tops@[i]->0@));
        }
        assert forall|a: int, b: int| 0 <= a < b < kept@.len() implies #[trigger] kept@[a]
            < #[trigger] kept@[b] by {
            assert(indices(kept@)[a] == kept@[a] as int);
            assert(indices(kept@)[b] == kept@[b] as int);
            assert(ks[a] < ks[b]);
        }
    }
    kept
}

/// Every reported line has a non-blank top candidate, the indices are in the
/// recognizer's order with no repeats, and no observation with a non-blank
/// top candidate is left out.
pub proof fn lemma_kept_indices(tops: Seq<Option<Seq<char>>>, n: nat)
    requires
        n <= tops.len(),
    ensures
        forall|k: int|
            0 <= k < kept_indices(tops, n).len() ==> {
                &&& 0 <= #[trigger] kept_indices(tops, n)[k] < n
                &&& keeps(tops[kept_indices(tops, n)[k]])
            },
        forall|a: int, b: int|
            0 <= a < b < kept_indices(tops, n).len() ==> #[trigger] kept_indices(tops, n)[a]
                < #[trigger] kept_indices(tops, n)[b],
        forall|i: int|
            0 <= i < n && keeps(#[trigger] tops[i]) ==> kept_indices(tops, n).contains(i),
    decreases n,
{
    if n > 0 {
        lemma_kept_indices(tops, (n - 1) as nat);
        let before = kept_indices(tops, (n - 1) as nat);
        if keeps(tops[n - 1]) {
            assert(kept_indices(tops, n)[before.len() as int] == n - 1);
            assert forall|i: int| 0 <= i < n && keeps(#[trigger] tops[i]) implies kept_indices(
                tops,
                n,
            ).contains(i) by {
                if i < n - 1 {
                    let k = choose|k: int| 0 <= k < before.len() && before[k] == i;
                    assert(kept_indices(tops, n)[k] == i);
                } else {
                    assert(kept_indices(tops, n)[before.len() as int] == i);
                }
            }
        }
    }
}

} // verus!
