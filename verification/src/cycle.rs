//! The control loop's planning step: one tick's scan over the resolved
//! process table.
//!
//! Per tick the engine enumerates once and then, for each configured
//! fragment in order, re-scans the entire table; every (fragment,
//! process) pair whose name matches is planned for termination. A pair's
//! later failure never aborts the rest of the scan — the plan lists all
//! matches up front. An empty table is a valid terminal state of the
//! cycle: it is reported to the operator as "process list unavailable",
//! not treated as a failure of the loop itself.

use vstd::prelude::*;

use crate::config::{spec_mode_of, MatchMode, RunningConfig};
use crate::matcher::{name_matches_fragment, spec_frags_of, spec_is_target, spec_name_matches};
use crate::resolve::ProcessDescriptor;

verus! {

/// What one tick decides: either the process list was unavailable, or
/// the list of (fragment index, process index) pairs to terminate, in
/// scan order.
pub enum CyclePlan {
    Unavailable,
    Matches(Vec<(usize, usize)>),
}

/// The pairs contributed by fragment `k` scanning the table from
/// position `j` on: one `(k, j)` for every process whose name matches.
pub open spec fn spec_frag_scan(
    frag: Seq<char>,
    descs: Seq<ProcessDescriptor>,
    k: int,
    j: int,
) -> Seq<(usize, usize)>
    decreases descs.len() - j,
{
    if j < 0 || j >= descs.len() {
        Seq::empty()
    } else {
        (if spec_name_matches(descs[j].name@, frag) {
            seq![(k as usize, j as usize)]
        } else {
            Seq::empty()
        }) + spec_frag_scan(frag, descs, k, j + 1)
    }
}

/// The pairs contributed by fragments `k` onward, each scanning the
/// whole table in order.
pub open spec fn spec_scan(
    frags: Seq<Seq<char>>,
    descs: Seq<ProcessDescriptor>,
    k: int,
) -> Seq<(usize, usize)>
    decreases frags.len() - k,
{
    if k < 0 || k >= frags.len() {
        Seq::empty()
    } else {
        spec_frag_scan(frags[k], descs, k, 0) + spec_scan(frags, descs, k + 1)
    }
}

/// The full plan of one tick: empty under whitelist mode — which
/// terminates nothing — otherwise every matching (fragment, process)
/// pair in scan order.
pub open spec fn spec_cycle_matches(
    mode: MatchMode,
    frags: Seq<Seq<char>>,
    descs: Seq<ProcessDescriptor>,
) -> Seq<(usize, usize)> {
    if mode == MatchMode::Whitelist {
        Seq::empty()
    } else {
        spec_scan(frags, descs, 0)
    }
}

/// An element is in a concatenation iff it is in one of the parts.
proof fn lemma_concat_contains<T>(a: Seq<T>, b: Seq<T>, x: T)
    ensures
        (a + b).contains(x) <==> a.contains(x) || b.contains(x),
{
    if (a + b).contains(x) {
        let i = choose|i: int| 0 <= i < (a + b).len() && (a + b)[i] == x;
        if i < a.len() {
            assert(a[i] == x);
        } else {
            assert(b[i - a.len()] == x);
        }
    }
    if a.contains(x) {
        let i = choose|i: int| 0 <= i < a.len() && a[i] == x;
        assert((a + b)[i] == x);
    }
    if b.contains(x) {
        let i = choose|i: int| 0 <= i < b.len() && b[i] == x;
        assert((a + b)[a.len() + i] == x);
    }
}

/// The pairs one fragment contributes are exactly the positions, from
/// `j0` on, of the processes whose name matches it.
proof fn lemma_frag_scan_contains(
    frag: Seq<char>,
    descs: Seq<ProcessDescriptor>,
    k: usize,
    j0: int,
    p: (usize, usize),
)
    requires
        0 <= j0,
        descs.len() <= usize::MAX,
    ensures
        spec_frag_scan(frag, descs, k as int, j0).contains(p) <==> (p.0 == k && j0 <= p.1
            < descs.len() && spec_name_matches(descs[p.1 as int].name@, frag)),
    decreases descs.len() - j0,
{
    if j0 >= descs.len() {
    } else {
        lemma_frag_scan_contains(frag, descs, k, j0 + 1, p);
        let head: Seq<(usize, usize)> = if spec_name_matches(descs[j0].name@, frag) {
            seq![(k, j0 as usize)]
        } else {
            Seq::empty()
        };
        lemma_concat_contains(head, spec_frag_scan(frag, descs, k as int, j0 + 1), p);
        if head.contains(p) {
            assert(p == (k, j0 as usize));
        }
        if p.0 == k && p.1 == j0 && spec_name_matches(descs[j0].name@, frag) {
            assert(head[0] == p);
        }
    }
}

/// The pairs the whole scan contributes, from fragment `k0` on, are
/// exactly the (fragment, process) pairs whose name matches.
proof fn lemma_scan_contains(
    frags: Seq<Seq<char>>,
    descs: Seq<ProcessDescriptor>,
    k0: int,
    p: (usize, usize),
)
    requires
        0 <= k0,
        frags.len() <= usize::MAX,
        descs.len() <= usize::MAX,
    ensures
        spec_scan(frags, descs, k0).contains(p) <==> (k0 <= p.0 < frags.len() && p.1 < descs.len()
            && spec_name_matches(descs[p.1 as int].name@, frags[p.0 as int])),
    decreases frags.len() - k0,
{
    if k0 >= frags.len() {
    } else {
        lemma_scan_contains(frags, descs, k0 + 1, p);
        lemma_frag_scan_contains(frags[k0], descs, k0 as usize, 0, p);
        lemma_concat_contains(
            spec_frag_scan(frags[k0], descs, k0, 0),
            spec_scan(frags, descs, k0 + 1),
            p,
        );
    }
}

/// The plan and the matcher agree, pair by pair: a (fragment, process)
/// pair is planned exactly when both indices exist, the mode is
/// blacklist, and the process's resolved name matches that fragment.
pub proof fn lemma_plan_matches_matcher(
    mode: MatchMode,
    frags: Seq<Seq<char>>,
    descs: Seq<ProcessDescriptor>,
    p: (usize, usize),
)
    requires
        frags.len() <= usize::MAX,
        descs.len() <= usize::MAX,
    ensures
        spec_cycle_matches(mode, frags, descs).contains(p) <==> (mode == MatchMode::Blacklist
            && p.0 < frags.len() && p.1 < descs.len() && spec_name_matches(
            descs[p.1 as int].name@,
            frags[p.0 as int],
        )),
{
    if mode == MatchMode::Whitelist {
    } else {
        lemma_scan_contains(frags, descs, 0, p);
    }
}

/// The plan and the matcher agree, process by process: a process is
/// planned for some fragment exactly when the matcher deems its
/// descriptor a target under the same mode and fragment list.
pub proof fn lemma_planned_iff_target(
    mode: MatchMode,
    frags: Seq<Seq<char>>,
    descs: Seq<ProcessDescriptor>,
    j: usize,
)
    requires
        frags.len() <= usize::MAX,
        descs.len() <= usize::MAX,
        j < descs.len(),
    ensures
        (exists|k: usize| spec_cycle_matches(mode, frags, descs).contains((k, j))) <==> spec_is_target(
            mode,
            frags,
            descs[j as int].name@,
        ),
{
    if exists|k: usize| spec_cycle_matches(mode, frags, descs).contains((k, j)) {
        let k = choose|k: usize| spec_cycle_matches(mode, frags, descs).contains((k, j));
        lemma_plan_matches_matcher(mode, frags, descs, (k, j));
        assert(spec_name_matches(descs[j as int].name@, frags[k as int]));
        assert(spec_is_target(mode, frags, descs[j as int].name@));
    }
    if spec_is_target(mode, frags, descs[j as int].name@) {
        let k = choose|k: int|
            0 <= k < frags.len() && spec_name_matches(descs[j as int].name@, frags[k]);
        lemma_plan_matches_matcher(mode, frags, descs, (k as usize, j));
        assert(spec_cycle_matches(mode, frags, descs).contains(((k as usize), j)));
    }
}

/// Plans one tick over the resolved table. An empty table yields
/// `Unavailable`; otherwise the plan lists exactly the matching pairs.
pub fn plan_cycle(config: &RunningConfig, descs: &Vec<ProcessDescriptor>) -> (r: CyclePlan)
    ensures
        ({
            let expected = spec_cycle_matches(
                spec_mode_of(config.mode@),
                spec_frags_of(config.proccess_list@),
                descs@,
            );
            match r {
                CyclePlan::Unavailable => descs@.len() == 0,
                CyclePlan::Matches(m) => descs@.len() > 0 && m@ == expected,
            }
        }),
{
    if descs.len() == 0 {
        return CyclePlan::Unavailable;
    }
    let mode = config.match_mode();
    let mut out: Vec<(usize, usize)> = Vec::new();
    match mode {
        MatchMode::Whitelist => CyclePlan::Matches(out),
        MatchMode::Blacklist => {
            let ghost frags = spec_frags_of(config.proccess_list@);
            proof {
                assert(out@ + spec_scan(frags, descs@, 0) =~= spec_scan(frags, descs@, 0));
            }
            let mut k: usize = 0;
            while k < config.proccess_list.len()
                invariant
                    frags == spec_frags_of(config.proccess_list@),
                    k <= frags.len(),
                    spec_scan(frags, descs@, 0) == out@ + spec_scan(frags, descs@, k as int),
                decreases frags.len() - k,
            {
                let frag = &config.proccess_list[k];
                let ghost out_row_start = out@;
                let mut j: usize = 0;
                while j < descs.len()
                    invariant
                        frags == spec_frags_of(config.proccess_list@),
                        k < frags.len(),
                        frag@ == frags[k as int],
                        j <= descs@.len(),
                        out@ + spec_frag_scan(frags[k as int], descs@, k as int, j as int)
                            == out_row_start + spec_frag_scan(
                            frags[k as int],
                            descs@,
                            k as int,
                            0,
                        ),
                    decreases descs@.len() - j,
                {
                    if name_matches_fragment(descs[j].name.as_str(), frag.as_str()) {
                        out.push((k, j));
                        proof {
                            assert(out@ =~= out@.drop_last() + seq![(k, j)]);
                            assert(out@.drop_last() + (seq![(k, j)] + spec_frag_scan(
                                frags[k as int],
                                descs@,
                                k as int,
                                j + 1,
                            )) =~= out@ + spec_frag_scan(frags[k as int], descs@, k as int, j + 1));
                        }
                    } else {
                        proof {
                            assert(Seq::<(usize, usize)>::empty() + spec_frag_scan(
                                frags[k as int],
                                descs@,
                                k as int,
                                j + 1,
                            ) =~= spec_frag_scan(frags[k as int], descs@, k as int, j + 1));
                        }
                    }
                    j = j + 1;
                }
                proof {
                    assert(spec_frag_scan(frags[k as int], descs@, k as int, descs@.len() as int)
                        =~= Seq::<(usize, usize)>::empty());
                    assert(out@ + Seq::<(usize, usize)>::empty() =~= out@);
                    assert(out@ =~= out_row_start + spec_frag_scan(
                        frags[k as int],
                        descs@,
                        k as int,
                        0,
                    ));
                    assert(out@ + spec_scan(frags, descs@, k + 1) =~= out_row_start + (
                    spec_frag_scan(frags[k as int], descs@, k as int, 0) + spec_scan(
                        frags,
                        descs@,
                        k + 1,
                    )));
                }
                k = k + 1;
            }
            proof {
                assert(spec_scan(frags, descs@, frags.len() as int) =~= Seq::<(
                    usize,
                    usize,
                )>::empty());
                assert(out@ =~= spec_scan(frags, descs@, 0));
            }
            CyclePlan::Matches(out)
        },
    }
}

} // verus!
