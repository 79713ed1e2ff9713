//! Enumeration: filtering the raw process table the system call fills.
//!
//! The system reports live PIDs into a fixed-capacity buffer; unused
//! slots stay zero. Filtering keeps the first entry unconditionally —
//! the idle/system process is reported as PID zero — and then scans
//! forward until the first zero entry, which terminates the table. A
//! failed system call yields an empty result, which the caller treats
//! as "process list unavailable" for that cycle.

use vstd::prelude::*;

verus! {

/// Carrier for the process-API call sites; holds only the debug flag
/// that switches their trace output.
pub struct WinProcess {
    pub debug: bool,
}

impl WinProcess {
    pub fn new(debug: bool) -> (w: WinProcess)
        ensures
            w.debug == debug,
    {
        WinProcess { debug }
    }
}

/// The longest zero-free prefix of `s`.
pub open spec fn spec_zero_cut(s: Seq<u32>) -> Seq<u32>
    decreases s.len(),
{
    if s.len() == 0 || s[0] == 0 {
        Seq::empty()
    } else {
        seq![s[0]] + spec_zero_cut(s.drop_first())
    }
}

/// What enumeration filtering yields from a raw table: nothing when the
/// system call failed; otherwise the first entry — kept even when zero —
/// followed by the remaining entries up to, and not including, the first
/// zero among them.
pub open spec fn spec_filter_table(ok: bool, raw: Seq<u32>) -> Seq<u32> {
    if !ok || raw.len() == 0 {
        Seq::<u32>::empty()
    } else {
        seq![raw[0]] + spec_zero_cut(raw.drop_first())
    }
}

/// A zero-free prefix of length `k`, ended by a zero or by the end of
/// the sequence, is exactly what the zero cut keeps.
proof fn lemma_zero_cut_prefix(s: Seq<u32>, k: int)
    requires
        0 <= k <= s.len(),
        forall|j: int| 0 <= j < k ==> s[j] != 0,
        k < s.len() ==> s[k] == 0,
    ensures
        spec_zero_cut(s) == s.subrange(0, k),
    decreases k,
{
    if k == 0 {
        if s.len() == 0 || s[0] == 0 {
            assert(spec_zero_cut(s) =~= s.subrange(0, 0));
        } else {
            assert(s[0] == 0);
        }
    } else {
        assert(s[0] != 0);
        lemma_zero_cut_prefix(s.drop_first(), k - 1);
        assert(spec_zero_cut(s) == seq![s[0]] + s.drop_first().subrange(0, k - 1));
        assert(seq![s[0]] + s.drop_first().subrange(0, k - 1) =~= s.subrange(0, k));
    }
}

/// Filters the raw process table: `ok` is whether the enumeration call
/// succeeded, `raw` the buffer it filled.
pub fn filter_process_table(ok: bool, raw: &Vec<u32>) -> (r: Vec<u32>)
    ensures
        r@ == spec_filter_table(ok, raw@),
{
    let mut out: Vec<u32> = Vec::new();
    if !ok || raw.len() == 0 {
        proof {
            assert(out@ =~= spec_filter_table(ok, raw@));
        }
        return out;
    }
    out.push(raw[0]);
    let mut i: usize = 1;
    while i < raw.len() && raw[i] != 0
        invariant
            1 <= i <= raw@.len(),
            out@ == seq![raw@[0]] + raw@.subrange(1, i as int),
            forall|j: int| 1 <= j < i ==> raw@[j] != 0,
        decreases raw@.len() - i,
    {
        let v = raw[i];
        out.push(v);
        proof {
            assert(out@ =~= seq![raw@[0]] + raw@.subrange(1, i + 1));
        }
        i = i + 1;
    }
    proof {
        let tail = raw@.drop_first();
        lemma_zero_cut_prefix(tail, i - 1);
        assert(tail.subrange(0, i - 1) =~= raw@.subrange(1, i as int));
    }
    out
}

} // verus!
