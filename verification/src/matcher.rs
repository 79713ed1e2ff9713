//! Matching: deciding whether a resolved process name is a termination
//! target under the configured mode and fragment list.
//!
//! A name matches a fragment when the fragment occurs anywhere in the
//! lowercased name as a literal substring — not exact, not anchored, not
//! tokenized. Case folding is applied to the name only; the configured
//! fragments are consumed as-is (the schema keeps them lowercase).

use vstd::prelude::*;

use crate::config::{spec_mode_of, MatchMode, RunningConfig};
use crate::resolve::ProcessDescriptor;

verus! {

/// The characters that `str::to_lowercase` yields for a sequence of
/// characters: a function of the characters alone.
pub uninterp spec fn lower_of(s: Seq<char>) -> Seq<char>;

/// Relies on `str::to_lowercase`: the lowercase equivalent of a string,
/// a function of its characters alone.
#[verifier::external_body]
fn fold_lowercase(s: &str) -> (r: String)
    ensures
        r@ == lower_of(s@),
{
    s.to_lowercase()
}

/// The fragment occurs in the haystack starting at position `i`.
pub open spec fn frag_at(hay: Seq<char>, frag: Seq<char>, i: int) -> bool {
    0 <= i && i + frag.len() <= hay.len() && hay.subrange(i, i + frag.len()) == frag
}

/// The fragment occurs somewhere in the haystack as a literal substring.
pub open spec fn seq_contains_frag(hay: Seq<char>, frag: Seq<char>) -> bool {
    exists|i: int| frag_at(hay, frag, i)
}

/// Compares the fragment against the haystack characters starting at `i`.
fn frag_matches_at(hay: &str, frag: &str, i: usize) -> (r: bool)
    requires
        hay@.len() <= usize::MAX,
        i + frag@.len() <= hay@.len(),
    ensures
        r == frag_at(hay@, frag@, i as int),
{
    let m: usize = frag.unicode_len();
    let mut j: usize = 0;
    while j < m
        invariant
            m == frag@.len(),
            hay@.len() <= usize::MAX,
            i + m <= hay@.len(),
            j <= m,
            forall|k: int| 0 <= k < j ==> hay@[i + k] == frag@[k],
        decreases m - j,
    {
        if hay.get_char(i + j) != frag.get_char(j) {
            proof {
                assert(hay@.subrange(i as int, i + m) != frag@) by {
                    assert(hay@.subrange(i as int, i + m)[j as int] == hay@[i + j]);
                }
            }
            return false;
        }
        j = j + 1;
    }
    proof {
        assert(hay@.subrange(i as int, i + m) =~= frag@);
    }
    true
}

/// Decides whether the fragment occurs in the haystack as a literal
/// substring, scanning every starting position in order.
pub fn str_contains_frag(hay: &str, frag: &str) -> (r: bool)
    ensures
        r == seq_contains_frag(hay@, frag@),
{
    let n: usize = hay.unicode_len();
    let m: usize = frag.unicode_len();
    if m == 0 {
        proof {
            assert(hay@.subrange(0, 0) =~= frag@);
            assert(frag_at(hay@, frag@, 0));
        }
        return true;
    }
    if m > n {
        proof {
            assert(forall|i: int| !frag_at(hay@, frag@, i)) by {
                assert(forall|i: int| frag_at(hay@, frag@, i) ==> i + frag@.len()
                    <= hay@.len());
            }
        }
        return false;
    }
    let mut i: usize = 0;
    while i <= n - m
        invariant
            n == hay@.len(),
            m == frag@.len(),
            1 <= m <= n <= usize::MAX,
            i <= n - m + 1,
            forall|k: int| 0 <= k < i ==> !frag_at(hay@, frag@, k),
        decreases n - m + 1 - i,
    {
        if frag_matches_at(hay, frag, i) {
            proof {
                assert(frag_at(hay@, frag@, i as int));
            }
            return true;
        }
        i = i + 1;
    }
    proof {
        assert(forall|k: int| frag_at(hay@, frag@, k) ==> 0 <= k <= n - m);
    }
    false
}

/// A resolved name matches a fragment iff the fragment occurs in the
/// lowercased name as a literal substring.
pub open spec fn spec_name_matches(name: Seq<char>, frag: Seq<char>) -> bool {
    seq_contains_frag(lower_of(name), frag)
}

/// Decides whether a resolved name matches one configured fragment:
/// the name is folded to lowercase, then scanned for the fragment.
pub fn name_matches_fragment(name: &str, frag: &str) -> (r: bool)
    ensures
        r == spec_name_matches(name@, frag@),
{
    let folded = fold_lowercase(name);
    str_contains_frag(folded.as_str(), frag)
}

/// The character sequences of a list of configured fragments.
pub open spec fn spec_frags_of(l: Seq<String>) -> Seq<Seq<char>> {
    l.map_values(|s: String| s@)
}

/// A name is a termination target iff the mode is blacklist and some
/// configured fragment matches it. Whitelist mode terminates nothing;
/// which fragment matches — or how many do — never changes the answer.
pub open spec fn spec_is_target(mode: MatchMode, frags: Seq<Seq<char>>, name: Seq<char>) -> bool {
    mode == MatchMode::Blacklist && exists|k: int|
        0 <= k < frags.len() && spec_name_matches(name, frags[k])
}

/// Decides whether a resolved process is a termination target under the
/// given configuration.
pub fn is_target(desc: &ProcessDescriptor, config: &RunningConfig) -> (r: bool)
    ensures
        r == spec_is_target(
            spec_mode_of(config.mode@),
            spec_frags_of(config.proccess_list@),
            desc.name@,
        ),
{
    let mode = config.match_mode();
    match mode {
        MatchMode::Whitelist => false,
        MatchMode::Blacklist => {
            let ghost frags = spec_frags_of(config.proccess_list@);
            let mut k: usize = 0;
            while k < config.proccess_list.len()
                invariant
                    frags == spec_frags_of(config.proccess_list@),
                    spec_mode_of(config.mode@) == MatchMode::Blacklist,
                    k <= config.proccess_list@.len(),
                    forall|j: int| 0 <= j < k ==> !spec_name_matches(desc.name@, frags[j]),
                decreases config.proccess_list@.len() - k,
            {
                if name_matches_fragment(desc.name.as_str(), config.proccess_list[k].as_str()) {
                    proof {
                        assert(spec_name_matches(desc.name@, frags[k as int]));
                    }
                    return true;
                }
                k = k + 1;
            }
            false
        },
    }
}

/// Matching is insensitive to case differences: two names with the same
/// lowercase form match exactly the same fragments, because the decision
/// reads the name only through its folded form.
pub proof fn lemma_matching_case_insensitive(a: Seq<char>, b: Seq<char>, frag: Seq<char>)
    requires
        lower_of(a) == lower_of(b),
    ensures
        spec_name_matches(a, frag) == spec_name_matches(b, frag),
{
}

/// Target selection is likewise case-insensitive: names with the same
/// lowercase form are targets under exactly the same configurations.
pub proof fn lemma_target_case_insensitive(
    mode: MatchMode,
    frags: Seq<Seq<char>>,
    a: Seq<char>,
    b: Seq<char>,
)
    requires
        lower_of(a) == lower_of(b),
    ensures
        spec_is_target(mode, frags, a) == spec_is_target(mode, frags, b),
{
    assert forall|k: int| 0 <= k < frags.len() implies spec_name_matches(a, frags[k])
        == spec_name_matches(b, frags[k]) by {
        lemma_matching_case_insensitive(a, b, frags[k]);
    }
}

/// Matching is substring, not exact: a fragment that occurs anywhere in
/// the folded name makes the name a match, whether or not it equals the
/// whole name.
pub proof fn lemma_matching_is_substring(name: Seq<char>, frag: Seq<char>, i: int)
    requires
        frag_at(lower_of(name), frag, i),
    ensures
        spec_name_matches(name, frag),
{
}

} // verus!
