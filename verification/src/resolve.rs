//! Identity resolution: building a process descriptor from the results of
//! the module-name and module-path queries.
//!
//! The queries themselves are operating-system calls made outside the
//! library; they hand over the raw UTF-16 buffer they filled, or nothing
//! when the query (or the handle acquisition before it) failed. Resolution
//! failure is not an error: the failed field becomes the sentinel `"none"`,
//! so downstream matching always has a defined input.

use vstd::prelude::*;

verus! {

/// A resolved process identity: the PID it was resolved for, the
/// executable's base name and its full path. A field whose query failed
/// holds the sentinel `"none"`, never an empty or absent value.
pub struct ProcessDescriptor {
    pub pid: u32,
    pub name: String,
    pub path: String,
}

/// The characters that lossy UTF-16 decoding yields for a sequence of
/// code units: a function of the units alone.
pub uninterp spec fn utf16_decoded(units: Seq<u16>) -> Seq<char>;

/// Relies on `String::from_utf16_lossy`: decodes UTF-16 code units,
/// substituting the replacement character for invalid data; the result
/// depends on the units alone.
#[verifier::external_body]
fn decode_utf16_units(units: &Vec<u16>) -> (r: String)
    ensures
        r@ == utf16_decoded(units@),
{
    String::from_utf16_lossy(units)
}

/// Relies on `String::push`: appends exactly the given character.
#[verifier::external_body]
fn push_char(s: &mut String, c: char)
    ensures
        final(s)@ == old(s)@.push(c),
{
    s.push(c);
}

/// A decoded module base name with every NUL character removed: module
/// query buffers are fixed-size and NUL-padded.
pub open spec fn spec_strip_nul(s: Seq<char>) -> Seq<char> {
    s.filter(|c: char| c != '\0')
}

/// Removes every NUL character from a decoded buffer.
fn strip_nul(s: &str) -> (r: String)
    ensures
        r@ == spec_strip_nul(s@),
{
    let n: usize = s.unicode_len();
    let mut r = String::new();
    let mut i: usize = 0;
    while i < n
        invariant
            n == s@.len(),
            i <= n,
            r@ == s@.subrange(0, i as int).filter(|c: char| c != '\0'),
        decreases n - i,
    {
        let c = s.get_char(i);
        proof {
            broadcast use vstd::seq_lib::group_filter_ensures;

            reveal_with_fuel(Seq::filter, 2);
            let pred = |ch: char| ch != '\0';
            let pre = s@.subrange(0, i as int);
            let ext = s@.subrange(0, i + 1);
            assert(ext =~= pre + seq![s@[i as int]]);
            Seq::filter_distributes_over_add(pre, seq![s@[i as int]], pred);
            assert(seq![s@[i as int]].drop_last() =~= Seq::<char>::empty());
            assert(seq![s@[i as int]].filter(pred) == if pred(s@[i as int]) {
                seq![s@[i as int]]
            } else {
                Seq::<char>::empty()
            });
        }
        if c != '\0' {
            push_char(&mut r, c);
            proof {
                assert(r@ =~= s@.subrange(0, i + 1).filter(|ch: char| ch != '\0'));
            }
        } else {
            proof {
                assert(r@ =~= s@.subrange(0, i + 1).filter(|ch: char| ch != '\0'));
            }
        }
        i = i + 1;
    }
    proof {
        assert(s@.subrange(0, n as int) =~= s@);
    }
    r
}

/// What name resolution yields for a query result: the sentinel when the
/// query failed, otherwise the decoded buffer with its NUL padding removed.
pub open spec fn spec_resolved_name(q: Option<Vec<u16>>) -> Seq<char> {
    match q {
        Option::None => "none"@,
        Option::Some(u) => spec_strip_nul(utf16_decoded(u@)),
    }
}

/// What path resolution yields for a query result: the sentinel when the
/// query failed, otherwise the decoded buffer as the query filled it.
pub open spec fn spec_resolved_path(q: Option<Vec<u16>>) -> Seq<char> {
    match q {
        Option::None => "none"@,
        Option::Some(u) => utf16_decoded(u@),
    }
}

/// Builds the descriptor for `pid` from the results of the two identity
/// queries. `None` stands for a failed query — including the case where
/// no handle could be acquired at all, in which both queries are `None`.
/// Each query fails independently; a failed field becomes `"none"`
/// without affecting the other.
pub fn resolve_descriptor(
    pid: u32,
    name_units: Option<Vec<u16>>,
    path_units: Option<Vec<u16>>,
) -> (d: ProcessDescriptor)
    ensures
        d.pid == pid,
        d.name@ == spec_resolved_name(name_units),
        d.path@ == spec_resolved_path(path_units),
{
    let name: String = match name_units {
        Option::Some(u) => {
            let decoded = decode_utf16_units(&u);
            strip_nul(decoded.as_str())
        },
        Option::None => String::from_str("none"),
    };
    let path: String = match path_units {
        Option::Some(u) => decode_utf16_units(&u),
        Option::None => String::from_str("none"),
    };
    ProcessDescriptor { pid, name, path }
}

/// A process that cannot be queried — e.g. a PID no longer present in
/// the process table, so that no handle can be acquired for it — resolves
/// to the sentinel descriptor rather than an error: both fields read
/// `"none"`.
pub proof fn lemma_unresolvable_process_gets_sentinel()
    ensures
        spec_resolved_name(Option::<Vec<u16>>::None) == "none"@,
        spec_resolved_path(Option::<Vec<u16>>::None) == "none"@,
{
}

} // verus!
