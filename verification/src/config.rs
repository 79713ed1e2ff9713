//! Running configuration: the match mode and the list of name fragments.

use vstd::prelude::*;

verus! {

/// The configuration consumed by the matcher: a mode string
/// (`"blacklist"` or `"whitelist"`) and an ordered list of lowercase
/// name fragments.
pub struct RunningConfig {
    pub mode: String,
    pub proccess_list: Vec<String>,
}

/// How the configured fragment list is interpreted.
///
/// In blacklist mode a fragment marks matching processes *for*
/// termination. The configuration schema also admits `"whitelist"`;
/// its termination semantics are deliberately conservative here:
/// whitelist mode terminates nothing.
#[derive(PartialEq, Eq, Structural)]
pub enum MatchMode {
    Blacklist,
    Whitelist,
}

/// The mode a configuration's mode string denotes. Every string other
/// than `"whitelist"` behaves as a blacklist.
pub open spec fn spec_mode_of(mode: Seq<char>) -> MatchMode {
    if mode == "whitelist"@ {
        MatchMode::Whitelist
    } else {
        MatchMode::Blacklist
    }
}

impl RunningConfig {
    /// The default configuration: blacklist mode with no fragments.
    pub fn new() -> (c: RunningConfig)
        ensures
            c.mode@ == "blacklist"@,
            c.proccess_list@ =~= Seq::<String>::empty(),
    {
        RunningConfig { mode: String::from_str("blacklist"), proccess_list: Vec::new() }
    }

    /// The mode this configuration selects.
    pub fn match_mode(&self) -> (m: MatchMode)
        ensures
            m == spec_mode_of(self.mode@),
    {
        let whitelist = String::from_str("whitelist");
        if self.mode == whitelist {
            MatchMode::Whitelist
        } else {
            MatchMode::Blacklist
        }
    }
}

} // verus!
