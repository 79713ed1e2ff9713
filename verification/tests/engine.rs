use procstop::arguments::Arguments;
use procstop::config::{MatchMode, RunningConfig};
use procstop::cycle::{plan_cycle, CyclePlan};
use procstop::enumerate::{filter_process_table, WinProcess};
use procstop::handle::HandleGuard;
use procstop::matcher::{is_target, name_matches_fragment, str_contains_frag};
use procstop::resolve::{resolve_descriptor, ProcessDescriptor};
use procstop::terminate::{should_attempt_termination, should_report_intent, terminate_decision};

fn units(s: &str) -> Vec<u16> {
    s.encode_utf16().collect()
}

fn config(mode: &str, frags: &[&str]) -> RunningConfig {
    RunningConfig {
        mode: mode.to_string(),
        proccess_list: frags.iter().map(|f| f.to_string()).collect(),
    }
}

fn descriptor(pid: u32, name: &str) -> ProcessDescriptor {
    ProcessDescriptor {
        pid,
        name: name.to_string(),
        path: "none".to_string(),
    }
}

#[test]
fn unresolvable_pid_resolves_to_sentinel() {
    let d = resolve_descriptor(4242, None, None);
    assert_eq!(d.pid, 4242);
    assert_eq!(d.name, "none");
    assert_eq!(d.path, "none");
}

#[test]
fn resolution_failures_are_per_field() {
    let d = resolve_descriptor(7, Some(units("calc.exe")), None);
    assert_eq!(d.name, "calc.exe");
    assert_eq!(d.path, "none");

    let d = resolve_descriptor(7, None, Some(units("C:\\Windows\\calc.exe")));
    assert_eq!(d.name, "none");
    assert_eq!(d.path, "C:\\Windows\\calc.exe");
}

#[test]
fn resolved_name_drops_nul_padding() {
    let mut buf = units("calc.exe");
    buf.extend([0u16; 8]);
    let d = resolve_descriptor(7, Some(buf), None);
    assert_eq!(d.name, "calc.exe");
}

#[test]
fn resolved_name_drops_embedded_nuls() {
    let d = resolve_descriptor(7, Some(vec![99, 0, 97, 0, 0]), None);
    assert_eq!(d.name, "ca");
}

#[test]
fn matching_is_case_insensitive() {
    assert!(name_matches_fragment("Chrome.exe", "chrome"));
    assert!(name_matches_fragment("CHROME.EXE", "chrome"));
    assert!(name_matches_fragment("chrome.exe", "chrome"));
}

#[test]
fn matching_is_substring_not_exact() {
    assert!(name_matches_fragment("notchrome.exe", "chrome"));
    assert!(name_matches_fragment("chrome.exe", "chrome"));
    assert!(!name_matches_fragment("chrom.exe", "chrome"));
}

#[test]
fn substring_search_edges() {
    assert!(str_contains_frag("abc", ""));
    assert!(str_contains_frag("", ""));
    assert!(!str_contains_frag("ab", "abc"));
    assert!(str_contains_frag("abc", "abc"));
    assert!(str_contains_frag("xabcx", "abc"));
}

#[test]
fn blacklist_target_selection() {
    let cfg = config("blacklist", &["calc", "chrome"]);
    assert!(is_target(&descriptor(1, "Calculator calc.exe"), &cfg));
    assert!(is_target(&descriptor(2, "CHROME.exe"), &cfg));
    assert!(!is_target(&descriptor(3, "explorer.exe"), &cfg));
    assert!(!is_target(&descriptor(4, "none"), &cfg));
}

#[test]
fn whitelist_mode_targets_nothing() {
    let cfg = config("whitelist", &["calc"]);
    assert!(!is_target(&descriptor(1, "calc.exe"), &cfg));
}

#[test]
fn unknown_mode_behaves_as_blacklist() {
    let cfg = config("blocklist", &["calc"]);
    assert!(matches!(cfg.match_mode(), MatchMode::Blacklist));
    assert!(is_target(&descriptor(1, "calc.exe"), &cfg));
}

#[test]
fn enumeration_filter_fixture() {
    let raw: Vec<u32> = vec![0, 4, 8, 0, 0, 12];
    assert_eq!(filter_process_table(true, &raw), vec![0, 4, 8]);
}

#[test]
fn enumeration_failure_yields_empty_list() {
    let raw: Vec<u32> = vec![0, 4, 8, 0, 0, 12];
    assert_eq!(filter_process_table(false, &raw), Vec::<u32>::new());
}

#[test]
fn enumeration_filter_keeps_leading_zero_only() {
    assert_eq!(filter_process_table(true, &vec![0]), vec![0]);
    assert_eq!(filter_process_table(true, &vec![7, 0, 9]), vec![7]);
    assert_eq!(filter_process_table(true, &vec![5, 6]), vec![5, 6]);
    assert_eq!(filter_process_table(true, &Vec::new()), Vec::<u32>::new());
}

#[test]
fn dry_run_never_reports_success() {
    let args = Arguments { debug: false, disable_proc_termination: true, verbose: true };
    assert!(!should_attempt_termination(&args, true));
    assert!(should_report_intent(&args, true));

    let o = terminate_decision(31, "calc.exe".to_string(), true, true, Some(259), true);
    assert!(!o.succeeded);
    assert_eq!(o.exit_code_used, 0);
    assert_eq!(o.pid, 31);
    assert_eq!(o.name, "calc.exe");
}

#[test]
fn unobtainable_handle_fails_without_attempt() {
    let args = Arguments { debug: false, disable_proc_termination: false, verbose: true };
    assert!(!should_attempt_termination(&args, false));
    assert!(!should_report_intent(&args, false));

    let o = terminate_decision(31, "calc.exe".to_string(), false, false, None, false);
    assert!(!o.succeeded);
    assert_eq!(o.exit_code_used, 0);
}

#[test]
fn live_kill_uses_queried_exit_code() {
    let o = terminate_decision(31, "calc.exe".to_string(), false, true, Some(259), true);
    assert!(o.succeeded);
    assert_eq!(o.exit_code_used, 259);

    let o = terminate_decision(31, "calc.exe".to_string(), false, true, None, true);
    assert!(o.succeeded);
    assert_eq!(o.exit_code_used, 0);

    let o = terminate_decision(31, "calc.exe".to_string(), false, true, Some(259), false);
    assert!(!o.succeeded);
}

#[test]
fn blacklist_calc_cycle() {
    let cfg = config("blacklist", &["calc"]);
    let descs = vec![descriptor(1001, "calc.exe"), descriptor(1002, "explorer.exe")];
    match plan_cycle(&cfg, &descs) {
        CyclePlan::Matches(pairs) => assert_eq!(pairs, vec![(0, 0)]),
        CyclePlan::Unavailable => panic!("plan reported the table unavailable"),
    }

    let o = terminate_decision(1001, "calc.exe".to_string(), false, true, Some(259), true);
    assert!(o.succeeded);
    assert_eq!(o.name, "calc.exe");
    assert_eq!(o.pid, 1001);
}

#[test]
fn empty_table_is_unavailable() {
    let cfg = config("blacklist", &["calc"]);
    assert!(matches!(plan_cycle(&cfg, &Vec::new()), CyclePlan::Unavailable));
}

#[test]
fn scan_order_is_per_fragment_then_per_process() {
    let cfg = config("blacklist", &["a", "b"]);
    let descs = vec![descriptor(1, "abc"), descriptor(2, "bcd")];
    match plan_cycle(&cfg, &descs) {
        CyclePlan::Matches(pairs) => assert_eq!(pairs, vec![(0, 0), (1, 0), (1, 1)]),
        CyclePlan::Unavailable => panic!("plan reported the table unavailable"),
    }
}

#[test]
fn plan_agrees_with_matcher() {
    let cfg = config("blacklist", &["calc", "exp"]);
    let descs = vec![
        descriptor(1, "calc.exe"),
        descriptor(2, "explorer.exe"),
        descriptor(3, "svchost.exe"),
    ];
    match plan_cycle(&cfg, &descs) {
        CyclePlan::Matches(pairs) => {
            for (j, d) in descs.iter().enumerate() {
                let planned = pairs.iter().any(|&(_, pj)| pj == j);
                assert_eq!(planned, is_target(d, &cfg));
            }
        }
        CyclePlan::Unavailable => panic!("plan reported the table unavailable"),
    }
}

#[test]
fn whitelist_cycle_plans_nothing() {
    let cfg = config("whitelist", &["calc"]);
    let descs = vec![descriptor(1001, "calc.exe")];
    match plan_cycle(&cfg, &descs) {
        CyclePlan::Matches(pairs) => assert!(pairs.is_empty()),
        CyclePlan::Unavailable => panic!("plan reported the table unavailable"),
    }
}

#[test]
fn default_config_is_empty_blacklist() {
    let cfg = RunningConfig::new();
    assert_eq!(cfg.mode, "blacklist");
    assert!(cfg.proccess_list.is_empty());
    assert!(matches!(cfg.match_mode(), MatchMode::Blacklist));
}

#[test]
fn default_arguments_are_all_off() {
    let args = Arguments::default();
    assert!(!args.debug);
    assert!(!args.disable_proc_termination);
    assert!(!args.verbose);
}

#[test]
fn win_process_carries_debug_flag() {
    assert!(WinProcess::new(true).debug);
    assert!(!WinProcess::new(false).debug);
}

#[test]
fn handle_guard_tracks_one_release() {
    let mut g = HandleGuard::acquire(55, 0x0001);
    assert_eq!(g.pid(), 55);
    assert_eq!(g.access(), 0x0001);
    g.release();
    assert_eq!(g.pid(), 55);
}
