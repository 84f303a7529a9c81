use typos::checks::{find_typos, select_checker, silences_messages, single_threaded, working_dir, Checker};
use typos::policy::{PartialPolicy, ResolvedPolicy};
use typos::status::{classify, summarize, ExitClass, FileOutcome, OutcomeFlags, RootEvent, RunState};

fn flags(typos_found: bool, errors_found: bool) -> OutcomeFlags {
    OutcomeFlags { typos_found, errors_found }
}

#[test]
fn thread_count_does_not_change_flags() {
    let mut outcomes = vec![FileOutcome { typo: false, error: false }; 1000];
    for i in [7usize, 500, 999] {
        outcomes[i] = FileOutcome { typo: true, error: false };
    }
    let sequential = summarize(&outcomes);
    let mut interleaved = outcomes.clone();
    interleaved.reverse();
    interleaved.rotate_left(333);
    assert_eq!(sequential, flags(true, false));
    assert_eq!(summarize(&interleaved), sequential);
}

#[test]
fn error_takes_precedence_over_typos() {
    let mut run = RunState::start();
    run.step(RootEvent::Walked(flags(true, false)));
    run.step(RootEvent::Walked(flags(false, true)));
    assert_eq!(run.finish(), ExitClass::Failure);
    assert_eq!(run.finish().code(), 1);
    let mut other = RunState::start();
    other.step(RootEvent::Walked(flags(false, true)));
    other.step(RootEvent::Walked(flags(true, false)));
    assert_eq!(other.finish(), ExitClass::Failure);
}

#[test]
fn classification_and_codes() {
    assert_eq!(classify(flags(false, false)), ExitClass::Success);
    assert_eq!(classify(flags(true, false)), ExitClass::TyposFound);
    assert_eq!(classify(flags(true, true)), ExitClass::Failure);
    assert_eq!(ExitClass::Success.code(), 0);
    assert_eq!(ExitClass::TyposFound.code(), 2);
    assert_eq!(ExitClass::UsageError.code(), 64);
    assert_eq!(ExitClass::ConfigError.code(), 78);
    assert_ne!(ExitClass::TyposFound.code(), ExitClass::Failure.code());
}

#[test]
fn halting_events_end_the_run() {
    let mut run = RunState::start();
    run.step(RootEvent::Walked(flags(true, false)));
    run.step(RootEvent::BadConfig);
    assert!(run.is_halted());
    run.step(RootEvent::Walked(flags(false, true)));
    assert_eq!(run.finish(), ExitClass::ConfigError);
    let mut bad = RunState::start();
    bad.step(RootEvent::BadPath);
    assert_eq!(bad.finish(), ExitClass::UsageError);
    let mut walk = RunState::start();
    walk.step(RootEvent::WalkFailed(flags(false, false)));
    assert!(!walk.is_halted());
    walk.step(RootEvent::Walked(flags(false, false)));
    assert_eq!(walk.finish(), ExitClass::Failure);
}

#[test]
fn flags_only_rise() {
    let mut f = OutcomeFlags::new();
    f.record(FileOutcome { typo: true, error: false });
    f.record(FileOutcome { typo: false, error: false });
    assert!(f.typos_found() && !f.errors_found());
    f.absorb(flags(false, true));
    f.absorb(flags(false, false));
    assert_eq!(f, flags(true, true));
}

#[test]
fn checker_selection_order() {
    assert_eq!(select_checker(true, true, true, true, true), Checker::FoundFiles);
    assert_eq!(select_checker(false, true, true, false, false), Checker::Identifiers);
    assert_eq!(select_checker(false, false, true, true, false), Checker::Words);
    assert_eq!(select_checker(false, false, false, true, true), Checker::FixTypos);
    assert_eq!(select_checker(false, false, false, false, true), Checker::DiffTypos);
    assert_eq!(select_checker(false, false, false, false, false), Checker::Typos);
    assert!(silences_messages(Checker::DiffTypos));
    assert!(!silences_messages(Checker::Typos));
}

#[test]
fn walk_strategy_and_working_dir() {
    assert!(single_threaded(true, 8));
    assert!(single_threaded(false, 1));
    assert!(!single_threaded(false, 8));
    let root = vec!["repo".to_string(), "a.rs".to_string()];
    assert_eq!(working_dir(&root, true), vec!["repo".to_string()]);
    assert_eq!(working_dir(&root, false), root);
}

#[test]
fn typos_found_at_positions() {
    let mut p = PartialPolicy::empty();
    p.extend_words = Some(vec!["teh".to_string(), "recieve".to_string()]);
    p.ignore_identifiers = Some(vec!["recieve".to_string()]);
    let r = ResolvedPolicy::from_partial(&p);
    let tokens: Vec<String> = ["the", "teh", "recieve", "teh"].iter().map(|s| s.to_string()).collect();
    assert_eq!(find_typos(&r, &tokens), vec![1, 3]);
}
