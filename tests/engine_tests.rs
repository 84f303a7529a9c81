use typos::checks::{file_outcome, visits, Checker};
use typos::engine::{resolve_for_type, walk_filters, ConfigEngine, ResolveError, WalkFilters};
use typos::policy::{PartialPolicy, ResolvedPolicy};
use typos::status::FileOutcome;
use typos::storage::{ConfigEntry, ConfigStorage, LoadError};

fn path(s: &str) -> Vec<String> {
    s.split('/').filter(|c| !c.is_empty()).map(|c| c.to_string()).collect()
}

fn words(ws: &[&str]) -> Vec<String> {
    ws.iter().map(|w| w.to_string()).collect()
}

fn flagging(ws: &[&str]) -> PartialPolicy {
    let mut p = PartialPolicy::empty();
    p.extend_words = Some(words(ws));
    p
}

fn checking(b: bool) -> PartialPolicy {
    let mut p = PartialPolicy::empty();
    p.check_file = Some(b);
    p
}

/// Resolves `dir`, answering each request for an ancestor's entry from
/// `configs` (absent where it has none).
fn resolve(engine: &ConfigEngine, store: &mut ConfigStorage, dir: &Vec<String>, configs: &[(&str, fn() -> PartialPolicy)]) -> Result<ResolvedPolicy, ResolveError> {
    loop {
        match engine.resolve_for_dir(store, dir) {
            Err(ResolveError::Unloaded(k)) => {
                let key: Vec<String> = dir[..k].to_vec();
                let entry = match configs.iter().find(|(p, _)| path(p) == key) {
                    Some((_, make)) => ConfigEntry::Parsed(make()),
                    None => ConfigEntry::Absent,
                };
                assert!(store.insert(key, entry));
            }
            other => return other,
        }
    }
}

fn repo_top() -> PartialPolicy {
    flagging(&["teh"])
}

fn repo_sub() -> PartialPolicy {
    flagging(&["recieve"])
}

#[test]
fn nearest_config_wins() {
    let engine = ConfigEngine::new();
    let mut store = ConfigStorage::new();
    let configs: [(&str, fn() -> PartialPolicy); 2] = [("/repo", repo_top), ("/repo/sub", repo_sub)];
    let p = resolve(&engine, &mut store, &path("/repo/sub/deep"), &configs).unwrap();
    assert_eq!(p.extend_words, words(&["recieve"]));
    // The farther configuration was never consulted.
    assert!(!store.contains(&path("/repo")));
    let top = resolve(&engine, &mut store, &path("/repo/other"), &configs).unwrap();
    assert_eq!(top.extend_words, words(&["teh"]));
}

#[test]
fn isolation_ignores_project_config() {
    let configs: [(&str, fn() -> PartialPolicy); 1] = [("/repo", repo_top)];
    let mut store = ConfigStorage::new();
    let mut engine = ConfigEngine::new();
    let open = resolve(&engine, &mut store, &path("/repo"), &configs).unwrap();
    assert_eq!(open.extend_words, words(&["teh"]));
    let tokens = words(&["teh"]);
    assert_eq!(file_outcome(Checker::Typos, &open, &tokens, false), FileOutcome { typo: true, error: false });
    engine.set_isolated(true);
    let isolated = resolve(&engine, &mut ConfigStorage::new(), &path("/repo"), &configs).unwrap();
    assert!(isolated.extend_words.is_empty());
    assert_eq!(file_outcome(Checker::Typos, &isolated, &tokens, false), FileOutcome { typo: false, error: false });
}

fn enable() -> PartialPolicy {
    checking(true)
}

#[test]
fn override_disables_checking_over_project_and_custom() {
    let mut engine = ConfigEngine::new();
    engine.set_custom_config(checking(true));
    engine.set_overrides(checking(false));
    let configs: [(&str, fn() -> PartialPolicy); 1] = [("/repo", enable)];
    let mut store = ConfigStorage::new();
    let dir = resolve(&engine, &mut store, &path("/repo/src"), &configs).unwrap();
    let py = resolve_for_type(&dir, &"py".to_string());
    assert!(!py.check_file);
    assert!(!visits(Checker::Typos, &py));
}

#[test]
fn lock_files_are_not_checked_by_default() {
    let engine = ConfigEngine::new();
    let mut store = ConfigStorage::new();
    let dir = resolve(&engine, &mut store, &path("/repo"), &[]).unwrap();
    let lock = resolve_for_type(&dir, &"lock".to_string());
    assert!(!lock.check_file);
    let mut flagged = lock.duplicate();
    flagged.extend_words = words(&["teh"]);
    let tokens = words(&["teh", "teh"]);
    for c in [Checker::Typos, Checker::FixTypos, Checker::DiffTypos, Checker::Words, Checker::Identifiers] {
        assert_eq!(file_outcome(c, &flagged, &tokens, true), FileOutcome { typo: false, error: false });
    }
    assert!(visits(Checker::FoundFiles, &lock));
    // A user's explicit setting wins over the built-in default.
    let mut forced = ConfigEngine::new();
    forced.set_overrides(checking(true));
    let dir = resolve(&forced, &mut ConfigStorage::new(), &path("/repo"), &[]).unwrap();
    assert!(resolve_for_type(&dir, &"lock".to_string()).check_file);
}

#[test]
fn type_overlay_extends_unless_user_set() {
    let engine = ConfigEngine::new();
    let dir = resolve(&engine, &mut ConfigStorage::new(), &path("/a"), &[]).unwrap();
    let rust = resolve_for_type(&dir, &"rust".to_string());
    assert_eq!(rust.ignore_identifiers, words(&["flate2"]));
    assert_eq!(rust.ignore_words, words(&["ser"]));
    let mut user = ConfigEngine::new();
    let mut o = PartialPolicy::empty();
    o.ignore_words = Some(words(&["foo"]));
    user.set_overrides(o);
    let dir = resolve(&user, &mut ConfigStorage::new(), &path("/a"), &[]).unwrap();
    let rust = resolve_for_type(&dir, &"rust".to_string());
    assert_eq!(rust.ignore_words, words(&["foo"]));
    assert_eq!(rust.ignore_identifiers, words(&["flate2"]));
}

#[test]
fn siblings_share_one_parse() {
    let engine = ConfigEngine::new();
    let mut store = ConfigStorage::new();
    let mut parses = 0;
    for i in 0..10 {
        let dir = path(&format!("/repo/d{}", i));
        loop {
            match engine.resolve_for_dir(&store, &dir) {
                Err(ResolveError::Unloaded(k)) => {
                    let key: Vec<String> = dir[..k].to_vec();
                    let entry = if key == path("/repo") {
                        parses += 1;
                        ConfigEntry::Parsed(repo_top())
                    } else {
                        ConfigEntry::Absent
                    };
                    store.insert(key, entry);
                }
                Ok(p) => {
                    assert_eq!(p.extend_words, words(&["teh"]));
                    break;
                }
                Err(e) => panic!("{:?}", e),
            }
        }
    }
    assert_eq!(parses, 1);
    // A second entry for a stored directory is refused.
    assert!(!store.insert(path("/repo"), ConfigEntry::Absent));
}

#[test]
fn resolution_is_idempotent() {
    let engine = ConfigEngine::new();
    let mut store = ConfigStorage::new();
    let configs: [(&str, fn() -> PartialPolicy); 1] = [("/repo", repo_top)];
    let first = resolve(&engine, &mut store, &path("/repo/x"), &configs).unwrap();
    let second = engine.resolve_for_dir(&store, &path("/repo/x")).unwrap();
    assert_eq!(first, second);
}

#[test]
fn broken_config_is_a_config_error() {
    let engine = ConfigEngine::new();
    let mut store = ConfigStorage::new();
    assert_eq!(engine.init_dir(&store, &path("/a")), Err(ResolveError::Unloaded(1)));
    store.insert(path("/a"), ConfigEntry::Failed(LoadError::Parse));
    assert_eq!(engine.init_dir(&store, &path("/a")), Err(ResolveError::Config(LoadError::Parse)));
    assert_eq!(engine.files(&store, &path("/a")), Err(ResolveError::Config(LoadError::Parse)));
}

#[test]
fn walk_filters_follow_policy() {
    let mut engine = ConfigEngine::new();
    let mut o = PartialPolicy::empty();
    o.ignore_hidden = Some(false);
    o.ignore_vcs = Some(false);
    engine.set_overrides(o);
    let mut store = ConfigStorage::new();
    store.insert(Vec::new(), ConfigEntry::Absent);
    let f = engine.files(&store, &Vec::new()).unwrap();
    assert_eq!(
        f,
        WalkFilters { ignore_hidden: false, ignore_dot: true, ignore_global: true, ignore_vcs: false, ignore_parent: true }
    );
    let p = engine.resolve_for_dir(&store, &Vec::new()).unwrap();
    assert_eq!(walk_filters(&p), f);
}

#[test]
fn merge_is_right_biased() {
    let mut lo = PartialPolicy::empty();
    lo.check_file = Some(true);
    lo.ignore_dot = Some(false);
    lo.ignore_words = Some(words(&["a"]));
    let mut hi = PartialPolicy::empty();
    hi.check_file = Some(false);
    hi.ignore_words = Some(words(&["b"]));
    lo.update(&hi);
    assert_eq!(lo.check_file, Some(false));
    assert_eq!(lo.ignore_dot, Some(false));
    assert_eq!(lo.ignore_words, Some(words(&["b"])));
    assert_eq!(lo.ignore_hidden, None);
    let r = ResolvedPolicy::from_partial(&lo);
    assert!(!r.check_file && r.check_file_explicit && !r.ignore_dot && r.ignore_hidden);
    assert!(r.ignore_words_explicit && !r.ignore_identifiers_explicit);
}
