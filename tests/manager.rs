use modmgr::disk::{step_failed, FsOp, Snapshot};
use modmgr::error::{Dependency, ManagerError};
use modmgr::manager::SetupManager;
use modmgr::model::{Mod, Setup};
use modmgr::naming::{numbered, to_decimal};
use modmgr::paths::{is_valid_name, join, place_path, Place};

fn strings(v: &[&str]) -> Vec<String> {
    v.iter().map(|s| s.to_string()).collect()
}

fn setup(name: &str, mods: &[&str]) -> Setup {
    Setup::new(
        name.to_string(),
        mods.iter().map(|m| Mod { name: m.to_string() }).collect(),
    )
}

fn install(setups: Vec<Setup>, plugins: &[&str], backup: Option<&[&str]>) -> Snapshot {
    Snapshot {
        bepinex: true,
        modmgr: true,
        setups,
        plugins: Some(strings(plugins)),
        backup: backup.map(strings),
    }
}

fn empty_root() -> Snapshot {
    Snapshot { bepinex: false, modmgr: false, setups: vec![], plugins: None, backup: None }
}

fn sorted(mut v: Vec<String>) -> Vec<String> {
    v.sort();
    v.dedup();
    v
}

fn mods_of(s: &Setup) -> Vec<String> {
    sorted(s.mods.iter().map(|m| m.name.clone()).collect())
}

fn take(d: &mut Snapshot, p: &Place) -> Option<Vec<String>> {
    match p {
        Place::ModMgr => None,
        Place::Setup(n) => {
            let i = d.setups.iter().position(|s| &s.name == n)?;
            Some(mods_of(&d.setups.remove(i)))
        }
        Place::Plugins => d.plugins.take(),
        Place::Backup => d.backup.take(),
    }
}

fn peek(d: &Snapshot, p: &Place) -> Option<Vec<String>> {
    let mut c = Snapshot {
        bepinex: d.bepinex,
        modmgr: d.modmgr,
        setups: d.setups.clone(),
        plugins: d.plugins.clone(),
        backup: d.backup.clone(),
    };
    take(&mut c, p)
}

fn put(d: &mut Snapshot, p: &Place, c: Vec<String>) {
    match p {
        Place::ModMgr => d.modmgr = true,
        Place::Setup(n) => {
            let names: Vec<&str> = c.iter().map(|s| s.as_str()).collect();
            d.setups.push(setup(n, &names));
        }
        Place::Plugins => d.plugins = Some(sorted(c)),
        Place::Backup => d.backup = Some(sorted(c)),
    }
}

/// Performs the steps on an in-memory installation, as a filesystem would.
fn run(d: &mut Snapshot, ops: &[FsOp]) {
    for op in ops {
        match op {
            FsOp::CreateDir(p) => {
                assert!(peek(d, p).is_none());
                put(d, p, vec![]);
            }
            FsOp::RemoveAll(p) => {
                assert!(take(d, p).is_some());
            }
            FsOp::Rename(a, b) => {
                let c = take(d, a).expect("rename source exists");
                put(d, b, c);
            }
            FsOp::CopyInto(a, b) => {
                let mut c = peek(d, a).expect("copy source exists");
                if let Some(old) = take(d, b) {
                    c.extend(old);
                }
                put(d, b, c);
            }
        }
    }
}

fn refreshed(m: &mut SetupManager, d: &Snapshot) {
    let copy = Snapshot {
        bepinex: d.bepinex,
        modmgr: d.modmgr,
        setups: d.setups.clone(),
        plugins: d.plugins.clone(),
        backup: d.backup.clone(),
    };
    assert!(copy.is_wf());
    m.update(copy);
}

fn names(m: &SetupManager) -> Vec<String> {
    sorted(m.setups.iter().map(|s| s.name.clone()).collect())
}

#[test]
fn create_then_list_has_empty_setup() {
    let mut m = SetupManager::new("/game".to_string(), false);
    let mut d = install(vec![setup("a", &["x"])], &[], None);
    refreshed(&mut m, &d);
    let ops = m.create_setup(&"fresh".to_string(), &d).unwrap();
    run(&mut d, &ops);
    refreshed(&mut m, &d);
    assert_eq!(names(&m), strings(&["a", "fresh"]));
    let s = m.get_setup(&"fresh".to_string(), &d).unwrap();
    assert!(s.mods.is_empty());
    let listed = m.get_setups(d).unwrap();
    assert!(listed.iter().any(|s| s.name == "fresh" && s.mods.is_empty()));
}

#[test]
fn create_makes_modmgr_first_when_absent() {
    let m = SetupManager::new("/game".to_string(), false);
    let mut d = Snapshot { bepinex: true, modmgr: false, setups: vec![], plugins: None, backup: None };
    let ops = m.create_setup(&"s".to_string(), &d).unwrap();
    assert_eq!(ops.len(), 2);
    assert!(matches!(ops[0], FsOp::CreateDir(Place::ModMgr)));
    run(&mut d, &ops);
    assert!(d.modmgr);
    assert_eq!(d.setups.len(), 1);
}

#[test]
fn create_existing_name_fails_and_plans_nothing() {
    let mut m = SetupManager::new("/game".to_string(), false);
    let d = install(vec![setup("a", &["x", "y"])], &[], None);
    refreshed(&mut m, &d);
    let r = m.create_setup(&"a".to_string(), &d);
    assert!(matches!(r, Err(ManagerError::AlreadyExists)));
    assert_eq!(mods_of(&d.setups[0]), strings(&["x", "y"]));
}

#[test]
fn create_rejects_names_that_are_not_one_entry() {
    let m = SetupManager::new("/game".to_string(), false);
    let d = install(vec![], &[], None);
    for bad in ["", ".", "..", "a/b", "a\\b"] {
        let r = m.create_setup(&bad.to_string(), &d);
        assert!(matches!(r, Err(ManagerError::IoError(_))), "{bad}");
    }
}

#[test]
fn rename_then_lookup() {
    let mut m = SetupManager::new("/game".to_string(), false);
    let mut d = install(vec![setup("a", &["m1"])], &[], None);
    refreshed(&mut m, &d);
    let ops = m.edit_setup(&"a".to_string(), &"b".to_string(), &d).unwrap();
    run(&mut d, &ops);
    refreshed(&mut m, &d);
    let b = m.get_setup(&"b".to_string(), &d).unwrap();
    assert_eq!(mods_of(b), strings(&["m1"]));
    assert!(matches!(m.get_setup(&"a".to_string(), &d), Err(ManagerError::NotFound)));
}

#[test]
fn rename_unknown_setup_is_not_found() {
    let m = SetupManager::new("/game".to_string(), false);
    let d = install(vec![], &[], None);
    let r = m.edit_setup(&"a".to_string(), &"b".to_string(), &d);
    assert!(matches!(r, Err(ManagerError::NotFound)));
}

#[test]
fn remove_then_lookup_is_not_found() {
    let mut m = SetupManager::new("/game".to_string(), false);
    let mut d = install(vec![setup("a", &["m"]), setup("b", &[])], &[], None);
    refreshed(&mut m, &d);
    let ops = m.remove_setup(&"a".to_string(), &d).unwrap();
    run(&mut d, &ops);
    refreshed(&mut m, &d);
    assert!(matches!(m.get_setup(&"a".to_string(), &d), Err(ManagerError::NotFound)));
    assert!(d.setups.iter().all(|s| s.name != "a"));
    assert_eq!(names(&m), strings(&["b"]));
}

#[test]
fn lookup_of_stale_cache_entry_is_not_found() {
    let mut m = SetupManager::new("/game".to_string(), false);
    let d = install(vec![setup("a", &[])], &[], None);
    refreshed(&mut m, &d);
    let gone = install(vec![], &[], None);
    assert!(matches!(m.get_setup(&"a".to_string(), &gone), Err(ManagerError::NotFound)));
    assert!(matches!(m.remove_setup(&"a".to_string(), &gone), Err(ManagerError::NotFound)));
}

#[test]
fn copy_load_merges_and_keeps_source() {
    let mut m = SetupManager::new("/game".to_string(), true);
    let mut d = install(vec![setup("s", &["new", "both"])], &["old", "both"], Some(&["ancient"]));
    refreshed(&mut m, &d);
    let ops = m.load_setup(&"s".to_string(), &d).unwrap();
    assert_eq!(ops.len(), 3);
    assert!(matches!(ops[0], FsOp::RemoveAll(Place::Backup)));
    run(&mut d, &ops);
    assert_eq!(d.plugins, Some(strings(&["both", "new", "old"])));
    assert_eq!(d.backup, Some(strings(&["both", "old"])));
    assert_eq!(mods_of(&d.setups[0]), strings(&["both", "new"]));
    refreshed(&mut m, &d);
    assert!(m.get_setup(&"s".to_string(), &d).is_ok());
}

#[test]
fn move_load_swaps_directories() {
    let mut m = SetupManager::new("/game".to_string(), false);
    let mut d = install(vec![setup("s", &["new"])], &["old"], Some(&["ancient"]));
    refreshed(&mut m, &d);
    let ops = m.load_setup(&"s".to_string(), &d).unwrap();
    assert_eq!(ops.len(), 3);
    run(&mut d, &ops);
    assert!(d.setups.is_empty());
    assert_eq!(d.plugins, Some(strings(&["new"])));
    assert_eq!(d.backup, Some(strings(&["old"])));
}

#[test]
fn move_load_without_backup_skips_removal() {
    let mut m = SetupManager::new("/game".to_string(), false);
    let mut d = install(vec![setup("s", &["new"])], &["old"], None);
    refreshed(&mut m, &d);
    let ops = m.load_setup(&"s".to_string(), &d).unwrap();
    assert_eq!(ops.len(), 2);
    run(&mut d, &ops);
    assert_eq!(d.plugins, Some(strings(&["new"])));
    assert_eq!(d.backup, Some(strings(&["old"])));
}

#[test]
fn load_without_plugins_is_missing_dependency() {
    let mut m = SetupManager::new("/game".to_string(), false);
    let d = Snapshot {
        bepinex: true,
        modmgr: true,
        setups: vec![setup("s", &[])],
        plugins: None,
        backup: None,
    };
    refreshed(&mut m, &d);
    let r = m.load_setup(&"s".to_string(), &d);
    assert!(matches!(r, Err(ManagerError::MissingDependency(Dependency::Plugins))));
    assert!(matches!(m.plugin_dir(&d), Err(ManagerError::MissingDependency(Dependency::Plugins))));
    assert!(matches!(
        m.load_setup(&"t".to_string(), &d),
        Err(ManagerError::MissingDependency(Dependency::Plugins))
    ));
    let with_plugins = install(vec![setup("s", &[])], &[], None);
    assert!(matches!(m.load_setup(&"t".to_string(), &with_plugins), Err(ManagerError::NotFound)));
}

#[test]
fn load_without_bepinex_is_missing_dependency() {
    let m = SetupManager::new("/nowhere".to_string(), true);
    let r = m.load_setup(&"s".to_string(), &empty_root());
    assert!(matches!(r, Err(ManagerError::MissingDependency(Dependency::BepInEx))));
}

#[test]
fn root_without_bepinex_lists_nothing() {
    let mut m = SetupManager::new("/nowhere".to_string(), false);
    let d = empty_root();
    refreshed(&mut m, &d);
    assert!(m.setups.is_empty());
    let r = m.create_setup(&"New Setup".to_string(), &d);
    assert!(matches!(r, Err(ManagerError::MissingDependency(Dependency::BepInEx))));
    assert!(matches!(m.get_setups(empty_root()), Err(ManagerError::MissingDependency(Dependency::BepInEx))));
    assert!(matches!(m.modmgr_dir(&d), Err(ManagerError::MissingDependency(Dependency::BepInEx))));
}

#[test]
fn unique_name_after_two_defaults() {
    let mut m = SetupManager::new("/game".to_string(), false);
    let d = install(vec![setup("New Setup", &[]), setup("New Setup (1)", &[])], &[], None);
    refreshed(&mut m, &d);
    assert_eq!(m.new_setup_name(), "New Setup (2)");
}

#[test]
fn unique_name_defaults() {
    let mut m = SetupManager::new("/game".to_string(), false);
    assert_eq!(m.new_setup_name(), "New Setup");
    let d = install(vec![setup("New Setup", &[]), setup("New Setup (2)", &[])], &[], None);
    refreshed(&mut m, &d);
    assert_eq!(m.new_setup_name(), "New Setup (1)");
    let mut many = vec![setup("New Setup", &[])];
    for i in 1..=12 {
        many.push(setup(&format!("New Setup ({i})"), &[]));
    }
    refreshed(&mut m, &install(many, &[], None));
    assert_eq!(m.new_setup_name(), "New Setup (13)");
}

#[test]
fn paths_of_places() {
    let root = "/game".to_string();
    assert_eq!(place_path(&root, &Place::ModMgr), "/game/BepInEx/ModMgr");
    assert_eq!(place_path(&root, &Place::Setup("s 1".to_string())), "/game/BepInEx/ModMgr/s 1");
    assert_eq!(place_path(&root, &Place::Plugins), "/game/BepInEx/plugins");
    assert_eq!(place_path(&root, &Place::Backup), "/game/BepInEx/plugins.old");
    assert_eq!(join(&"C:\\g\\".to_string(), "x"), "C:\\g\\x");
    assert_eq!(join(&"".to_string(), "x"), "x");
    let m = SetupManager::new(root, false);
    let d = install(vec![], &[], None);
    assert_eq!(m.plugin_dir(&d).unwrap(), "/game/BepInEx/plugins");
    assert_eq!(m.modmgr_dir(&d).unwrap(), "/game/BepInEx/ModMgr");
    assert_eq!(m.get_setup_path(&setup("a", &[]), &d).unwrap(), "/game/BepInEx/ModMgr/a");
}

#[test]
fn names_valid_and_not() {
    assert!(is_valid_name(&"New Setup (3)".to_string()));
    assert!(is_valid_name(&"...".to_string()));
    assert!(!is_valid_name(&"..".to_string()));
}

#[test]
fn step_failures_name_the_stage() {
    let why = "denied".to_string();
    let e = step_failed(&FsOp::RemoveAll(Place::Backup), &why);
    assert_eq!(e.message(), "Failed to remove Backup! denied");
    let e = step_failed(&FsOp::Rename(Place::Plugins, Place::Backup), &why);
    assert_eq!(e.message(), "Backup failed! denied");
    let e = step_failed(&FsOp::Rename(Place::Setup("s".to_string()), Place::Plugins), &why);
    assert_eq!(e.message(), "Loading failed! denied");
    let e = step_failed(&FsOp::RemoveAll(Place::Setup("s".to_string())), &why);
    assert_eq!(e.message(), "denied");
    assert_eq!(ManagerError::NotFound.message(), "Couldn't find setup!");
    assert_eq!(ManagerError::MissingDependency(Dependency::BepInEx).message(), "BepInEx not found!");
}

#[test]
fn config_keys() {
    let mut m = SetupManager::new("/a".to_string(), false);
    assert!(m.set_config(Some("/b".to_string()), Some("true".to_string())));
    assert_eq!(m.path, "/b");
    assert!(m.windows_copy);
    assert!(!m.set_config(None, Some("yes".to_string())));
    assert!(m.windows_copy);
    m.set_config(None, Some("false".to_string()));
    assert!(!m.windows_copy);
}

#[test]
fn snapshot_with_duplicate_names_is_refused() {
    let d = install(vec![setup("a", &[]), setup("a", &["x"])], &[], None);
    assert!(!d.is_wf());
    let bad = Snapshot { bepinex: false, modmgr: true, setups: vec![], plugins: None, backup: None };
    assert!(!bad.is_wf());
    let dup_mods = install(vec![setup("a", &["x", "x"])], &[], None);
    assert!(!dup_mods.is_wf());
    let odd_name = install(vec![setup("a/b", &[])], &[], None);
    assert!(!odd_name.is_wf());
    assert!(install(vec![setup("a", &["x", "y"]), setup("b", &["x"])], &[], None).is_wf());
}

#[test]
fn rename_and_load_not_found_texts() {
    assert_eq!(ManagerError::NotFound.rename_message(), "Couldn't find setup");
    assert_eq!(ManagerError::NotFound.message(), "Couldn't find setup!");
    assert_eq!(ManagerError::AlreadyExists.rename_message(), "Setup already exists!");
}

#[test]
fn prepare_modmgr_creates_it_only_when_absent() {
    let m = SetupManager::new("/game".to_string(), false);
    let mut d = Snapshot { bepinex: true, modmgr: false, setups: vec![], plugins: None, backup: None };
    let ops = m.prepare_modmgr(&d).unwrap();
    assert_eq!(ops.len(), 1);
    assert!(matches!(ops[0], FsOp::CreateDir(Place::ModMgr)));
    run(&mut d, &ops);
    assert!(d.modmgr);
    assert!(m.prepare_modmgr(&d).unwrap().is_empty());
    assert!(matches!(
        m.prepare_modmgr(&empty_root()),
        Err(ManagerError::MissingDependency(Dependency::BepInEx))
    ));
}

#[test]
fn rename_plan_is_one_step() {
    let mut m = SetupManager::new("/game".to_string(), false);
    let d = install(vec![setup("a", &[]), setup("b", &["kept"])], &[], None);
    refreshed(&mut m, &d);
    let ops = m.edit_setup(&"a".to_string(), &"b".to_string(), &d).unwrap();
    assert_eq!(ops.len(), 1);
    assert!(matches!(&ops[0], FsOp::Rename(Place::Setup(x), Place::Setup(y)) if x == "a" && y == "b"));
}

#[test]
fn decimal_names() {
    assert_eq!(to_decimal(0), "0");
    assert_eq!(to_decimal(7), "7");
    assert_eq!(to_decimal(10), "10");
    assert_eq!(to_decimal(1204), "1204");
    assert_eq!(to_decimal(u64::MAX), "18446744073709551615");
    assert_eq!(numbered(2), "New Setup (2)");
}

#[test]
fn modmgr_creation_failure_names_the_folder() {
    let e = step_failed(&FsOp::CreateDir(Place::ModMgr), &"denied".to_string());
    assert_eq!(e.message(), "Couldn't create ModMgr folder! denied");
}
