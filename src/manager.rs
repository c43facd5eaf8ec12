use vstd::prelude::*;
use crate::disk::{DiskModel, FsOp, Snapshot, apply_all, or_empty, runs};
use crate::error::{Dependency, ManagerError};
use crate::model::{Setup, distinct_mods, distinct_names, find_setup, lemma_setup_map_index, mod_set, setup_map};
use crate::paths::{Place, is_valid_name, place_path, place_path_spec, valid_name};

verus! {

/// The setups a refresh finds in `d`: none when the mod loader is absent.
pub open spec fn listed(d: DiskModel) -> Map<Seq<char>, Set<Seq<char>>> {
    if d.bepinex {
        d.setups
    } else {
        Map::empty()
    }
}

/// A lookup of `name` succeeds: the cache holds it and its directory exists.
pub open spec fn found(cache: Map<Seq<char>, Set<Seq<char>>>, d: DiskModel, name: Seq<char>) -> bool {
    cache.contains_key(name) && d.setups.contains_key(name)
}

/// A setup named `name` can be created in `d`.
pub open spec fn can_create(d: DiskModel, name: Seq<char>) -> bool {
    d.bepinex && valid_name(name) && !d.setups.contains_key(name)
}

/// `d` with `ModMgr` present.
pub open spec fn with_modmgr(d: DiskModel) -> DiskModel {
    DiskModel { modmgr: true, ..d }
}

/// `d` after creating the empty setup `name` (and `ModMgr`, where absent).
pub open spec fn created(d: DiskModel, name: Seq<char>) -> DiskModel {
    DiskModel { modmgr: true, setups: d.setups.insert(name, Set::empty()), ..d }
}

/// `d` after renaming the setup `a` to `b`.
pub open spec fn renamed(d: DiskModel, a: Seq<char>, b: Seq<char>) -> DiskModel {
    DiskModel { setups: d.setups.remove(a).insert(b, d.setups[a]), ..d }
}

/// `d` after removing the setup `name` with all it holds.
pub open spec fn removed(d: DiskModel, name: Seq<char>) -> DiskModel {
    DiskModel { setups: d.setups.remove(name), ..d }
}

/// `d` after a copy-mode load of `name`: the live plugins are copied into
/// the emptied backup slot, then the setup's entries are copied over them.
pub open spec fn loaded_by_copy(d: DiskModel, name: Seq<char>) -> DiskModel {
    DiskModel {
        backup: Some(or_empty(d.plugins)),
        plugins: Some(or_empty(d.plugins).union(d.setups[name])),
        ..d
    }
}

/// `d` after a move-mode load of `name`: the live plugins become the backup
/// and the setup's directory becomes the live plugins.
pub open spec fn loaded_by_move(d: DiskModel, name: Seq<char>) -> DiskModel {
    DiskModel {
        setups: d.setups.remove(name),
        plugins: Some(d.setups[name]),
        backup: d.plugins,
        ..d
    }
}

/// The steps that create `ModMgr` where it is absent.
pub open spec fn modmgr_plan(d: DiskModel) -> Seq<FsOp> {
    if d.modmgr {
        seq![]
    } else {
        seq![FsOp::CreateDir(Place::ModMgr)]
    }
}

/// The steps that create the setup `name`, after `ModMgr` where absent.
pub open spec fn create_plan(d: DiskModel, name: String) -> Seq<FsOp> {
    modmgr_plan(d) + seq![FsOp::CreateDir(Place::Setup(name))]
}

/// The step that renames the setup `a` to `b`.
pub open spec fn rename_plan(a: String, b: String) -> Seq<FsOp> {
    seq![FsOp::Rename(Place::Setup(a), Place::Setup(b))]
}

/// The step that removes the setup `name`.
pub open spec fn remove_plan(name: String) -> Seq<FsOp> {
    seq![FsOp::RemoveAll(Place::Setup(name))]
}

/// The step that empties the backup slot, where it exists.
pub open spec fn backup_removal(d: DiskModel) -> Seq<FsOp> {
    if d.backup is Some {
        seq![FsOp::RemoveAll(Place::Backup)]
    } else {
        seq![]
    }
}

/// A copy-mode load: empty the backup slot, copy the live plugins into it,
/// then copy the setup over the live plugins.
pub open spec fn copy_load_plan(d: DiskModel, name: String) -> Seq<FsOp> {
    backup_removal(d) + seq![
        FsOp::CopyInto(Place::Plugins, Place::Backup),
        FsOp::CopyInto(Place::Setup(name), Place::Plugins),
    ]
}

/// A move-mode load: empty the backup slot, rename the live plugins to it,
/// then rename the setup to the live plugins.
pub open spec fn move_load_plan(d: DiskModel, name: String) -> Seq<FsOp> {
    backup_removal(d) + seq![
        FsOp::Rename(Place::Plugins, Place::Backup),
        FsOp::Rename(Place::Setup(name), Place::Plugins),
    ]
}

/// The manager: the installation root, the load strategy, and the last
/// known list of setups.
pub struct SetupManager {
    /// The game installation's root directory.
    pub path: String,
    /// Load by copying (`true`) or by moving directories (`false`).
    pub windows_copy: bool,
    /// The setups found by the last refresh; not authoritative.
    pub setups: Vec<Setup>,
}

impl SetupManager {
    /// The cache holds each name once.
    pub open spec fn wf(&self) -> bool {
        distinct_names(self.setups@)
    }

    /// The cache as a map from setup name to mod names.
    pub open spec fn cache(&self) -> Map<Seq<char>, Set<Seq<char>>> {
        setup_map(self.setups@)
    }

    /// A manager for the installation at `path`, with nothing cached yet.
    pub fn new(path: String, windows_copy: bool) -> (r: SetupManager)
        ensures
            r.wf(),
            r.path@ == path@,
            r.windows_copy == windows_copy,
            r.setups@.len() == 0,
    {
        SetupManager { path, windows_copy, setups: Vec::new() }
    }

    /// The directory of saved setups, `<root>/BepInEx/ModMgr`; the mod
    /// loader's directory must exist. Where `ModMgr` itself is absent, the
    /// plans that need it create it first.
    pub fn modmgr_dir(&self, disk: &Snapshot) -> (r: Result<String, ManagerError>)
        ensures
            disk.bepinex ==> (r matches Ok(p) && p@ == place_path_spec(self.path@, Place::ModMgr)),
            !disk.bepinex ==> r matches Err(ManagerError::MissingDependency(Dependency::BepInEx)),
    {
        if !disk.bepinex {
            return Err(ManagerError::MissingDependency(Dependency::BepInEx));
        }
        Ok(place_path(&self.path, &Place::ModMgr))
    }

    /// The live plugin directory, `<root>/BepInEx/plugins`; it must exist.
    pub fn plugin_dir(&self, disk: &Snapshot) -> (r: Result<String, ManagerError>)
        ensures
            !disk.bepinex ==> r matches Err(ManagerError::MissingDependency(Dependency::BepInEx)),
            disk.bepinex && disk.plugins is None ==> r matches Err(
                ManagerError::MissingDependency(Dependency::Plugins),
            ),
            disk.bepinex && disk.plugins is Some ==> (r matches Ok(p) && p@ == place_path_spec(
                self.path@,
                Place::Plugins,
            )),
    {
        if !disk.bepinex {
            return Err(ManagerError::MissingDependency(Dependency::BepInEx));
        }
        if disk.plugins.is_none() {
            return Err(ManagerError::MissingDependency(Dependency::Plugins));
        }
        Ok(place_path(&self.path, &Place::Plugins))
    }

    /// The setups on disk; fails where the mod loader's directory is absent.
    pub fn get_setups(&self, disk: Snapshot) -> (r: Result<Vec<Setup>, ManagerError>)
        ensures
            !disk.bepinex ==> r matches Err(ManagerError::MissingDependency(Dependency::BepInEx)),
            disk.bepinex ==> (r matches Ok(v) && v@ == disk.setups@),
            disk.wf() ==> (r matches Ok(v) ==> forall|i: int|
                0 <= i < v@.len() ==> valid_name(#[trigger] v@[i].name@) && distinct_mods(
                    v@[i].mods@,
                )),
    {
        if !disk.bepinex {
            return Err(ManagerError::MissingDependency(Dependency::BepInEx));
        }
        Ok(disk.setups)
    }

    /// Replaces the cache with the setups on disk, or with none where they
    /// cannot be listed.
    pub fn update(&mut self, disk: Snapshot)
        requires
            disk.wf(),
        ensures
            final(self).wf(),
            final(self).cache() == listed(disk@),
            final(self).path == old(self).path,
            final(self).windows_copy == old(self).windows_copy,
    {
        let ghost d = disk@;
        self.setups = match self.get_setups(disk) {
            Ok(v) => v,
            Err(_) => Vec::new(),
        };
        assert(self.cache() =~= listed(d));
    }

    /// The cached setup `name`, where its directory still exists.
    pub fn get_setup(&self, name: &String, disk: &Snapshot) -> (r: Result<&Setup, ManagerError>)
        requires
            self.wf(),
        ensures
            r is Ok <==> found(self.cache(), disk@, name@),
            r matches Ok(s) ==> (s.name@ == name@ && mod_set(s.mods@) == self.cache()[name@]),
            r matches Err(e) ==> e is NotFound,
    {
        match find_setup(&self.setups, name) {
            None => Err(ManagerError::NotFound),
            Some(i) => {
                if find_setup(&disk.setups, name).is_none() {
                    return Err(ManagerError::NotFound);
                }
                proof {
                    lemma_setup_map_index(self.setups@, i as int);
                }
                Ok(&self.setups[i])
            },
        }
    }

    /// The directory of `setup`, `<root>/BepInEx/ModMgr/<name>`.
    pub fn get_setup_path(&self, setup: &Setup, disk: &Snapshot) -> (r: Result<String, ManagerError>)
        ensures
            !disk.bepinex ==> r matches Err(ManagerError::MissingDependency(Dependency::BepInEx)),
            disk.bepinex ==> (r matches Ok(p) && p@ == place_path_spec(
                self.path@,
                Place::Setup(setup.name),
            )),
    {
        if !disk.bepinex {
            return Err(ManagerError::MissingDependency(Dependency::BepInEx));
        }
        Ok(place_path(&self.path, &Place::Setup(setup.name.clone())))
    }

    /// Plans creating `ModMgr` where it is absent, so that setups can be
    /// listed and created; fails where the mod loader's directory is absent.
    pub fn prepare_modmgr(&self, disk: &Snapshot) -> (r: Result<Vec<FsOp>, ManagerError>)
        requires
            disk.wf(),
        ensures
            !disk.bepinex ==> r matches Err(ManagerError::MissingDependency(Dependency::BepInEx)),
            disk.bepinex ==> (r matches Ok(ops) && ops@ == modmgr_plan(disk@)),
            r matches Ok(ops) ==> runs(disk@, ops@) && apply_all(disk@, ops@) == with_modmgr(disk@),
    {
        if !disk.bepinex {
            return Err(ManagerError::MissingDependency(Dependency::BepInEx));
        }
        let mut ops: Vec<FsOp> = Vec::new();
        if !disk.modmgr {
            ops.push(FsOp::CreateDir(Place::ModMgr));
        }
        proof {
            reveal_with_fuel(apply_all, 2);
            reveal_with_fuel(runs, 2);
            let d = disk@;
            assert(ops@ =~= modmgr_plan(d));
            if !disk.modmgr {
                assert(ops@.skip(1) =~= Seq::<FsOp>::empty());
                assert(d.setups =~= Map::empty());
            }
            assert(apply_all(d, ops@) =~= with_modmgr(d));
        }
        Ok(ops)
    }

    /// Plans the creation of an empty setup `name`: fails where the mod
    /// loader's directory is absent, where a setup of that name exists, or
    /// where `name` is no single directory name, and otherwise yields the
    /// steps of `create_plan`, whose effect is `created`.
    pub fn create_setup(&self, name: &String, disk: &Snapshot) -> (r: Result<
        Vec<FsOp>,
        ManagerError,
    >)
        requires
            disk.wf(),
        ensures
            r is Ok <==> can_create(disk@, name@),
            !disk.bepinex ==> r matches Err(ManagerError::MissingDependency(Dependency::BepInEx)),
            disk.bepinex && disk@.setups.contains_key(name@) ==> r matches Err(
                ManagerError::AlreadyExists,
            ),
            disk.bepinex && !disk@.setups.contains_key(name@) && !valid_name(name@) ==> r matches Err(
                ManagerError::IoError(_),
            ),
            r matches Ok(ops) ==> ops@ == create_plan(disk@, *name) && runs(disk@, ops@) && apply_all(
                disk@,
                ops@,
            ) == created(disk@, name@),
    {
        if !disk.bepinex {
            return Err(ManagerError::MissingDependency(Dependency::BepInEx));
        }
        if find_setup(&disk.setups, name).is_some() {
            return Err(ManagerError::AlreadyExists);
        }
        if !is_valid_name(name) {
            return Err(ManagerError::IoError(String::from_str("Invalid setup name!")));
        }
        let mut ops: Vec<FsOp> = Vec::new();
        if !disk.modmgr {
            ops.push(FsOp::CreateDir(Place::ModMgr));
        }
        ops.push(FsOp::CreateDir(Place::Setup(name.clone())));
        proof {
            reveal_with_fuel(apply_all, 3);
            reveal_with_fuel(runs, 3);
            let d = disk@;
            assert(ops@ =~= create_plan(d, *name));
            if !disk.modmgr {
                assert(ops@.skip(1) =~= seq![ops@[1]]);
                assert(ops@.skip(1).skip(1) =~= Seq::<FsOp>::empty());
                assert(d.setups =~= Map::empty());
            } else {
                assert(ops@.skip(1) =~= Seq::<FsOp>::empty());
            }
            assert(apply_all(d, ops@) =~= created(d, name@));
        }
        Ok(ops)
    }

    /// Plans renaming the setup `old_name` to `new_name`: fails with
    /// `NotFound` where `old_name` does not resolve, and where `new_name` is
    /// no single directory name; otherwise yields the single rename step,
    /// whose effect is `renamed`. Whether `new_name` is free is left to the
    /// rename itself.
    pub fn edit_setup(&self, old_name: &String, new_name: &String, disk: &Snapshot) -> (r: Result<
        Vec<FsOp>,
        ManagerError,
    >)
        requires
            self.wf(),
            disk.wf(),
        ensures
            r is Ok <==> found(self.cache(), disk@, old_name@) && valid_name(new_name@),
            !found(self.cache(), disk@, old_name@) ==> r matches Err(ManagerError::NotFound),
            found(self.cache(), disk@, old_name@) && !valid_name(new_name@) ==> r matches Err(
                ManagerError::IoError(_),
            ),
            r matches Ok(ops) ==> ops@ == rename_plan(*old_name, *new_name) && apply_all(
                disk@,
                ops@,
            ) == renamed(disk@, old_name@, new_name@),
            !disk@.setups.contains_key(new_name@) ==> (r matches Ok(ops) ==> runs(disk@, ops@)),
    {
        if let Err(e) = self.get_setup(old_name, disk) {
            return Err(e);
        }
        if !is_valid_name(new_name) {
            return Err(ManagerError::IoError(String::from_str("Invalid setup name!")));
        }
        let mut ops: Vec<FsOp> = Vec::new();
        ops.push(FsOp::Rename(Place::Setup(old_name.clone()), Place::Setup(new_name.clone())));
        proof {
            reveal_with_fuel(apply_all, 2);
            reveal_with_fuel(runs, 2);
            let d = disk@;
            assert(ops@ =~= rename_plan(*old_name, *new_name));
            assert(ops@.skip(1) =~= Seq::<FsOp>::empty());
            assert(apply_all(d, ops@) =~= renamed(d, old_name@, new_name@));
        }
        Ok(ops)
    }

    /// Plans removing the setup `name` with everything below it: fails with
    /// `NotFound` where `name` does not resolve, and otherwise yields the
    /// single removal step, whose effect is `removed`.
    pub fn remove_setup(&self, name: &String, disk: &Snapshot) -> (r: Result<
        Vec<FsOp>,
        ManagerError,
    >)
        requires
            self.wf(),
            disk.wf(),
        ensures
            r is Ok <==> found(self.cache(), disk@, name@),
            r matches Err(e) ==> e is NotFound,
            r matches Ok(ops) ==> ops@ == remove_plan(*name) && runs(disk@, ops@) && apply_all(
                disk@,
                ops@,
            ) == removed(disk@, name@),
    {
        if let Err(e) = self.get_setup(name, disk) {
            return Err(e);
        }
        let mut ops: Vec<FsOp> = Vec::new();
        ops.push(FsOp::RemoveAll(Place::Setup(name.clone())));
        proof {
            reveal_with_fuel(apply_all, 2);
            reveal_with_fuel(runs, 2);
            let d = disk@;
            assert(ops@ =~= remove_plan(*name));
            assert(ops@.skip(1) =~= Seq::<FsOp>::empty());
            assert(apply_all(d, ops@) =~= removed(d, name@));
        }
        Ok(ops)
    }

    /// Plans swapping the setup `name` into the live plugin directory: fails
    /// with `MissingDependency` where the mod loader's or the plugin
    /// directory is absent, then with `NotFound` where `name` does not
    /// resolve. Copy mode yields the steps of `copy_load_plan`, whose effect
    /// is `loaded_by_copy`; move mode those of `move_load_plan`, whose effect
    /// is `loaded_by_move`. Either removes an earlier backup only where
    /// there is one.
    pub fn load_setup(&self, name: &String, disk: &Snapshot) -> (r: Result<
        Vec<FsOp>,
        ManagerError,
    >)
        requires
            self.wf(),
            disk.wf(),
        ensures
            r is Ok <==> disk.plugins is Some && found(self.cache(), disk@, name@),
            !disk.bepinex ==> r matches Err(ManagerError::MissingDependency(Dependency::BepInEx)),
            disk.bepinex && disk.plugins is None ==> r matches Err(
                ManagerError::MissingDependency(Dependency::Plugins),
            ),
            disk.plugins is Some && !found(self.cache(), disk@, name@) ==> r matches Err(
                ManagerError::NotFound,
            ),
            r matches Ok(ops) ==> runs(disk@, ops@),
            self.windows_copy ==> (r matches Ok(ops) ==> ops@ == copy_load_plan(disk@, *name)
                && apply_all(disk@, ops@) == loaded_by_copy(disk@, name@)),
            !self.windows_copy ==> (r matches Ok(ops) ==> ops@ == move_load_plan(disk@, *name)
                && apply_all(disk@, ops@) == loaded_by_move(disk@, name@)),
    {
        if !disk.bepinex {
            return Err(ManagerError::MissingDependency(Dependency::BepInEx));
        }
        if disk.plugins.is_none() {
            return Err(ManagerError::MissingDependency(Dependency::Plugins));
        }
        if let Err(e) = self.get_setup(name, disk) {
            return Err(e);
        }
        let ghost d = disk@;
        let mut ops: Vec<FsOp> = Vec::new();
        if disk.backup.is_some() {
            ops.push(FsOp::RemoveAll(Place::Backup));
        }
        if self.windows_copy {
            ops.push(FsOp::CopyInto(Place::Plugins, Place::Backup));
            ops.push(FsOp::CopyInto(Place::Setup(name.clone()), Place::Plugins));
        } else {
            ops.push(FsOp::Rename(Place::Plugins, Place::Backup));
            ops.push(FsOp::Rename(Place::Setup(name.clone()), Place::Plugins));
        }
        proof {
            reveal_with_fuel(apply_all, 4);
            reveal_with_fuel(runs, 4);
            if self.windows_copy {
                assert(ops@ =~= copy_load_plan(d, *name));
            } else {
                assert(ops@ =~= move_load_plan(d, *name));
            }
            if disk.backup is Some {
                assert(ops@.skip(1) =~= seq![ops@[1], ops@[2]]);
                assert(ops@.skip(1).skip(1) =~= seq![ops@[2]]);
                assert(ops@.skip(1).skip(1).skip(1) =~= Seq::<FsOp>::empty());
            } else {
                assert(ops@.skip(1) =~= seq![ops@[1]]);
                assert(ops@.skip(1).skip(1) =~= Seq::<FsOp>::empty());
            }
            if self.windows_copy {
                assert(apply_all(d, ops@) =~= loaded_by_copy(d, name@));
            } else {
                assert(apply_all(d, ops@) =~= loaded_by_move(d, name@));
            }
        }
        Ok(ops)
    }

    /// Applies the settings the caller passes: `path` sets the installation
    /// root; `windows_copy` selects the load strategy where it is `"true"`
    /// or `"false"` and is ignored otherwise. Returns whether the root
    /// changed, so that the cache is to be refreshed.
    pub fn set_config(&mut self, path: Option<String>, windows_copy: Option<String>) -> (refresh: bool)
        ensures
            refresh == path is Some,
            final(self).setups == old(self).setups,
            path matches Some(p) ==> final(self).path == p,
            path is None ==> final(self).path == old(self).path,
            final(self).windows_copy == match windows_copy {
                Some(w) => if w@ == "true"@ {
                    true
                } else if w@ == "false"@ {
                    false
                } else {
                    old(self).windows_copy
                },
                None => old(self).windows_copy,
            },
    {
        let refresh = path.is_some();
        if let Some(p) = path {
            self.path = p;
        }
        if let Some(w) = windows_copy {
            if w == String::from_str("true") {
                self.windows_copy = true;
            } else if w == String::from_str("false") {
                self.windows_copy = false;
            }
        }
        refresh
    }
}

} // verus!
