use vstd::prelude::*;
use crate::error::ManagerError;
use crate::model::{Setup, distinct_mods, distinct_names, has_distinct_mods, name_set, setup_map};
use crate::paths::{Place, is_valid_name, valid_name};

verus! {

/// What the manager needs to know of the installation at one moment, read
/// from disk by the caller. A directory's contents are the names of its
/// immediate subdirectories.
pub struct Snapshot {
    /// Whether `<root>/BepInEx` exists.
    pub bepinex: bool,
    /// Whether `<root>/BepInEx/ModMgr` exists.
    pub modmgr: bool,
    /// The setups under `ModMgr`, each with its mods.
    pub setups: Vec<Setup>,
    /// The contents of `plugins`, if it exists.
    pub plugins: Option<Vec<String>>,
    /// The contents of `plugins.old`, if it exists.
    pub backup: Option<Vec<String>>,
}

#[verifier::ext_equal]
/// The installation as the manager sees it: which of its directories exist
/// and what each holds.
pub struct DiskModel {
    pub bepinex: bool,
    pub modmgr: bool,
    /// Setup name to the names of its mods.
    pub setups: Map<Seq<char>, Set<Seq<char>>>,
    pub plugins: Option<Set<Seq<char>>>,
    pub backup: Option<Set<Seq<char>>>,
}

/// A model that a filesystem can be in: nothing lies below a directory that
/// does not exist.
pub open spec fn model_wf(d: DiskModel) -> bool {
    &&& !d.modmgr ==> d.setups.is_empty()
    &&& !d.bepinex ==> !d.modmgr && d.plugins is None && d.backup is None
}

/// The names a directory listing holds, where the directory exists.
pub open spec fn opt_names(v: Option<Vec<String>>) -> Option<Set<Seq<char>>> {
    match v {
        Some(v) => Some(name_set(v@)),
        None => None,
    }
}

impl Snapshot {
    /// The snapshot as a model of the installation.
    pub open spec fn view(&self) -> DiskModel {
        DiskModel {
            bepinex: self.bepinex,
            modmgr: self.modmgr,
            setups: setup_map(self.setups@),
            plugins: opt_names(self.plugins),
            backup: opt_names(self.backup),
        }
    }

    /// A snapshot that a filesystem can produce: setup and mod names are
    /// single directory entries, hence distinct within their directory, and
    /// nothing lies below a missing directory.
    pub open spec fn wf(&self) -> bool {
        &&& distinct_names(self.setups@)
        &&& forall|i: int|
            0 <= i < self.setups@.len() ==> valid_name(#[trigger] self.setups@[i].name@)
                && distinct_mods(self.setups@[i].mods@)
        &&& !self.modmgr ==> self.setups@.len() == 0
        &&& !self.bepinex ==> !self.modmgr && self.plugins is None && self.backup is None
    }

    /// Whether the snapshot is one a filesystem can produce.
    pub fn is_wf(&self) -> (r: bool)
        ensures
            r == self.wf(),
    {
        if !self.bepinex && (self.modmgr || self.plugins.is_some() || self.backup.is_some()) {
            return false;
        }
        if !self.modmgr && self.setups.len() > 0 {
            return false;
        }
        let n = self.setups.len();
        let mut i: usize = 0;
        while i < n
            invariant
                n == self.setups@.len(),
                i <= n,
                forall|a: int, b: int|
                    0 <= a < i && 0 <= b < n && a != b ==> self.setups@[a].name@
                        != self.setups@[b].name@,
                forall|a: int|
                    0 <= a < i ==> valid_name(#[trigger] self.setups@[a].name@) && distinct_mods(
                        self.setups@[a].mods@,
                    ),
            decreases n - i,
        {
            if !is_valid_name(&self.setups[i].name) || !has_distinct_mods(&self.setups[i].mods) {
                return false;
            }
            let mut j: usize = 0;
            while j < n
                invariant
                    n == self.setups@.len(),
                    i < n,
                    j <= n,
                    forall|a: int, b: int|
                        0 <= a < i && 0 <= b < n && a != b ==> self.setups@[a].name@
                            != self.setups@[b].name@,
                    forall|a: int|
                        0 <= a <= i ==> valid_name(#[trigger] self.setups@[a].name@)
                            && distinct_mods(self.setups@[a].mods@),
                    forall|b: int|
                        0 <= b < j && b != i ==> self.setups@[i as int].name@
                            != self.setups@[b].name@,
                decreases n - j,
            {
                if j != i && self.setups[i].name == self.setups[j].name {
                    return false;
                }
                j = j + 1;
            }
            i = i + 1;
        }
        assert(forall|a: int|
            0 <= a < self.setups@.len() ==> valid_name(#[trigger] self.setups@[a].name@)
                && distinct_mods(self.setups@[a].mods@));
        assert(distinct_names(self.setups@));
        true
    }
}

/// One filesystem step of an operation. The caller performs the steps of a
/// plan in order and stops at the first that fails.
#[derive(Clone, Debug)]
pub enum FsOp {
    /// Create an empty directory.
    CreateDir(Place),
    /// Remove a directory and everything below it.
    RemoveAll(Place),
    /// Rename the first directory to the second.
    Rename(Place, Place),
    /// Copy the entries of the first directory into the second, replacing
    /// entries of the same name and creating the second if absent.
    CopyInto(Place, Place),
}

/// What a place holds in `d`, or `None` where it does not exist.
pub open spec fn contents(d: DiskModel, p: Place) -> Option<Set<Seq<char>>> {
    match p {
        Place::ModMgr => if d.modmgr { Some(d.setups.dom()) } else { None },
        Place::Setup(n) => if d.modmgr && d.setups.contains_key(n@) {
            Some(d.setups[n@])
        } else {
            None
        },
        Place::Plugins => d.plugins,
        Place::Backup => d.backup,
    }
}

/// `d` with the place `p` holding `c`, or removed where `c` is `None`.
pub open spec fn with_contents(d: DiskModel, p: Place, c: Option<Set<Seq<char>>>) -> DiskModel {
    match p {
        Place::ModMgr => DiskModel {
            modmgr: c is Some,
            setups: Map::empty(),
            ..d
        },
        Place::Setup(n) => match c {
            Some(c) => DiskModel { setups: d.setups.insert(n@, c), ..d },
            None => DiskModel { setups: d.setups.remove(n@), ..d },
        },
        Place::Plugins => DiskModel { plugins: c, ..d },
        Place::Backup => DiskModel { backup: c, ..d },
    }
}

/// What a directory holds, or nothing where it does not exist.
pub open spec fn or_empty(c: Option<Set<Seq<char>>>) -> Set<Seq<char>> {
    match c {
        Some(c) => c,
        None => Set::empty(),
    }
}

/// The installation after `op` has succeeded on `d`.
pub open spec fn apply(d: DiskModel, op: FsOp) -> DiskModel {
    match op {
        FsOp::CreateDir(p) => with_contents(d, p, Some(Set::empty())),
        FsOp::RemoveAll(p) => with_contents(d, p, None),
        FsOp::Rename(a, b) => with_contents(with_contents(d, a, None), b, contents(d, a)),
        FsOp::CopyInto(a, b) => with_contents(
            d,
            b,
            Some(or_empty(contents(d, b)).union(or_empty(contents(d, a)))),
        ),
    }
}

/// The installation after every step of `ops` has succeeded, in order.
pub open spec fn apply_all(d: DiskModel, ops: Seq<FsOp>) -> DiskModel
    decreases ops.len(),
{
    if ops.len() == 0 {
        d
    } else {
        apply_all(apply(d, ops[0]), ops.skip(1))
    }
}

/// The directory that holds place `p` exists in `d`.
pub open spec fn parent_exists(d: DiskModel, p: Place) -> bool {
    match p {
        Place::Setup(_) => d.modmgr,
        _ => d.bepinex,
    }
}

/// `op` can succeed on `d`: what it reads exists, and what it creates or
/// renames onto does not.
pub open spec fn step_ok(d: DiskModel, op: FsOp) -> bool {
    match op {
        FsOp::CreateDir(p) => parent_exists(d, p) && contents(d, p) is None,
        FsOp::RemoveAll(p) => contents(d, p) is Some,
        FsOp::Rename(a, b) => contents(d, a) is Some && parent_exists(d, b) && contents(d, b) is None,
        FsOp::CopyInto(a, b) => contents(d, a) is Some && parent_exists(d, b),
    }
}

/// Each step of `ops` can succeed on the installation its predecessors leave.
pub open spec fn runs(d: DiskModel, ops: Seq<FsOp>) -> bool
    decreases ops.len(),
{
    ops.len() == 0 || (step_ok(d, ops[0]) && runs(apply(d, ops[0]), ops.skip(1)))
}

/// What the caller is told when a step fails: the stage of the swap that
/// failed, then the system's description.
pub open spec fn failure_prefix(op: FsOp) -> Seq<char> {
    match op {
        FsOp::RemoveAll(Place::Backup) => "Failed to remove Backup! "@,
        FsOp::Rename(_, Place::Backup) => "Backup failed! "@,
        FsOp::CopyInto(_, Place::Backup) => "Backup failed! "@,
        FsOp::Rename(_, Place::Plugins) => "Loading failed! "@,
        FsOp::CopyInto(_, Place::Plugins) => "Loading failed! "@,
        FsOp::CreateDir(Place::ModMgr) => "Couldn't create ModMgr folder! "@,
        _ => Seq::empty(),
    }
}

/// The error for a step `op` that failed with the description `reason`.
pub fn step_failed(op: &FsOp, reason: &String) -> (r: ManagerError)
    ensures
        r matches ManagerError::IoError(s) && s@ == failure_prefix(*op) + reason@,
{
    let mut s = match op {
        FsOp::RemoveAll(Place::Backup) => String::from_str("Failed to remove Backup! "),
        FsOp::Rename(_, Place::Backup) => String::from_str("Backup failed! "),
        FsOp::CopyInto(_, Place::Backup) => String::from_str("Backup failed! "),
        FsOp::Rename(_, Place::Plugins) => String::from_str("Loading failed! "),
        FsOp::CopyInto(_, Place::Plugins) => String::from_str("Loading failed! "),
        FsOp::CreateDir(Place::ModMgr) => String::from_str("Couldn't create ModMgr folder! "),
        _ => String::new(),
    };
    s.append(reason.as_str());
    ManagerError::IoError(s)
}

} // verus!
