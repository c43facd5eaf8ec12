use vstd::prelude::*;
use crate::disk::{DiskModel, FsOp, apply_all, model_wf, or_empty, runs};
use crate::manager::{
    can_create, copy_load_plan, created, found, listed, loaded_by_copy, loaded_by_move,
    move_load_plan, removed, renamed,
};

verus! {

/// Once a setup has been created, a refresh lists it, with no mods.
pub proof fn law_created_setup_is_listed(d: DiskModel, name: Seq<char>)
    requires
        model_wf(d),
        can_create(d, name),
    ensures
        listed(created(d, name)).contains_key(name),
        listed(created(d, name))[name] == Set::<Seq<char>>::empty(),
{
}

/// Creating a setup whose name is taken is refused, whatever else holds.
pub proof fn law_taken_name_is_refused(d: DiskModel, name: Seq<char>)
    requires
        d.setups.contains_key(name),
    ensures
        !can_create(d, name),
{
}

/// After renaming `a` to a free name `b` and refreshing, `b` resolves and
/// `a` does not.
pub proof fn law_rename_moves_lookup(
    cache: Map<Seq<char>, Set<Seq<char>>>,
    d: DiskModel,
    a: Seq<char>,
    b: Seq<char>,
)
    requires
        model_wf(d),
        found(cache, d, a),
        !d.setups.contains_key(b),
    ensures
        found(listed(renamed(d, a, b)), renamed(d, a, b), b),
        !found(listed(renamed(d, a, b)), renamed(d, a, b), a),
        renamed(d, a, b).setups[b] == d.setups[a],
{
}

/// After removing a setup and refreshing, it no longer resolves and its
/// directory is gone.
pub proof fn law_removed_setup_is_gone(
    cache: Map<Seq<char>, Set<Seq<char>>>,
    d: DiskModel,
    name: Seq<char>,
)
    requires
        model_wf(d),
        found(cache, d, name),
    ensures
        !removed(d, name).setups.contains_key(name),
        !found(listed(removed(d, name)), removed(d, name), name),
{
}

/// A copy-mode load can run whether or not a backup exists; it keeps every
/// setup in place, makes the backup exactly the former live plugins, and
/// leaves the former plugins and the setup's entries together live.
pub proof fn law_copy_load_keeps_sources(
    cache: Map<Seq<char>, Set<Seq<char>>>,
    d: DiskModel,
    name: String,
)
    requires
        model_wf(d),
        found(cache, d, name@),
        d.plugins is Some,
    ensures
        runs(d, copy_load_plan(d, name)),
        apply_all(d, copy_load_plan(d, name)) == loaded_by_copy(d, name@),
        loaded_by_copy(d, name@).setups == d.setups,
        found(listed(loaded_by_copy(d, name@)), loaded_by_copy(d, name@), name@),
        loaded_by_copy(d, name@).plugins == Some(or_empty(d.plugins).union(d.setups[name@])),
        loaded_by_copy(d, name@).backup == d.plugins,
{
    lemma_load_plans(d, name);
}

/// A move-mode load can run whether or not a backup exists; it takes the
/// setup out of the setups root, makes its entries exactly the live plugins,
/// and makes the former live plugins exactly the backup.
pub proof fn law_move_load_swaps(
    cache: Map<Seq<char>, Set<Seq<char>>>,
    d: DiskModel,
    name: String,
)
    requires
        model_wf(d),
        found(cache, d, name@),
        d.plugins is Some,
    ensures
        runs(d, move_load_plan(d, name)),
        apply_all(d, move_load_plan(d, name)) == loaded_by_move(d, name@),
        !loaded_by_move(d, name@).setups.contains_key(name@),
        loaded_by_move(d, name@).plugins == Some(d.setups[name@]),
        loaded_by_move(d, name@).backup == d.plugins,
{
    lemma_load_plans(d, name);
}

proof fn lemma_load_plans(d: DiskModel, name: String)
    requires
        model_wf(d),
        d.setups.contains_key(name@),
        d.plugins is Some,
    ensures
        runs(d, copy_load_plan(d, name)),
        apply_all(d, copy_load_plan(d, name)) == loaded_by_copy(d, name@),
        runs(d, move_load_plan(d, name)),
        apply_all(d, move_load_plan(d, name)) == loaded_by_move(d, name@),
{
    reveal_with_fuel(apply_all, 4);
    reveal_with_fuel(runs, 4);
    let c = copy_load_plan(d, name);
    let m = move_load_plan(d, name);
    if d.backup is Some {
        assert(c.skip(1) =~= seq![c[1], c[2]]);
        assert(c.skip(1).skip(1) =~= seq![c[2]]);
        assert(c.skip(1).skip(1).skip(1) =~= Seq::<FsOp>::empty());
        assert(m.skip(1) =~= seq![m[1], m[2]]);
        assert(m.skip(1).skip(1) =~= seq![m[2]]);
        assert(m.skip(1).skip(1).skip(1) =~= Seq::<FsOp>::empty());
    } else {
        assert(c.skip(1) =~= seq![c[1]]);
        assert(c.skip(1).skip(1) =~= Seq::<FsOp>::empty());
        assert(m.skip(1) =~= seq![m[1]]);
        assert(m.skip(1).skip(1) =~= Seq::<FsOp>::empty());
    }
    assert(apply_all(d, c) =~= loaded_by_copy(d, name@));
    assert(apply_all(d, m) =~= loaded_by_move(d, name@));
}

} // verus!
