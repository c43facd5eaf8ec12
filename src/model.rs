use vstd::prelude::*;

verus! {

/// One mod: a subdirectory inside a setup's directory.
#[derive(Clone, Debug)]
pub struct Mod {
    pub name: String,
}

/// A saved setup: a directory under the setups root and the mods inside it.
#[derive(Clone, Debug)]
pub struct Setup {
    pub name: String,
    pub mods: Vec<Mod>,
}

/// The names of a sequence of mods, as a set: their order carries no meaning.
pub open spec fn mod_set(mods: Seq<Mod>) -> Set<Seq<char>> {
    mods.map_values(|m: Mod| m.name@).to_set()
}

/// The names of a sequence of strings, as a set.
pub open spec fn name_set(names: Seq<String>) -> Set<Seq<char>> {
    names.map_values(|s: String| s@).to_set()
}

/// No two setups in the sequence share a name.
pub open spec fn distinct_names(s: Seq<Setup>) -> bool {
    forall|i: int, j: int|
        0 <= i < s.len() && 0 <= j < s.len() && i != j ==> s[i].name@ != s[j].name@
}

/// No two mods in the sequence share a name.
pub open spec fn distinct_mods(m: Seq<Mod>) -> bool {
    forall|i: int, j: int|
        0 <= i < m.len() && 0 <= j < m.len() && i != j ==> m[i].name@ != m[j].name@
}

/// A sequence of setups as a map from setup name to the names of its mods.
pub open spec fn setup_map(s: Seq<Setup>) -> Map<Seq<char>, Set<Seq<char>>>
    decreases s.len(),
{
    if s.len() == 0 {
        Map::empty()
    } else {
        setup_map(s.drop_last()).insert(s.last().name@, mod_set(s.last().mods@))
    }
}

/// Each setup's name is a key of `setup_map(s)`; with distinct names it maps
/// to that setup's mods.
pub proof fn lemma_setup_map_index(s: Seq<Setup>, i: int)
    requires
        0 <= i < s.len(),
    ensures
        setup_map(s).contains_key(s[i].name@),
        distinct_names(s) ==> setup_map(s)[s[i].name@] == mod_set(s[i].mods@),
    decreases s.len(),
{
    let p = s.drop_last();
    assert(setup_map(s) == setup_map(p).insert(s.last().name@, mod_set(s.last().mods@)));
    if i < s.len() - 1 {
        assert(p[i] == s[i]);
        lemma_setup_map_index(p, i);
        if distinct_names(s) {
            assert(s[i].name@ != s.last().name@);
            assert(distinct_names(p)) by {
                assert forall|a: int, b: int|
                    0 <= a < p.len() && 0 <= b < p.len() && a != b implies p[a].name@
                    != p[b].name@ by {
                    assert(p[a] == s[a] && p[b] == s[b]);
                }
            }
        }
    }
}

/// Every key of `setup_map(s)` is the name of some setup of `s`.
pub proof fn lemma_setup_map_key(s: Seq<Setup>, k: Seq<char>)
    requires
        setup_map(s).contains_key(k),
    ensures
        exists|i: int| 0 <= i < s.len() && s[i].name@ == k,
    decreases s.len(),
{
    let p = s.drop_last();
    assert(setup_map(s) == setup_map(p).insert(s.last().name@, mod_set(s.last().mods@)));
    if k == s.last().name@ {
        assert(s[s.len() - 1].name@ == k);
    } else {
        lemma_setup_map_key(p, k);
        let i = choose|i: int| 0 <= i < p.len() && p[i].name@ == k;
        assert(s[i] == p[i]);
    }
}

impl Setup {
    /// A setup with the given name and mods.
    pub fn new(name: String, mods: Vec<Mod>) -> (r: Setup)
        ensures
            r.name@ == name@,
            r.mods@ == mods@,
    {
        Setup { name, mods }
    }
}

/// Whether no two mods of `mods` share a name.
pub fn has_distinct_mods(mods: &Vec<Mod>) -> (r: bool)
    ensures
        r == distinct_mods(mods@),
{
    let n = mods.len();
    let mut i: usize = 0;
    while i < n
        invariant
            n == mods@.len(),
            i <= n,
            forall|a: int, b: int|
                0 <= a < i && 0 <= b < n && a != b ==> mods@[a].name@ != mods@[b].name@,
        decreases n - i,
    {
        let mut j: usize = 0;
        while j < n
            invariant
                n == mods@.len(),
                i < n,
                j <= n,
                forall|a: int, b: int|
                    0 <= a < i && 0 <= b < n && a != b ==> mods@[a].name@ != mods@[b].name@,
                forall|b: int| 0 <= b < j && b != i ==> mods@[i as int].name@ != mods@[b].name@,
            decreases n - j,
        {
            if j != i && mods[i].name == mods[j].name {
                return false;
            }
            j = j + 1;
        }
        i = i + 1;
    }
    true
}

/// Searches `setups` for one named `name`.
pub fn find_setup(setups: &Vec<Setup>, name: &String) -> (r: Option<usize>)
    ensures
        r matches Some(i) ==> i < setups@.len() && setups@[i as int].name@ == name@,
        r is None ==> forall|i: int| 0 <= i < setups@.len() ==> setups@[i].name@ != name@,
        r is None <==> !setup_map(setups@).contains_key(name@),
{
    let mut i: usize = 0;
    while i < setups.len()
        invariant
            i <= setups@.len(),
            forall|j: int| 0 <= j < i ==> setups@[j].name@ != name@,
        decreases setups@.len() - i,
    {
        if setups[i].name == *name {
            proof {
                lemma_setup_map_index(setups@, i as int);
            }
            return Some(i);
        }
        i = i + 1;
    }
    proof {
        if setup_map(setups@).contains_key(name@) {
            lemma_setup_map_key(setups@, name@);
        }
    }
    None
}

} // verus!
