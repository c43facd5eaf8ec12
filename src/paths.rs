use vstd::prelude::*;

verus! {

/// A character that separates path components.
pub open spec fn is_sep(c: char) -> bool {
    c == '/' || c == '\\'
}

/// `name` appended to `base` as one more path component.
pub open spec fn join_spec(base: Seq<char>, name: Seq<char>) -> Seq<char> {
    if base.len() == 0 || is_sep(base.last()) {
        base + name
    } else {
        base + seq!['/'] + name
    }
}

/// A name that stands for exactly one directory entry: not empty, no
/// separator, and neither `.` nor `..`.
pub open spec fn valid_name(n: Seq<char>) -> bool {
    &&& n.len() > 0
    &&& forall|i: int| 0 <= i < n.len() ==> !is_sep(#[trigger] n[i])
    &&& n != seq!['.']
    &&& n != seq!['.', '.']
}

/// Appends `name` to `base` as one more path component.
pub fn join(base: &String, name: &str) -> (r: String)
    ensures
        r@ == join_spec(base@, name@),
{
    let n = base.as_str().unicode_len();
    let mut r = base.clone();
    if n > 0 {
        let c = base.as_str().get_char(n - 1);
        if c != '/' && c != '\\' {
            r.append("/");
            proof {
                reveal_strlit("/");
            }
        }
    }
    r.append(name);
    r
}

/// Whether `name` stands for exactly one directory entry.
pub fn is_valid_name(name: &String) -> (r: bool)
    ensures
        r == valid_name(name@),
{
    let s = name.as_str();
    let n = s.unicode_len();
    if n == 0 {
        return false;
    }
    let mut i: usize = 0;
    while i < n
        invariant
            n == name@.len(),
            s@ == name@,
            i <= n,
            forall|j: int| 0 <= j < i ==> !is_sep(#[trigger] name@[j]),
        decreases n - i,
    {
        let c = s.get_char(i);
        if c == '/' || c == '\\' {
            return false;
        }
        i = i + 1;
    }
    if n <= 2 && s.get_char(0) == '.' && (n == 1 || s.get_char(1) == '.') {
        assert(n == 1 ==> name@ =~= seq!['.']);
        assert(n == 2 ==> name@ =~= seq!['.', '.']);
        return false;
    }
    proof {
        if n == 1 {
            assert(name@ != seq!['.']) by {
                if name@ == seq!['.'] {
                    assert(name@[0] == '.');
                }
            }
        }
        if n == 2 {
            assert(name@ != seq!['.', '.']) by {
                if name@ == seq!['.', '.'] {
                    assert(name@[0] == '.' && name@[1] == '.');
                }
            }
        }
    }
    true
}

/// A directory that the manager works on.
#[derive(Clone, Debug)]
pub enum Place {
    /// `<root>/BepInEx/ModMgr`, where saved setups live.
    ModMgr,
    /// `<root>/BepInEx/ModMgr/<name>`, one saved setup.
    Setup(String),
    /// `<root>/BepInEx/plugins`, the live plugin directory.
    Plugins,
    /// `<root>/BepInEx/plugins.old`, the single backup slot.
    Backup,
}

/// `<root>/BepInEx`.
pub open spec fn bepinex_path(root: Seq<char>) -> Seq<char> {
    join_spec(root, "BepInEx"@)
}

/// The path of a place under the installation root `root`.
pub open spec fn place_path_spec(root: Seq<char>, place: Place) -> Seq<char> {
    match place {
        Place::ModMgr => join_spec(bepinex_path(root), "ModMgr"@),
        Place::Setup(n) => join_spec(join_spec(bepinex_path(root), "ModMgr"@), n@),
        Place::Plugins => join_spec(bepinex_path(root), "plugins"@),
        Place::Backup => join_spec(bepinex_path(root), "plugins"@) + ".old"@,
    }
}

/// The path of `place` under the installation root `root`.
pub fn place_path(root: &String, place: &Place) -> (r: String)
    ensures
        r@ == place_path_spec(root@, *place),
{
    let bepinex = join(root, "BepInEx");
    match place {
        Place::ModMgr => join(&bepinex, "ModMgr"),
        Place::Setup(n) => {
            let modmgr = join(&bepinex, "ModMgr");
            join(&modmgr, n.as_str())
        },
        Place::Plugins => join(&bepinex, "plugins"),
        Place::Backup => {
            let mut p = join(&bepinex, "plugins");
            p.append(".old");
            p
        },
    }
}

} // verus!
