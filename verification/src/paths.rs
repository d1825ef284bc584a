use vstd::prelude::*;
use vstd::string::StringExecFns;

verus! {

/// `base` and `child` joined with the path separator.
pub open spec fn spec_path_join(base: Seq<char>, child: Seq<char>) -> Seq<char> {
    base + "/"@ + child
}

/// Composes the path `base`/`child`.
pub fn path_join(base: &str, child: &str) -> (r: String)
    ensures
        r@ == spec_path_join(base@, child@),
{
    let mut r = base.to_owned();
    r.append("/");
    r.append(child);
    r
}

/// The root under which fetched source trees are kept, one per library name.
pub open spec fn spec_extra_base(home: Seq<char>) -> Seq<char> {
    home + "/.kibrarian/extra"@
}

/// See [`spec_extra_base`].
pub fn extra_base(home: &str) -> (r: String)
    ensures
        r@ == spec_extra_base(home@),
{
    let mut r = home.to_owned();
    r.append("/.kibrarian/extra");
    r
}

/// The root of the managed library directory: the shared system-wide
/// location for a global install, the current project's own `libraries`
/// directory otherwise.
pub open spec fn spec_library_base(home: Seq<char>, global: bool) -> Seq<char> {
    if global {
        home + "/.kibrarian/libraries"@
    } else {
        "./libraries"@
    }
}

/// See [`spec_library_base`].
pub fn library_base(home: &str, global: bool) -> (r: String)
    ensures
        r@ == spec_library_base(home@, global),
{
    if global {
        let mut r = home.to_owned();
        r.append("/.kibrarian/libraries");
        r
    } else {
        ("./libraries").to_owned()
    }
}

/// The symbols subtree of the managed directory for the library `name`.
pub open spec fn spec_symbols_dir(lib_base: Seq<char>, name: Seq<char>) -> Seq<char> {
    lib_base + "/symbols/"@ + name
}

/// See [`spec_symbols_dir`].
pub fn symbols_dir(lib_base: &str, name: &str) -> (r: String)
    ensures
        r@ == spec_symbols_dir(lib_base@, name@),
{
    let mut r = lib_base.to_owned();
    r.append("/symbols/");
    r.append(name);
    r
}

/// The footprints subtree of the managed directory for the library `name`.
pub open spec fn spec_footprints_dir(lib_base: Seq<char>, name: Seq<char>) -> Seq<char> {
    lib_base + "/footprints/"@ + name
}

/// See [`spec_footprints_dir`].
pub fn footprints_dir(lib_base: &str, name: &str) -> (r: String)
    ensures
        r@ == spec_footprints_dir(lib_base@, name@),
{
    let mut r = lib_base.to_owned();
    r.append("/footprints/");
    r.append(name);
    r
}

} // verus!
