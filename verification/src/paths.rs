use vstd::prelude::*;
use vstd::string::StringExecFns;

verus! {

// ---------------------------------------------------------------------------
// Path derivation.
//
// A folder path is `parent/name` when a parent is given, else
// `root/name` under the store's root directory; an asset path is
// `folder/{id}.{extension}`.
// ---------------------------------------------------------------------------

/// The root directory under which all folder paths are created.
pub open spec fn spec_asset_main_path() -> Seq<char> {
    "assets"@
}

/// The path of a directory entry `name` under directory `parent`.
pub open spec fn spec_join(parent: Seq<char>, name: Seq<char>) -> Seq<char> {
    parent + "/"@ + name
}

/// The on-disk path of an asset with identifier `id` and file-name
/// extension `ext`, stored under the folder at `folder`.
pub open spec fn spec_asset_path(folder: Seq<char>, id: Seq<char>, ext: Seq<char>) -> Seq<char> {
    folder + "/"@ + id + "."@ + ext
}

/// The target path of a folder creation: the statically supplied path
/// when one is given, else `name` under the root directory.
pub open spec fn spec_folder_target(name: Seq<char>, static_path: Option<Seq<char>>) -> Seq<char> {
    match static_path {
        Some(p) => p,
        None => spec_join(spec_asset_main_path(), name),
    }
}

/// The folder path derived from an optional parent: `parent/name` when
/// a parent is given, else `name` under the root directory.
pub open spec fn spec_parent_target(parent: Option<Seq<char>>, name: Seq<char>) -> Seq<char> {
    match parent {
        Some(p) => spec_join(p, name),
        None => spec_join(spec_asset_main_path(), name),
    }
}

/// The view of an optional string slice.
pub open spec fn opt_view(o: Option<&str>) -> Option<Seq<char>> {
    match o {
        Some(s) => Some(s@),
        None => None,
    }
}

/// The root directory under which all folder paths are created.
pub fn asset_main_path() -> (r: String)
    ensures
        r@ == spec_asset_main_path(),
{
    String::from_str("assets")
}

/// Joins a directory path and an entry name with a path separator.
pub fn join_path(parent: &str, name: &str) -> (r: String)
    ensures
        r@ == spec_join(parent@, name@),
{
    let mut s = parent.to_owned();
    s.append("/");
    s.append(name);
    s
}

/// Derives the on-disk path of an asset from its folder, identifier and
/// extension.
pub fn asset_path(folder: &str, id: &str, ext: &str) -> (r: String)
    ensures
        r@ == spec_asset_path(folder@, id@, ext@),
{
    let mut s = folder.to_owned();
    s.append("/");
    s.append(id);
    s.append(".");
    s.append(ext);
    s
}

/// Compares two string slices by their characters.
pub fn str_eq(a: &str, b: &str) -> (r: bool)
    ensures
        r == (a@ == b@),
{
    let sa = a.to_owned();
    let sb = b.to_owned();
    sa == sb
}

} // verus!
