//! Where the application keeps its files: the configuration root and the
//! library, notes, ratings and devices directories under it.

use vstd::prelude::*;
use crate::text::{decimal, decimal_injective, push_decimal, str_equals, texts};

verus! {

/// The root under which the configuration folder lives: the home directory
/// when the `config-path` setting is `Home`, the setting itself otherwise.
pub open spec fn root_for(setting: Seq<char>, home: Seq<char>) -> Seq<char> {
    if setting == "Home"@ {
        home
    } else {
        setting
    }
}

/// The configuration root for a `config-path` setting and a home directory.
pub fn config_root(setting: &str, home: &str) -> (root: String)
    ensures
        root@ == root_for(setting@, home@),
{
    if str_equals(setting, "Home") {
        String::from_str(home)
    } else {
        String::from_str(setting)
    }
}

fn under(root: &str, suffix: &str) -> (p: String)
    ensures
        p@ == root@ + suffix@,
{
    let mut p = String::from_str(root);
    p.append(suffix);
    p
}

/// The configuration folder under a root.
pub fn config_folder(root: &str) -> (p: String)
    ensures
        p@ == root@ + "/.ronajo"@,
{
    under(root, "/.ronajo")
}

/// The folders created when the configuration is set up, in order: the
/// configuration folder, then its ratings, notes, devices and library
/// folders.
pub fn setup_config(root: &str) -> (dirs: Vec<String>)
    ensures
        texts(dirs@) == seq![
            root@ + "/.ronajo"@,
            root@ + "/.ronajo/ratings"@,
            root@ + "/.ronajo/notes"@,
            root@ + "/.ronajo/devices"@,
            root@ + "/.ronajo/library"@,
        ],
{
    let mut dirs: Vec<String> = Vec::new();
    dirs.push(under(root, "/.ronajo"));
    dirs.push(under(root, "/.ronajo/ratings"));
    dirs.push(under(root, "/.ronajo/notes"));
    dirs.push(under(root, "/.ronajo/devices"));
    dirs.push(under(root, "/.ronajo/library"));
    assert(texts(dirs@) =~= seq![
        root@ + "/.ronajo"@,
        root@ + "/.ronajo/ratings"@,
        root@ + "/.ronajo/notes"@,
        root@ + "/.ronajo/devices"@,
        root@ + "/.ronajo/library"@,
    ]);
    dirs
}

/// The move that changes the configuration root: the configuration folder
/// under the old root goes to the same place under the new root.
pub fn change_config_path(old_root: &str, new_root: &str) -> (paths: (String, String))
    ensures
        paths.0@ == old_root@ + "/.ronajo"@,
        paths.1@ == new_root@ + "/.ronajo"@,
{
    (config_folder(old_root), config_folder(new_root))
}

/// The folder of saved library shows.
pub fn library_path(root: &str) -> (p: String)
    ensures
        p@ == root@ + "/.ronajo/library"@,
{
    under(root, "/.ronajo/library")
}

/// The folder of notes.
pub fn notes_path(root: &str) -> (p: String)
    ensures
        p@ == root@ + "/.ronajo/notes"@,
{
    under(root, "/.ronajo/notes")
}

/// The folder of ratings.
pub fn ratings_path(root: &str) -> (p: String)
    ensures
        p@ == root@ + "/.ronajo/ratings"@,
{
    under(root, "/.ronajo/ratings")
}

/// The folder devices are read from and saved to; it is the ratings folder.
pub fn devices_path(root: &str) -> (p: String)
    ensures
        p@ == root@ + "/.ronajo/ratings"@,
{
    under(root, "/.ronajo/ratings")
}

/// The file of show `id` in a folder: the folder, `/`, and the decimal id.
pub fn show_file(dir: &str, id: u32) -> (p: String)
    ensures
        p@ == dir@ + "/"@ + decimal(id as nat),
{
    let mut p = under(dir, "/");
    push_decimal(&mut p, id as u64);
    p
}

/// The file of the device called `name` in a folder.
pub fn device_file(dir: &str, name: &str) -> (p: String)
    ensures
        p@ == dir@ + "/"@ + name@,
{
    let mut p = under(dir, "/");
    p.append(name);
    p
}

/// Whether the show with identifier `id` is in the library, given the names
/// of the library's files: one of them is the decimal id.
pub fn in_library(names: &Vec<String>, id: u32) -> (b: bool)
    ensures
        b == texts(names@).contains(decimal(id as nat)),
{
    let key = crate::text::decimal_string(id as u64);
    for i in 0..names.len()
        invariant
            key@ == decimal(id as nat),
            forall|j: int| 0 <= j < i ==> names@[j]@ != key@,
    {
        if names[i] == key {
            assert(texts(names@)[i as int] == key@);
            return true;
        }
    }
    assert forall|j: int| 0 <= j < texts(names@).len() implies texts(names@)[j] != key@ by {
        assert(texts(names@)[j] == names@[j]@);
    }
    false
}

/// Different shows are saved to different files of a folder.
pub proof fn distinct_shows_distinct_files(dir: Seq<char>, a: u32, b: u32)
    requires
        a != b,
    ensures
        dir + "/"@ + decimal(a as nat) != dir + "/"@ + decimal(b as nat),
{
    let p = dir + "/"@;
    if p + decimal(a as nat) == p + decimal(b as nat) {
        assert((p + decimal(a as nat)).skip(p.len() as int) =~= decimal(a as nat));
        assert((p + decimal(b as nat)).skip(p.len() as int) =~= decimal(b as nat));
        decimal_injective(a as nat, b as nat);
    }
}

} // verus!
