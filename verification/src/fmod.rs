//! The files and mods that a workspace holds.
use vstd::prelude::*;

verus! {

pub struct FileData {
    pub path: String,
}

pub struct LuaFile {
    pub file: FileData,
}

impl View for LuaFile {
    type V = Seq<char>;

    /// The path of the file.
    open spec fn view(&self) -> Seq<char> {
        self.file.path@
    }
}

impl LuaFile {
    /// The Lua file at `path`.
    pub fn new(path: String) -> (f: LuaFile)
        ensures
            f@ == path@,
    {
        LuaFile { file: FileData { path } }
    }
}

pub struct Mod {
    root: String,
}

impl View for Mod {
    type V = Seq<char>;

    /// The root directory of the mod.
    closed spec fn view(&self) -> Seq<char> {
        self.root@
    }
}

impl Mod {
    /// The mod whose root directory is `root_path`.
    pub fn new(root_path: String) -> (m: Mod)
        ensures
            m@ == root_path@,
    {
        Mod { root: root_path }
    }

    /// The root directory of the mod.
    pub fn get_root(&self) -> (r: &String)
        ensures
            r@ == self@,
    {
        &self.root
    }
}

} // verus!
