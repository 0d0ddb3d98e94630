//! The workspace: the mods that the client opened and the Lua files found in them.
use vstd::prelude::*;

use std::sync::Arc;

use crate::fmod::{LuaFile, Mod};
use crate::lsp_json::ClientCapabilities;
use crate::keyed::{
    find_key, lemma_entries_map_found, lemma_entries_map_remove, lemma_entries_map_update,
    lemma_keys_of_map, spec_entries_map, spec_unique_keys,
};
use crate::paths::{path_starts_with, spec_path_starts_with};

verus! {

/// The mods and Lua files that the server knows of, and what the client can do.
pub struct Workspace {
    client_capabilities: Option<ClientCapabilities>,
    mods: Vec<(String, Arc<Mod>)>,
    lua_files: Vec<(String, Arc<LuaFile>)>,
}

impl Workspace {
    #[verifier::type_invariant]
    spec fn keys_unique(self) -> bool {
        &&& spec_unique_keys(self.mods@)
        &&& spec_unique_keys(self.lua_files@)
        &&& forall|i: int|
            0 <= i < self.lua_files@.len() ==> (#[trigger] self.lua_files@[i]).1@
                == self.lua_files@[i].0@
    }

    /// The root directory of each mod, by mod name.
    pub closed spec fn mods(&self) -> Map<Seq<char>, Seq<char>> {
        spec_entries_map(self.mods@)
    }

    /// The mods as (name, root) pairs, in the order that `map_mods` visits them.
    pub closed spec fn mod_entries(&self) -> Seq<(Seq<char>, Seq<char>)> {
        self.mods@.map_values(|e: (String, Arc<Mod>)| (e.0@, e.1@))
    }

    /// The paths of the Lua files.
    pub closed spec fn lua_files(&self) -> Set<Seq<char>> {
        spec_entries_map(self.lua_files@).dom()
    }

    /// What the client told the server it can do.
    pub closed spec fn client_capabilities(&self) -> Option<ClientCapabilities> {
        self.client_capabilities
    }

    /// An empty workspace.
    pub fn new() -> (w: Workspace)
        ensures
            w.mods() == Map::<Seq<char>, Seq<char>>::empty(),
            w.lua_files() == Set::<Seq<char>>::empty(),
            w.mod_entries() == Seq::<(Seq<char>, Seq<char>)>::empty(),
            w.client_capabilities() is None,
    {
        let w = Workspace { client_capabilities: None, mods: Vec::new(), lua_files: Vec::new() };
        assert(w.lua_files() =~= Set::<Seq<char>>::empty());
        assert(w.mod_entries() =~= Seq::<(Seq<char>, Seq<char>)>::empty());
        w
    }

}

/// `Arc::clone`: another pointer to the same value.
#[verifier::external_body]
fn arc_clone<T>(a: &Arc<T>) -> (r: Arc<T>)
    ensures
        r == *a,
{
    Arc::clone(a)
}

impl Workspace {
    /// The mod named `name`, if there is one.
    pub fn get_mod(&self, name: &String) -> (r: Option<Arc<Mod>>)
        ensures
            match r {
                Some(m) => self.mods().contains_key(name@) && m@ == self.mods()[name@],
                None => !self.mods().contains_key(name@),
            },
    {
        proof {
            use_type_invariant(self);
        }
        match find_key(&self.mods, name) {
            Some(i) => Some(arc_clone(&self.mods[i].1)),
            None => None,
        }
    }

    /// The `i`th mod that `map_mods` visits.
    pub closed spec fn mod_entry(&self, i: int) -> (String, Arc<Mod>) {
        self.mods@[i]
    }

    /// `f` applied to each mod, as a (name, mod) pair, in the order of `mod_entries`.
    pub fn map_mods<T, F: Fn((&String, &Arc<Mod>)) -> T>(&self, f: F) -> (r: Vec<T>)
        requires
            forall|n: &String, m: &Arc<Mod>| #[trigger] f.requires(((n, m),)),
        ensures
            r@.len() == self.mod_entries().len(),
            forall|i: int|
                0 <= i < r@.len() ==> f.ensures(
                    ((&self.mod_entry(i).0, &self.mod_entry(i).1),),
                    #[trigger] r@[i],
                ),
            forall|i: int|
                0 <= i < self.mod_entries().len() ==> (#[trigger] self.mod_entry(i).0)@
                    == self.mod_entries()[i].0 && self.mod_entry(i).1@ == self.mod_entries()[i].1,
            forall|i: int, j: int|
                0 <= i < j < self.mod_entries().len() ==> (#[trigger] self.mod_entries()[i]).0
                    != (#[trigger] self.mod_entries()[j]).0,
            forall|k: Seq<char>|
                #![trigger self.mods().contains_key(k)]
                self.mods().contains_key(k) <==> exists|i: int|
                    0 <= i < self.mod_entries().len() && (#[trigger] self.mod_entries()[i]).0 == k,
            forall|i: int|
                0 <= i < self.mod_entries().len() ==> self.mods()[(
                #[trigger] self.mod_entries()[i]).0] == self.mod_entries()[i].1,
    {
        proof {
            use_type_invariant(self);
            assert forall|k: Seq<char>| #![trigger self.mods().contains_key(k)]
                self.mods().contains_key(k) <==> exists|i: int|
                    0 <= i < self.mod_entries().len() && (#[trigger] self.mod_entries()[i]).0
                        == k by {
                lemma_keys_of_map(self.mods@, k);
                if exists|i: int| 0 <= i < self.mods@.len() && (#[trigger] self.mods@[i]).0@ == k {
                    let i = choose|i: int| 0 <= i < self.mods@.len() && (#[trigger] self.mods@[i]).0@ == k;
                    assert(self.mod_entries()[i].0 == k);
                }
                if exists|i: int|
                    0 <= i < self.mod_entries().len() && (#[trigger] self.mod_entries()[i]).0 == k {
                    let i = choose|i: int|
                        0 <= i < self.mod_entries().len() && (#[trigger] self.mod_entries()[i]).0
                            == k;
                    assert(self.mods@[i].0@ == k);
                }
            }
            assert forall|i: int| 0 <= i < self.mod_entries().len() implies self.mods()[(
            #[trigger] self.mod_entries()[i]).0] == self.mod_entries()[i].1 by {
                lemma_entries_map_found(self.mods@, i);
            }
            assert forall|i: int, j: int|
                0 <= i < j < self.mod_entries().len() implies (#[trigger] self.mod_entries()[i]).0
                != (#[trigger] self.mod_entries()[j]).0 by {
                assert(self.mods@[i].0@ != self.mods@[j].0@);
            }
        }
        let mut out: Vec<T> = Vec::new();
        let n = self.mods.len();
        let mut i: usize = 0;
        while i < n
            invariant
                n == self.mods@.len(),
                0 <= i <= n,
                out@.len() == i,
                forall|n: &String, m: &Arc<Mod>| #[trigger] f.requires(((n, m),)),
                forall|j: int|
                    0 <= j < i ==> f.ensures(
                        ((&self.mod_entry(j).0, &self.mod_entry(j).1),),
                        #[trigger] out@[j],
                    ),
            decreases n - i,
        {
            let e = &self.mods[i];
            let v = f((&e.0, &e.1));
            out.push(v);
            i = i + 1;
        }
        out
    }

    /// Adds the Lua file at `path`.
    pub fn add_lua_file(&mut self, path: String)
        ensures
            final(self).lua_files() == old(self).lua_files().insert(path@),
            final(self).mods() == old(self).mods(),
            final(self).mod_entries() == old(self).mod_entries(),
            final(self).client_capabilities() == old(self).client_capabilities(),
    {
        proof {
            use_type_invariant(&*self);
        }
        let file = Arc::new(LuaFile::new(path.clone()));
        let mut files: Vec<(String, Arc<LuaFile>)> = Vec::new();
        std::mem::swap(&mut files, &mut self.lua_files);
        let ghost before = files@;
        match find_key(&files, &path) {
            Some(i) => {
                proof {
                    lemma_entries_map_update(files@, i as int, (path, file));
                }
                files.set(i, (path, file));
            },
            None => {
                files.push((path, file));
                assert(files@.drop_last() =~= before);
                assert forall|a: int, b: int| 0 <= a < b < files@.len() implies (
                #[trigger] files@[a]).0@ != (#[trigger] files@[b]).0@ by {
                    if b == files@.len() - 1 {
                        assert(files@[a] == before[a]);
                        lemma_entries_map_found(before, a);
                    } else {
                        assert(files@[a] == before[a]);
                        assert(files@[b] == before[b]);
                    }
                }
            },
        }
        self.lua_files = files;
        assert(self.lua_files() =~= old(self).lua_files().insert(path@));
    }

    /// Removes the Lua file at `path`, and gives it back if it was there.
    pub fn delete_lua_file(&mut self, path: &String) -> (r: Option<Arc<LuaFile>>)
        ensures
            final(self).lua_files() == old(self).lua_files().remove(path@),
            match r {
                Some(f) => old(self).lua_files().contains(path@) && f@ == path@,
                None => !old(self).lua_files().contains(path@),
            },
            final(self).mods() == old(self).mods(),
            final(self).mod_entries() == old(self).mod_entries(),
            final(self).client_capabilities() == old(self).client_capabilities(),
    {
        proof {
            use_type_invariant(&*self);
        }
        match find_key(&self.lua_files, path) {
            Some(i) => {
                proof {
                    lemma_entries_map_remove(self.lua_files@, i as int);
                }
                let mut files: Vec<(String, Arc<LuaFile>)> = Vec::new();
                std::mem::swap(&mut files, &mut self.lua_files);
                let ghost before = files@;
                let (_, f) = files.remove(i);
                assert forall|j: int| 0 <= j < files@.len() implies (#[trigger] files@[j]).1@
                    == files@[j].0@ by {
                    if j < i {
                        assert(files@[j] == before[j]);
                    } else {
                        assert(files@[j] == before[j + 1]);
                    }
                }
                self.lua_files = files;
                assert(self.lua_files() =~= old(self).lua_files().remove(path@));
                Some(f)
            },
            None => {
                assert(self.lua_files() =~= old(self).lua_files().remove(path@));
                None
            },
        }
    }
}

impl Workspace {
    /// Adds the mod `name` whose root directory is `root`, in place of any mod of
    /// that name. The Lua files under `root` are added by whoever reads the
    /// directory, with `add_lua_file`.
    pub fn add_mod(&mut self, name: String, root: String)
        ensures
            final(self).mods() == old(self).mods().insert(name@, root@),
            final(self).lua_files() == old(self).lua_files(),
            final(self).client_capabilities() == old(self).client_capabilities(),
    {
        proof {
            use_type_invariant(&*self);
        }
        let m = Arc::new(Mod::new(root));
        let mut mods: Vec<(String, Arc<Mod>)> = Vec::new();
        std::mem::swap(&mut mods, &mut self.mods);
        let ghost before = mods@;
        match find_key(&mods, &name) {
            Some(i) => {
                proof {
                    lemma_entries_map_update(mods@, i as int, (name, m));
                }
                mods.set(i, (name, m));
            },
            None => {
                mods.push((name, m));
                assert(mods@.drop_last() =~= before);
                assert forall|a: int, b: int| 0 <= a < b < mods@.len() implies (
                #[trigger] mods@[a]).0@ != (#[trigger] mods@[b]).0@ by {
                    if b == mods@.len() - 1 {
                        assert(mods@[a] == before[a]);
                        lemma_entries_map_found(before, a);
                    } else {
                        assert(mods@[a] == before[a]);
                        assert(mods@[b] == before[b]);
                    }
                }
            },
        }
        self.mods = mods;
        assert(self.mods() =~= old(self).mods().insert(name@, root@));
    }

    /// Removes every Lua file whose path lies under the directory `path`
    /// (whole path components, as `Path::starts_with` compares them).
    pub fn remove_directory(&mut self, path: &String)
        ensures
            final(self).lua_files() == old(self).lua_files().filter(
                |p: Seq<char>| !spec_path_starts_with(p, path@),
            ),
            final(self).mods() == old(self).mods(),
            final(self).mod_entries() == old(self).mod_entries(),
            final(self).client_capabilities() == old(self).client_capabilities(),
    {
        proof {
            use_type_invariant(&*self);
        }
        let mut files: Vec<(String, Arc<LuaFile>)> = Vec::new();
        std::mem::swap(&mut files, &mut self.lua_files);
        let es = files;
        let ghost old_es = es@;
        let mut kept: Vec<(String, Arc<LuaFile>)> = Vec::new();
        let ghost mut src: Seq<int> = Seq::empty();
        let n = es.len();
        let mut i: usize = 0;
        let ghost pred = |p: Seq<char>| !spec_path_starts_with(p, path@);
        while i < n
            invariant
                n == es@.len(),
                es@ == old_es,
                0 <= i <= n,
                spec_unique_keys(old_es),
                forall|j: int| 0 <= j < n ==> (#[trigger] old_es[j]).1@ == old_es[j].0@,
                pred == (|p: Seq<char>| !spec_path_starts_with(p, path@)),
                src.len() == kept@.len(),
                forall|a: int| 0 <= a < src.len() ==> 0 <= #[trigger] src[a] < i,
                forall|a: int, b: int| 0 <= a < b < src.len() ==> #[trigger] src[a] < #[trigger] src[b],
                forall|a: int|
                    0 <= a < src.len() ==> #[trigger] kept@[a] == old_es[src[a]] && pred(
                        old_es[src[a]].0@,
                    ),
                forall|j: int|
                    0 <= j < i && pred(#[trigger] old_es[j].0@) ==> exists|a: int|
                        0 <= a < src.len() && #[trigger] src[a] == j,
            decreases n - i,
        {
            let keep = !path_starts_with(es[i].0.as_str(), path.as_str());
            let ghost old_src = src;
            let ghost old_kept = kept@;
            if keep {
                let e = (es[i].0.clone(), arc_clone(&es[i].1));
                kept.push(e);
                proof {
                    src = src.push(i as int);
                }
            }
            proof {
                assert forall|a: int| 0 <= a < src.len() implies #[trigger] kept@[a] == old_es[src[a]]
                    && pred(old_es[src[a]].0@) by {
                    if a < old_src.len() {
                        assert(src[a] == old_src[a]);
                        assert(kept@[a] == old_kept[a]);
                    }
                }
                assert forall|j: int| 0 <= j < i + 1 && pred(#[trigger] old_es[j].0@) implies exists|
                    a: int,
                | 0 <= a < src.len() && #[trigger] src[a] == j by {
                    if j < i {
                        let a = choose|a: int| 0 <= a < old_src.len() && #[trigger] old_src[a] == j;
                        assert(src[a] == old_src[a]);
                    } else {
                        assert(src[src.len() - 1] == j);
                    }
                }
            }
            i = i + 1;
        }
        proof {
            assert forall|a: int, b: int| 0 <= a < b < kept@.len() implies (
            #[trigger] kept@[a]).0@ != (#[trigger] kept@[b]).0@ by {
                assert(src[a] < src[b]);
                assert(old_es[src[a]].0@ != old_es[src[b]].0@);
            }
            assert forall|a: int| 0 <= a < kept@.len() implies (#[trigger] kept@[a]).1@
                == kept@[a].0@ by {
                assert(kept@[a] == old_es[src[a]]);
            }
        }
        self.lua_files = kept;
        proof {
            let newset = self.lua_files();
            let want = old(self).lua_files().filter(pred);
            assert forall|k: Seq<char>| newset.contains(k) <==> want.contains(k) by {
                lemma_keys_of_map(kept@, k);
                lemma_keys_of_map(old_es, k);
                if newset.contains(k) {
                    let a = choose|a: int| 0 <= a < kept@.len() && (#[trigger] kept@[a]).0@ == k;
                    assert(kept@[a] == old_es[src[a]]);
                    assert(old_es[src[a]].0@ == k);
                }
                if want.contains(k) {
                    let j = choose|j: int| 0 <= j < old_es.len() && (#[trigger] old_es[j]).0@ == k;
                    assert(pred(old_es[j].0@));
                    let a = choose|a: int| 0 <= a < src.len() && #[trigger] src[a] == j;
                    assert(kept@[a].0@ == k);
                }
            }
            assert(newset =~= want);
        }
    }

    /// Removes the mod `name` and the Lua files under its root, and gives the mod
    /// back if it was there.
    pub fn remove_mod(&mut self, name: &String) -> (r: Option<Arc<Mod>>)
        ensures
            final(self).mods() == old(self).mods().remove(name@),
            match r {
                Some(m) => old(self).mods().contains_key(name@) && m@ == old(self).mods()[name@]
                    && final(self).lua_files() == old(self).lua_files().filter(
                    |p: Seq<char>| !spec_path_starts_with(p, m@),
                ),
                None => !old(self).mods().contains_key(name@) && final(self).lua_files() == old(
                    self,
                ).lua_files(),
            },
            final(self).client_capabilities() == old(self).client_capabilities(),
    {
        proof {
            use_type_invariant(&*self);
        }
        match find_key(&self.mods, name) {
            Some(i) => {
                proof {
                    lemma_entries_map_remove(self.mods@, i as int);
                }
                let mut mods: Vec<(String, Arc<Mod>)> = Vec::new();
                std::mem::swap(&mut mods, &mut self.mods);
                let (_, m) = mods.remove(i);
                self.mods = mods;
                assert(self.mods() =~= old(self).mods().remove(name@));
                self.remove_directory(m.get_root());
                Some(m)
            },
            None => {
                assert(self.mods() =~= old(self).mods().remove(name@));
                None
            },
        }
    }

    /// Records what the client can do.
    pub fn set_client_capabilities(&mut self, capabilities: ClientCapabilities)
        ensures
            final(self).client_capabilities() == Some(capabilities),
            final(self).mods() == old(self).mods(),
            final(self).mod_entries() == old(self).mod_entries(),
            final(self).lua_files() == old(self).lua_files(),
    {
        proof {
            use_type_invariant(&*self);
        }
        self.client_capabilities = Some(capabilities);
    }

    /// What the client can do, as it told the server.
    pub fn get_client_capabilities(&self) -> (r: &Option<ClientCapabilities>)
        ensures
            *r == self.client_capabilities(),
    {
        &self.client_capabilities
    }
}

/// A mod added under `name` with root `root` is found under `name`, with that root:
/// `get_mod(name)` after `add_mod(name, root)` gives it.
pub proof fn law_added_mod_is_found(
    before: Workspace,
    after: Workspace,
    name: Seq<char>,
    root: Seq<char>,
)
    requires
        after.mods() == before.mods().insert(name, root),
    ensures
        after.mods().contains_key(name),
        after.mods()[name] == root,
{
}

/// After `remove_mod(name)` the mod is gone, and so is every Lua file under the
/// root it had; the other mods stay as they were.
pub proof fn law_removed_mod_is_gone(
    before: Workspace,
    after: Workspace,
    name: Seq<char>,
    root: Seq<char>,
)
    requires
        before.mods().contains_key(name),
        root == before.mods()[name],
        after.mods() == before.mods().remove(name),
        after.lua_files() == before.lua_files().filter(
            |p: Seq<char>| !spec_path_starts_with(p, root),
        ),
    ensures
        !after.mods().contains_key(name),
        forall|p: Seq<char>| #[trigger]
            after.lua_files().contains(p) ==> !spec_path_starts_with(p, root),
        forall|k: Seq<char>|
            k != name ==> #[trigger] after.mods().contains_key(k) == before.mods().contains_key(k),
{
}

/// A Lua file added at `path` is there until it is deleted, and deleting it gives
/// it back: `delete_lua_file(path)` after `add_lua_file(path)` returns the file at
/// `path`, and the file is gone.
pub proof fn law_added_lua_file_deleted(
    before: Workspace,
    added: Workspace,
    after: Workspace,
    path: Seq<char>,
)
    requires
        added.lua_files() == before.lua_files().insert(path),
        after.lua_files() == added.lua_files().remove(path),
    ensures
        added.lua_files().contains(path),
        !after.lua_files().contains(path),
        after.lua_files() == before.lua_files().remove(path),
{
    assert(after.lua_files() =~= before.lua_files().remove(path));
}

} // verus!
