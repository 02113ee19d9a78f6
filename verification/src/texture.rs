//! Texture bookkeeping.
//!
//! The manager owns decoded texture data and hands out small copyable
//! handles. Decoding image files is input work and happens outside the
//! runtime; the manager is given the decoded pixels and keeps the books:
//! ids are assigned in order starting at 1 (0 is the invalid handle), one
//! handle per distinct path is cached, and data is retrievable until
//! unloaded.

use vstd::prelude::*;
use vstd::hash_map::{HashMapWithView, StringHashMap};
use vstd::string::StringExecFns;

use crate::config::Config;

verus! {

broadcast use vstd::std_specs::hash::group_hash_axioms;

/// A small copyable name for a loaded texture; id 0 is the invalid handle.
#[derive(Debug, Clone, Copy, PartialEq, Eq, Structural, Hash)]
pub struct TextureHandle {
    id: u32,
}

impl TextureHandle {
    /// The handle's id.
    pub closed spec fn spec_id(&self) -> u32 {
        self.id
    }

    /// The handle that names no texture.
    pub fn invalid() -> (h: TextureHandle)
        ensures
            h.spec_id() == 0,
    {
        TextureHandle { id: 0 }
    }

    /// Whether the handle can name a texture: every handle the manager
    /// hands out is valid.
    pub fn is_valid(&self) -> (r: bool)
        ensures
            r == (self.spec_id() != 0),
    {
        self.id != 0
    }

    /// The handle's id.
    pub fn id(&self) -> (r: u32)
        ensures
            r == self.spec_id(),
    {
        self.id
    }
}

/// Pixel layouts a decoded texture can arrive in.
#[derive(Debug, Clone, Copy, PartialEq, Eq, Structural)]
pub enum TextureFormat {
    Rgba8,
    Rgb8,
    Bgra8,
}

/// A decoded texture: dimensions, pixel layout, and the raw bytes.
#[derive(Debug, Clone)]
pub struct TextureData {
    pub width: u32,
    pub height: u32,
    pub format: TextureFormat,
    pub data: Vec<u8>,
}

/// Owns decoded textures, keyed by id, with one cached handle per path.
pub struct TextureManager {
    textures: HashMapWithView<u32, TextureData>,
    path_cache: StringHashMap<TextureHandle>,
    next_id: u32,
    config: Config,
}

impl TextureManager {
    /// The stored textures, by id.
    pub closed spec fn textures_map(&self) -> Map<u32, TextureData> {
        self.textures@
    }

    /// The handle cache, by path.
    pub closed spec fn cache_map(&self) -> Map<Seq<char>, TextureHandle> {
        self.path_cache@
    }

    /// The id the next stored texture will get.
    pub closed spec fn spec_next_id(&self) -> u32 {
        self.next_id
    }

    /// The configuration the manager was built with.
    pub closed spec fn spec_config(&self) -> Config {
        self.config
    }

    /// The manager's validity: ids start at 1, and every stored id is below
    /// the next one, so a fresh id never collides.
    pub open spec fn wf(&self) -> bool {
        &&& 1 <= self.spec_next_id()
        &&& forall|k: u32| #[trigger] self.textures_map().contains_key(k) ==> k < self.spec_next_id()
        &&& forall|p: Seq<char>| #[trigger] self.cache_map().contains_key(p)
            ==> 0 < self.cache_map()[p].spec_id() < self.spec_next_id()
    }

    /// An empty manager holding the given configuration.
    pub fn new(config: Config) -> (m: TextureManager)
        ensures
            m.wf(),
            m.textures_map() =~= Map::<u32, TextureData>::empty(),
            m.cache_map() =~= Map::<Seq<char>, TextureHandle>::empty(),
            m.spec_next_id() == 1,
            m.spec_config() == config,
    {
        TextureManager {
            textures: HashMapWithView::new(),
            path_cache: StringHashMap::new(),
            next_id: 1,
            config,
        }
    }

    /// Where a texture asset lives on disk: the configured texture directory
    /// with `path` appended, or `None` while no directory is configured.
    pub fn texture_path(&self, path: &str) -> (r: Option<String>)
        requires
            self.spec_config().paths is Some,
        ensures
            match self.spec_config().paths {
                Some(p) => match (p.texture_dir, r) {
                    (Some(dir), Some(full)) => full@ == dir@ + path@,
                    (None, None) => true,
                    _ => false,
                },
                None => false,
            },
    {
        match self.config.get_texture_dir() {
            Some(dir) => Some(dir.concat(path)),
            None => None,
        }
    }

    /// Stores the decoded texture `data` under `path` and returns its
    /// handle. A path already loaded returns its cached handle and changes
    /// nothing — the data passed along is dropped. A fresh path gets the
    /// next id, its data stored, and its handle cached. Every returned
    /// handle is valid.
    pub fn load(&mut self, path: &str, data: TextureData) -> (h: TextureHandle)
        requires
            old(self).wf(),
            old(self).spec_next_id() < u32::MAX,
        ensures
            final(self).wf(),
            h.spec_id() != 0,
            old(self).cache_map().contains_key(path@) ==> h == old(self).cache_map()[path@]
                && *final(self) == *old(self),
            !old(self).cache_map().contains_key(path@) ==> {
                &&& h.spec_id() == old(self).spec_next_id()
                &&& final(self).spec_next_id() == old(self).spec_next_id() + 1
                &&& final(self).textures_map() == old(self).textures_map().insert(
                    old(self).spec_next_id(),
                    data,
                )
                &&& final(self).cache_map() == old(self).cache_map().insert(path@, h)
                &&& final(self).spec_config() == old(self).spec_config()
            },
    {
        match self.path_cache.get(path) {
            Some(h) => {
                proof {
                    assert(self.cache_map().contains_key(path@));
                }
                return *h;
            },
            None => (),
        }
        let id = self.next_id;
        self.next_id = self.next_id + 1;
        self.textures.insert(id, data);
        let handle = TextureHandle { id };
        self.path_cache.insert(path.to_owned(), handle);
        proof {
            assert forall|k: u32| #[trigger] self.textures_map().contains_key(k) implies k
                < self.spec_next_id() by {
                if k != id {
                    assert(old(self).textures_map().contains_key(k));
                }
            }
            assert forall|q: Seq<char>| #[trigger] self.cache_map().contains_key(q) implies 0
                < self.cache_map()[q].spec_id() < self.spec_next_id() by {
                if q != path@ {
                    assert(old(self).cache_map().contains_key(q));
                }
            }
        }
        handle
    }

    /// The data of the texture `handle` names, while it is loaded.
    pub fn get(&self, handle: &TextureHandle) -> (r: Option<&TextureData>)
        ensures
            match r {
                Some(d) => self.textures_map().contains_key(handle.spec_id()) && *d
                    == self.textures_map()[handle.spec_id()],
                None => !self.textures_map().contains_key(handle.spec_id()),
            },
    {
        self.textures.get(&handle.id)
    }

    /// Drops the texture `handle` names; a handle naming nothing changes
    /// nothing. The path cache keeps its entry, so loading the same path
    /// again yields the old handle — then naming no data.
    pub fn unload(&mut self, handle: TextureHandle)
        ensures
            old(self).wf() ==> final(self).wf(),
            final(self).textures_map() == old(self).textures_map().remove(handle.spec_id()),
            final(self).cache_map() == old(self).cache_map(),
            final(self).spec_next_id() == old(self).spec_next_id(),
            final(self).spec_config() == old(self).spec_config(),
    {
        proof {
            if !self.textures@.contains_key(handle.id) {
                assert(self.textures@.remove(handle.id) =~= self.textures@);
            }
        }
        let _removed = self.textures.remove(&handle.id);
        proof {
            if old(self).wf() {
                assert forall|k: u32| #[trigger] self.textures_map().contains_key(k) implies k
                    < self.spec_next_id() by {
                    assert(old(self).textures_map().contains_key(k));
                }
                assert forall|q: Seq<char>| #[trigger] self.cache_map().contains_key(q) implies 0
                    < self.cache_map()[q].spec_id() < self.spec_next_id() by {
                    assert(old(self).cache_map().contains_key(q));
                }
            }
        }
    }

    /// The id the next stored texture will get; fresh handles exist while
    /// it is below the id ceiling.
    pub fn next_id(&self) -> (r: u32)
        ensures
            r == self.spec_next_id(),
    {
        self.next_id
    }

    /// The configuration the manager was built with.
    pub fn config(&self) -> (r: &Config)
        ensures
            *r == self.spec_config(),
    {
        &self.config
    }

    /// How many textures are loaded.
    pub fn loaded_count(&self) -> (n: usize)
        ensures
            n == self.textures_map().len(),
    {
        self.textures.len()
    }
}

} // verus!
