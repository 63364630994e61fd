use crate::assets::{Asset, AssetError, Audio, LoadingStatus};
use vstd::prelude::*;

verus! {

/// Loads sounds and musics from files under a directory.
#[derive(Debug)]
pub struct AudioSyncLoader {
    base_path: String,
}

impl AudioSyncLoader {
    pub fn new(base_path: String) -> (r: Self)
        ensures
            r.spec_base_path() == base_path@,
    {
        Self { base_path }
    }

    pub closed spec fn spec_base_path(&self) -> Seq<char> {
        self.base_path@
    }

    /// Directory of the sounds.
    pub fn base_path(&self) -> (r: &String)
        ensures
            r@ == self.spec_base_path(),
    {
        &self.base_path
    }

    /// The asset made of what was read of a sound file: its bytes, waiting for upload;
    /// or the error.
    pub fn asset_from_file(content: Result<Vec<u8>, AssetError>) -> (r: Asset<Audio>)
        ensures
            match content {
                Ok(bytes) => r.status() == LoadingStatus::<Audio, AssetError>::Loaded(Audio::File(bytes)),
                Err(e) => r.status() == LoadingStatus::<Audio, AssetError>::Error(e),
            },
    {
        let mut asset = Asset::new();
        match content {
            Ok(bytes) => asset.set_loaded(Audio::File(bytes)),
            Err(e) => asset.set_error(e),
        }
        asset
    }
}

/// Loads prefabs from JSON files under a directory.
#[derive(Debug)]
pub struct PrefabSyncLoader {
    base_path: String,
}

impl PrefabSyncLoader {
    pub fn new(base_path: String) -> (r: Self)
        ensures
            r.spec_base_path() == base_path@,
    {
        Self { base_path }
    }

    pub closed spec fn spec_base_path(&self) -> Seq<char> {
        self.base_path@
    }

    /// Directory of the prefabs.
    pub fn base_path(&self) -> (r: &String)
        ensures
            r@ == self.spec_base_path(),
    {
        &self.base_path
    }

    /// The asset made of a prefab read and parsed, waiting for upload; or the error.
    pub fn asset_from_parsed<P>(parsed: Result<P, AssetError>) -> (r: Asset<P>)
        ensures
            match parsed {
                Ok(p) => r.status() == LoadingStatus::<P, AssetError>::Loaded(p),
                Err(e) => r.status() == LoadingStatus::<P, AssetError>::Error(e),
            },
    {
        let mut asset = Asset::new();
        match parsed {
            Ok(p) => asset.set_loaded(p),
            Err(e) => asset.set_error(e),
        }
        asset
    }
}

/// Prefab that spawns nothing; the value of a prefab asset before it is loaded.
#[derive(Debug, Copy, Clone)]
pub struct EmptyPrefab;

/// Source of the shaders of a program, and the program `P` once compiled.
#[derive(Debug)]
pub struct ShaderAsset<P> {
    pub vertex_shader: String,
    pub fragment_shader: String,
    pub shader: Option<P>,
}

impl<P> Default for ShaderAsset<P> {
    fn default() -> (r: Self)
        ensures
            r.vertex_shader@.len() == 0,
            r.fragment_shader@.len() == 0,
            r.shader is None,
    {
        Self { vertex_shader: String::new(), fragment_shader: String::new(), shader: None }
    }
}

/// Loads shaders from files under a directory.
#[derive(Debug)]
pub struct ShaderLoader {
    base_path: String,
}

impl ShaderLoader {
    pub fn new(base_path: String) -> (r: Self)
        ensures
            r.spec_base_path() == base_path@,
    {
        Self { base_path }
    }

    pub closed spec fn spec_base_path(&self) -> Seq<char> {
        self.base_path@
    }

    /// Directory of the shaders.
    pub fn base_path(&self) -> (r: &String)
        ensures
            r@ == self.spec_base_path(),
    {
        &self.base_path
    }

    /// The asset made of what was read of the vertex and fragment shader files: both
    /// sources, waiting for compilation; or the error of the vertex shader, else the
    /// error of the fragment shader.
    pub fn asset_from_sources<P>(vertex: Result<String, AssetError>, fragment: Result<String, AssetError>) -> (r:
        Asset<ShaderAsset<P>>)
        ensures
            match (vertex, fragment) {
                (Ok(v), Ok(f)) => r.status() matches LoadingStatus::Loaded(s) && s.vertex_shader@ == v@
                    && s.fragment_shader@ == f@ && s.shader is None,
                (Err(e), _) => r.status() == LoadingStatus::<ShaderAsset<P>, AssetError>::Error(e),
                (Ok(_), Err(e)) => r.status() == LoadingStatus::<ShaderAsset<P>, AssetError>::Error(e),
            },
    {
        let mut asset = Asset::new();
        match (vertex, fragment) {
            (Ok(vertex_shader), Ok(fragment_shader)) => {
                asset.set_loaded(ShaderAsset { vertex_shader, fragment_shader, shader: None })
            },
            (Err(e), _) => asset.set_error(e),
            (Ok(_), Err(e)) => asset.set_error(e),
        }
        asset
    }
}

} // verus!
