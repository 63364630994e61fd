use spacegame::assets::{Asset, AssetError, AssetManager, Audio, Handle, Loader, LoadingStatus};
use spacegame::loaders::{AudioSyncLoader, EmptyPrefab, PrefabSyncLoader, ShaderAsset, ShaderLoader};
use spacegame::scene::{Scene, SceneResult, SceneStack};
use spacegame::sprite::{
    Packed, PackedSpriteAsset, SpriteAsset, SpriteAssetMetadata, SpritePackLoader, SpriteSyncLoader,
};

#[derive(Debug, PartialEq)]
struct Named(&'static str);

impl Scene for Named {
    type World = Vec<String>;
    type Resources = ();

    fn on_create(&mut self, world: &mut Vec<String>, _resources: &mut ()) {
        world.push(format!("create {}", self.0));
    }

    fn on_destroy(&mut self, world: &mut Vec<String>) {
        world.push(format!("destroy {}", self.0));
    }

    fn update(&mut self, _dt: u64, _world: &mut Vec<String>, _resources: &()) -> SceneResult<Self> {
        SceneResult::Noop
    }
}

#[test]
fn push_then_pop_gives_back_the_scene() {
    let mut world = vec![];
    let mut stack: SceneStack<Named> = SceneStack::default();
    stack.push(Named("menu"), &mut world, &mut ());
    stack.push(Named("game"), &mut world, &mut ());
    assert_eq!(stack.len(), 2);
    assert_eq!(stack.pop(&mut world), Some(Named("game")));
    assert_eq!(stack.len(), 1);
    assert_eq!(stack.current_mut().map(|s| s.0), Some("menu"));
    assert_eq!(world, vec!["create menu", "create game", "destroy game"]);
}

#[test]
fn pop_on_empty_stack() {
    let mut world = vec![];
    let mut stack: SceneStack<Named> = SceneStack::default();
    assert_eq!(stack.pop(&mut world), None);
    assert_eq!(stack.len(), 0);
    assert!(stack.current_mut().is_none());
}

#[test]
fn replace_and_apply_results() {
    let mut world = vec![];
    let mut stack: SceneStack<Named> = SceneStack::default();
    stack.replace(Named("a"), &mut world, &mut ());
    assert_eq!(stack.len(), 1);
    stack.apply_result(SceneResult::Push(Named("b")), &mut world, &mut ());
    assert_eq!(stack.len(), 2);
    stack.apply_result(SceneResult::ReplaceScene(Named("c")), &mut world, &mut ());
    assert_eq!(stack.len(), 2);
    assert_eq!(stack.current_mut().map(|s| s.0), Some("c"));
    stack.apply_result(SceneResult::Noop, &mut world, &mut ());
    assert_eq!(stack.len(), 2);
    stack.apply_result(SceneResult::ReplaceAll(Named("d")), &mut world, &mut ());
    assert_eq!(stack.len(), 1);
    stack.apply_result(SceneResult::Pop, &mut world, &mut ());
    assert_eq!(stack.len(), 0);
}

#[test]
fn loading_status_moves_to_ready() {
    let mut s: LoadingStatus<u32, ()> = LoadingStatus::Loaded(5);
    s.move_to_read();
    assert!(matches!(s, LoadingStatus::Ready(5)));
    // moving again changes nothing
    s.move_to_read();
    assert!(matches!(s, LoadingStatus::Ready(5)));
    let mut l: LoadingStatus<u32, ()> = LoadingStatus::Loading;
    l.move_to_read();
    assert!(matches!(l, LoadingStatus::Loading));
    let mut e: LoadingStatus<u32, &str> = LoadingStatus::Error("x");
    e.move_to_read();
    assert!(matches!(e, LoadingStatus::Error("x")));
}

#[test]
fn asset_states() {
    let a: Asset<u32> = Asset::new();
    assert!(!a.is_loaded() && !a.is_error());
    let r = Asset::from_asset(3u32);
    assert!(r.is_loaded());
    // only an asset waiting for upload is copied out
    assert_eq!(r.clone_inner(), None);
    assert_eq!(r.execute(|x| x + 1), Some(4));
    let e: Asset<u32> = Asset::from_error(AssetError::IoError("gone".to_string()));
    assert!(e.is_error());
    assert_eq!(e.execute(|x| x + 1), None);
    let mut m: Asset<u32> = Asset::new();
    m.set_loaded(9);
    assert!(!m.is_loaded());
    assert_eq!(m.clone_inner(), Some(9));
    assert!(matches!(m.into_status(), LoadingStatus::Loaded(9)));
}

/// Loader for the tests: counts the loads, and fails on names starting with "bad".
struct CountingLoader {
    loads: usize,
}

impl Loader<String, String> for CountingLoader {
    type Context = Vec<String>;

    fn load(&mut self, asset_name: String) -> Asset<String> {
        self.loads += 1;
        let mut a = Asset::new();
        if asset_name.starts_with("bad") {
            a.set_error(AssetError::IoError(asset_name));
        } else {
            a.set_loaded(asset_name.to_uppercase());
        }
        a
    }

    fn upload_to_gpu(&self, ctx: &mut Vec<String>, inner: &mut String) -> Result<(), AssetError> {
        if inner.contains("NOGPU") {
            return Err(AssetError::TextureError(inner.clone()));
        }
        ctx.push(inner.clone());
        Ok(())
    }
}

#[test]
fn asset_manager_loads_once() {
    let mut mgr = AssetManager::from_loader(CountingLoader { loads: 0 });
    let h = mgr.load("ship.png".to_string());
    let h2 = mgr.load("ship.png".to_string());
    assert_eq!(h.0, h2.0);
    assert_eq!(mgr.keys().len(), 1);
    // loaded but not uploaded yet
    assert!(!mgr.is_loaded(&h));
    assert_eq!(mgr.get(&h).and_then(|a| a.clone_inner()), Some("SHIP.PNG".to_string()));
    let mut ctx = vec![];
    mgr.upload_all(&mut ctx);
    assert!(mgr.is_loaded(&h));
    assert_eq!(ctx, vec!["SHIP.PNG".to_string()]);
    assert_eq!(mgr.get(&h).and_then(|a| a.execute(|s| s.len())), Some(8));
}

#[test]
fn asset_manager_errors() {
    let mut mgr = AssetManager::from_loader(CountingLoader { loads: 0 });
    let bad = mgr.load("bad.png".to_string());
    let nogpu = mgr.load("nogpu.png".to_string());
    let mut ctx = vec![];
    mgr.upload_all(&mut ctx);
    assert!(mgr.is_error(&bad));
    assert!(mgr.is_error(&nogpu));
    assert!(ctx.is_empty());
    let unknown = Handle("other.png".to_string());
    assert!(!mgr.is_loaded(&unknown));
    assert!(!mgr.is_error(&unknown));
    assert!(mgr.get(&unknown).is_none());
}

#[test]
fn asset_manager_reload_replaces() {
    let mut mgr = AssetManager::from_loader(CountingLoader { loads: 0 });
    let h = mgr.load("a".to_string());
    mgr.upload_all(&mut vec![]);
    assert!(mgr.is_loaded(&h));
    mgr.reload("a".to_string());
    assert_eq!(mgr.keys().len(), 1);
    assert!(!mgr.is_loaded(&h));
    mgr.reload("b".to_string());
    let keys: Vec<String> = mgr.keys().into_iter().map(|h| h.0).collect();
    assert_eq!(keys, vec!["a".to_string(), "b".to_string()]);
}

#[test]
fn sync_loaders() {
    assert_eq!(AudioSyncLoader::new("audio".to_string()).base_path(), "audio");
    assert_eq!(PrefabSyncLoader::new("prefab".to_string()).base_path(), "prefab");
    assert_eq!(ShaderLoader::new("shaders".to_string()).base_path(), "shaders");
    assert_eq!(SpriteSyncLoader::new("sprites".to_string()).base_path(), "sprites");
    let a = AudioSyncLoader::asset_from_file(Ok(vec![1, 2, 3]));
    assert!(matches!(a.into_status(), LoadingStatus::Loaded(Audio::File(ref b)) if b == &vec![1, 2, 3]));
    let e = AudioSyncLoader::asset_from_file(Err(AssetError::IoError("no".to_string())));
    assert!(e.is_error());
    assert!(matches!(Audio::default(), Audio::Empty));
    let p = PrefabSyncLoader::asset_from_parsed(Ok(EmptyPrefab));
    assert!(matches!(p.into_status(), LoadingStatus::Loaded(EmptyPrefab)));
    let s: Asset<ShaderAsset<u8>> =
        ShaderLoader::asset_from_sources(Ok("v".to_string()), Err(AssetError::IoError("f".to_string())));
    assert!(s.is_error());
    let s2: Asset<ShaderAsset<u8>> = ShaderLoader::asset_from_sources(Ok("v".to_string()), Ok("f".to_string()));
    match s2.into_status() {
        LoadingStatus::Loaded(sh) => {
            assert_eq!(sh.vertex_shader, "v");
            assert_eq!(sh.fragment_shader, "f");
            assert!(sh.shader.is_none());
        }
        _ => panic!("shader sources should be loaded"),
    }
    let d: ShaderAsset<u8> = ShaderAsset::default();
    assert!(d.vertex_shader.is_empty() && d.shader.is_none());
}

#[test]
fn packed_sprites_and_fallback() {
    let sampler = SpriteAssetMetadata::default().sampler;
    let packed = Packed::from_entries(vec![
        ("a.png".to_string(), PackedSpriteAsset { w: 1, h: 1, data: vec![0; 4], sampler }),
        ("b.png".to_string(), PackedSpriteAsset { w: 2, h: 1, data: vec![1; 8], sampler }),
        ("a.png".to_string(), PackedSpriteAsset { w: 3, h: 1, data: vec![2; 12], sampler }),
    ]);
    let loader = SpritePackLoader::new(packed, SpriteSyncLoader::new("fallback".to_string()));
    assert_eq!(loader.fallback_loader().base_path(), "fallback");
    let a: Asset<SpriteAsset<u8>> = loader.load_packed("a.png").unwrap();
    match a.into_status() {
        LoadingStatus::Loaded(SpriteAsset::Loading(w, h, data, s)) => {
            assert_eq!((w, h), (3, 1));
            assert_eq!(data, vec![2; 12]);
            assert_eq!(s, sampler);
        }
        _ => panic!("packed sprite should be loaded"),
    }
    assert!(loader.load_packed::<u8>("c.png").is_none());
    let t: Asset<SpriteAsset<u8>> = SpriteSyncLoader::asset_from_texels(Ok((2, 2, vec![9; 16])), sampler);
    assert!(matches!(t.into_status(), LoadingStatus::Loaded(SpriteAsset::Loading(2, 2, _, _))));
    let up: SpriteAsset<u8> = SpriteAsset::Uploaded(4);
    assert_eq!(up.texture(), Some(&4));
    assert_eq!(SpriteAsset::<u8>::default().texture(), None);
}

#[test]
fn asset_from_error_and_mutation() {
    let a: Asset<u32> = Asset::from(AssetError::JsonError("bad".to_string()));
    assert!(a.is_error());
    let mut r = Asset::from_asset(vec![1u8]);
    assert_eq!(r.execute_mut(|v| { v.push(2); v.len() }), Some(2));
    assert_eq!(r.execute(|v| v.clone()), Some(vec![1, 2]));
    let mut l: Asset<u32> = Asset::default();
    assert_eq!(l.execute_mut(|v| *v + 1), None);
}

#[test]
fn asset_manager_get_mut() {
    let mut mgr = AssetManager::from_loader(CountingLoader { loads: 0 });
    let h = mgr.load("x".to_string());
    if let Some(a) = mgr.get_mut(&h) {
        a.set_error(AssetError::PackedError("x".to_string()));
    }
    assert!(mgr.is_error(&h));
    assert!(mgr.get_mut(&Handle("y".to_string())).is_none());
}
