use vstd::prelude::*;

verus! {

/// Name of an asset in an asset manager.
#[derive(Debug, Clone)]
pub struct Handle<H>(pub H);

/// Why an asset could not be loaded; the text is the cause's message.
#[derive(Debug)]
pub enum AssetError {
    IoError(String),
    ImageError(String),
    JsonError(String),
    ShaderError(String),
    TextureError(String),
    /// The packed data has no asset of that name.
    PackedError(String),
}

/// Where an asset is in its life: loaded from disk (`Loaded`), uploaded and usable
/// (`Ready`), still loading, or failed.
#[derive(Debug)]
pub enum LoadingStatus<T, E> {
    Ready(T),
    Loaded(T),
    Loading,
    Error(E),
}

/// The status after `move_to_read`: a loaded asset is ready, any other status stays.
pub open spec fn moved_to_ready<T, E>(s: LoadingStatus<T, E>) -> LoadingStatus<T, E> {
    match s {
        LoadingStatus::Loaded(a) => LoadingStatus::Ready(a),
        _ => s,
    }
}

/// Moving to ready twice is moving once: a ready, loading or failed asset is left as
/// it is.
pub proof fn law_move_to_ready_idempotent<T, E>(s: LoadingStatus<T, E>)
    ensures
        moved_to_ready(moved_to_ready(s)) == moved_to_ready(s),
        !(moved_to_ready(s) is Loaded),
{
}

impl<T, E> LoadingStatus<T, E> {
    /// A loaded asset becomes ready; any other status stays as it is.
    pub fn move_to_read(&mut self)
        ensures
            *final(self) == moved_to_ready(*old(self)),
    {
        let mut current = LoadingStatus::Loading;
        std::mem::swap(&mut current, self);
        *self = match current {
            LoadingStatus::Loaded(asset) => LoadingStatus::Ready(asset),
            other => other,
        };
    }
}

/// An asset and its loading status.
pub struct Asset<T> {
    asset: LoadingStatus<T, AssetError>,
}

impl<T> Default for Asset<T> {
    /// An asset still loading.
    fn default() -> (r: Self)
        ensures
            r.status() is Loading,
    {
        Asset { asset: LoadingStatus::Loading }
    }
}

impl<T> From<AssetError> for Asset<T> {
    /// An asset that failed to load.
    fn from(e: AssetError) -> (r: Self)
        ensures
            r.status() == LoadingStatus::<T, AssetError>::Error(e),
    {
        Asset { asset: LoadingStatus::Error(e) }
    }
}

impl<T> vstd::std_specs::convert::FromSpecImpl<AssetError> for Asset<T> {
    open spec fn obeys_from_spec() -> bool {
        true
    }

    closed spec fn from_spec(e: AssetError) -> Asset<T> {
        Asset { asset: LoadingStatus::Error(e) }
    }
}

impl<T> Asset<T> {
    pub closed spec fn status(&self) -> LoadingStatus<T, AssetError> {
        self.asset
    }

    /// An asset still loading.
    pub fn new() -> (r: Self)
        ensures
            r.status() is Loading,
    {
        Self { asset: LoadingStatus::Loading }
    }

    /// An asset ready to be used.
    pub fn from_asset(asset: T) -> (r: Self)
        ensures
            r.status() == LoadingStatus::<T, AssetError>::Ready(asset),
    {
        Self { asset: LoadingStatus::Ready(asset) }
    }

    /// An asset that failed to load.
    pub fn from_error(e: AssetError) -> (r: Self)
        ensures
            r.status() == LoadingStatus::<T, AssetError>::Error(e),
    {
        Self { asset: LoadingStatus::Error(e) }
    }

    /// Store the loaded value; it still has to be uploaded before use.
    pub fn set_ready(&mut self, v: T)
        ensures
            final(self).status() == LoadingStatus::<T, AssetError>::Loaded(v),
    {
        self.asset = LoadingStatus::Loaded(v);
    }

    /// Store the loaded value; it still has to be uploaded before use.
    pub fn set_loaded(&mut self, v: T)
        ensures
            final(self).status() == LoadingStatus::<T, AssetError>::Loaded(v),
    {
        self.asset = LoadingStatus::Loaded(v);
    }

    pub fn set_error(&mut self, e: AssetError)
        ensures
            final(self).status() == LoadingStatus::<T, AssetError>::Error(e),
    {
        self.asset = LoadingStatus::Error(e);
    }

    /// Returns true if the asset has finished loading.
    pub fn is_loaded(&self) -> (r: bool)
        ensures
            r == self.status() is Ready,
    {
        if let LoadingStatus::Ready(_) = &self.asset {
            true
        } else {
            false
        }
    }

    /// Returns true if the asset has failed loading.
    pub fn is_error(&self) -> (r: bool)
        ensures
            r == self.status() is Error,
    {
        if let LoadingStatus::Error(_) = &self.asset {
            true
        } else {
            false
        }
    }

    /// Execute a function only if the asset is ready.
    pub fn execute<F, Ret>(&self, f: F) -> (r: Option<Ret>)
        where
            F: FnOnce(&T) -> Ret,
        requires
            self.status() matches LoadingStatus::Ready(t) ==> call_requires(f, (&t,)),
        ensures
            match self.status() {
                LoadingStatus::Ready(t) => r matches Some(x) && call_ensures(f, (&t,), x),
                _ => r is None,
            },
    {
        if let LoadingStatus::Ready(inner) = &self.asset {
            Some(f(inner))
        } else {
            None
        }
    }

    /// Execute a function on the asset, which it may change, only if the asset is ready.
    pub fn execute_mut<F, Ret>(&mut self, f: F) -> (r: Option<Ret>)
        where
            F: FnOnce(&mut T) -> Ret,
        requires
            forall|t: &mut T| call_requires(f, (t,)),
        ensures
            match old(self).status() {
                LoadingStatus::Ready(_) => r is Some && final(self).status() is Ready,
                _ => r is None && final(self).status() == old(self).status(),
            },
    {
        if let LoadingStatus::Ready(inner) = &mut self.asset {
            Some(f(inner))
        } else {
            None
        }
    }

    /// The status, to hand the asset on.
    pub fn into_status(self) -> (r: LoadingStatus<T, AssetError>)
        ensures
            r == self.status(),
    {
        self.asset
    }

    /// Put `status` in place of the asset's status; the previous status is returned.
    fn replace_status(&mut self, status: LoadingStatus<T, AssetError>) -> (r: LoadingStatus<T, AssetError>)
        ensures
            r == old(self).status(),
            final(self).status() == status,
    {
        let mut status = status;
        std::mem::swap(&mut status, &mut self.asset);
        status
    }
}

impl<T: Clone> Asset<T> {
    /// A copy of a loaded (not yet uploaded) asset; `None` for any other status.
    pub fn clone_inner(&self) -> (r: Option<T>)
        ensures
            match self.status() {
                LoadingStatus::Loaded(t) => r matches Some(x) && cloned(t, x),
                _ => r is None,
            },
    {
        if let LoadingStatus::Loaded(inner) = &self.asset {
            Some(inner.clone())
        } else {
            None
        }
    }
}

/// Raw content of a sound or music file.
#[derive(Debug)]
pub enum Audio {
    Empty,
    File(Vec<u8>),
}

impl Default for Audio {
    fn default() -> (r: Self)
        ensures
            r is Empty,
    {
        Audio::Empty
    }
}


/// A name of an asset: something that can be compared and copied.
pub trait AssetKey: Sized {
    type KeyView;

    /// What the name stands for.
    spec fn key_view(&self) -> Self::KeyView;

    fn same_key(&self, other: &Self) -> (r: bool)
        ensures
            r == (self.key_view() == other.key_view()),
    ;

    fn clone_key(&self) -> (r: Self)
        ensures
            r.key_view() == self.key_view(),
    ;
}

impl AssetKey for String {
    type KeyView = Seq<char>;

    open spec fn key_view(&self) -> Seq<char> {
        self@
    }

    fn same_key(&self, other: &Self) -> (r: bool) {
        *self == *other
    }

    fn clone_key(&self) -> (r: Self) {
        self.clone()
    }
}

/// Shaders are named by their vertex and fragment file names.
impl AssetKey for (String, String) {
    type KeyView = (Seq<char>, Seq<char>);

    open spec fn key_view(&self) -> (Seq<char>, Seq<char>) {
        (self.0@, self.1@)
    }

    fn same_key(&self, other: &Self) -> (r: bool) {
        self.0 == other.0 && self.1 == other.1
    }

    fn clone_key(&self) -> (r: Self) {
        (self.0.clone(), self.1.clone())
    }
}

/// Loads assets of type `T` named by `H`, and uploads them to the graphics context.
pub trait Loader<T, H> {
    /// The graphics context the assets are uploaded to.
    type Context;

    /// Get an asset from a handle
    fn load(&mut self, asset_name: H) -> Asset<T>;

    /// Upload a loaded asset before use.
    fn upload_to_gpu(&self, ctx: &mut Self::Context, inner: &mut T) -> Result<(), AssetError>;
}

/// Keeps the assets of one kind, loaded once each by its loader.
pub struct AssetManager<T, H, L> {
    store: Vec<(H, Asset<T>)>,
    loader: L,
}

/// The names of the entries, in order.
pub open spec fn entry_keys<K, S>(entries: Seq<(K, S)>) -> Seq<K> {
    entries.map_values(|e: (K, S)| e.0)
}

/// Mapping a sequence with one item replaced is mapping it, then replacing the image.
broadcast proof fn lemma_map_values_update<A, B>(s: Seq<A>, i: int, x: A, f: spec_fn(A) -> B)
    requires
        0 <= i < s.len(),
    ensures
        #[trigger] s.update(i, x).map_values(f) == s.map_values(f).update(i, f(x)),
{
    assert(s.update(i, x).map_values(f) =~= s.map_values(f).update(i, f(x)));
}

/// No two entries have the same name.
pub open spec fn distinct_keys<K, S>(entries: Seq<(K, S)>) -> bool {
    forall|i: int, j: int|
        0 <= i < j < entries.len() ==> (#[trigger] entries[i]).0 != (#[trigger] entries[j]).0
}

impl<T, H: AssetKey, L: Loader<T, H>> AssetManager<T, H, L> {
    /// The managed assets, by name, in the order they were first loaded.
    pub closed spec fn entries(&self) -> Seq<(H::KeyView, LoadingStatus<T, AssetError>)> {
        self.store@.map_values(|e: (H, Asset<T>)| (e.0.key_view(), e.1.status()))
    }

    pub closed spec fn spec_loader(&self) -> L {
        self.loader
    }

    /// Each asset is there once.
    pub open spec fn wf(&self) -> bool {
        distinct_keys(self.entries())
    }

    /// The status of the asset named `k`, if it is managed.
    pub open spec fn lookup(&self, k: H::KeyView) -> Option<LoadingStatus<T, AssetError>> {
        match entry_keys(self.entries()).index_of_first(k) {
            Some(i) => Some(self.entries()[i].1),
            None => None,
        }
    }

    /// A manager without assets.
    pub fn from_loader(loader: L) -> (r: Self)
        ensures
            r.wf(),
            r.entries().len() == 0,
            r.spec_loader() == loader,
    {
        Self { store: Vec::new(), loader }
    }

    /// Position of the asset named like `name`.
    fn find(&self, name: &H) -> (r: Option<usize>)
        ensures
            match r {
                Some(i) => entry_keys(self.entries()).index_of_first(name.key_view()) == Some(i as int)
                    && i < self.store@.len(),
                None => entry_keys(self.entries()).index_of_first(name.key_view()) is None,
            },
    {
        let ghost keys = entry_keys(self.entries());
        let mut i: usize = 0;
        while i < self.store.len()
            invariant
                i <= self.store@.len(),
                keys == entry_keys(self.entries()),
                keys.len() == self.store@.len(),
                forall|j: int| 0 <= j < i ==> keys[j] != name.key_view(),
            decreases self.store@.len() - i,
        {
            if self.store[i].0.same_key(name) {
                proof {
                    assert(keys[i as int] == name.key_view());
                    keys.index_of_first_ensures(name.key_view());
                }
                return Some(i);
            }
            i = i + 1;
        }
        proof {
            keys.index_of_first_ensures(name.key_view());
        }
        None
    }

    /// Load the asset once: a managed asset is kept as it is, an unknown one is asked
    /// of the loader and added after the others.
    pub fn load(&mut self, asset_name: H) -> (r: Handle<H>)
        requires
            old(self).wf(),
        ensures
            final(self).wf(),
            r.0.key_view() == asset_name.key_view(),
            final(self).lookup(asset_name.key_view()) is Some,
            old(self).lookup(asset_name.key_view()) is Some ==> final(self).entries() == old(self).entries()
                && final(self).spec_loader() == old(self).spec_loader(),
            old(self).lookup(asset_name.key_view()) is None ==> exists|s: LoadingStatus<T, AssetError>|
                final(self).entries() == old(self).entries().push(
                    (asset_name.key_view(), s),
                ),
    {
        let handle = Handle(asset_name.clone_key());
        if self.find(&asset_name).is_some() {
            proof {
                entry_keys(self.entries()).index_of_first_ensures(asset_name.key_view());
            }
            return handle;
        }
        proof {
            entry_keys(self.entries()).index_of_first_ensures(asset_name.key_view());
        }
        let key = asset_name.clone_key();
        let asset = self.loader.load(asset_name);
        let ghost before = self.entries();
        self.store.push((key, asset));
        proof {
            assert(self.entries() =~= before.push((handle.0.key_view(), asset.status())));
            assert forall|i: int, j: int| 0 <= i < j < self.entries().len() implies
                (#[trigger] self.entries()[i]).0 != (#[trigger] self.entries()[j]).0 by {
                if j == before.len() {
                    assert(entry_keys(before)[i] == before[i].0);
                }
            }
            let keys = entry_keys(self.entries());
            assert(keys[before.len() as int] == handle.0.key_view());
            keys.index_of_first_ensures(handle.0.key_view());
        }
        handle
    }

    /// Load the asset again from the loader, replacing the managed one if any.
    pub fn reload(&mut self, asset_name: H) -> (r: Handle<H>)
        requires
            old(self).wf(),
        ensures
            final(self).wf(),
            r.0.key_view() == asset_name.key_view(),
            match entry_keys(old(self).entries()).index_of_first(asset_name.key_view()) {
                Some(i) => exists|s: LoadingStatus<T, AssetError>|
                    final(self).entries() == old(self).entries().update(i, (asset_name.key_view(), s)),
                None => exists|s: LoadingStatus<T, AssetError>|
                    final(self).entries() == old(self).entries().push((asset_name.key_view(), s)),
            },
    {
        let handle = Handle(asset_name.clone_key());
        let found = self.find(&asset_name);
        proof {
            entry_keys(self.entries()).index_of_first_ensures(asset_name.key_view());
        }
        let key = asset_name.clone_key();
        let asset = self.loader.load(asset_name);
        let ghost before = self.entries();
        let ghost st = asset.status();
        match found {
            Some(i) => {
                self.store.set(i, (key, asset));
                proof {
                    assert(self.entries() =~= before.update(i as int, (handle.0.key_view(), st)));
                    assert forall|a: int, b: int| 0 <= a < b < self.entries().len() implies
                        (#[trigger] self.entries()[a]).0 != (#[trigger] self.entries()[b]).0 by {
                        assert(entry_keys(before)[a] == before[a].0);
                        assert(entry_keys(before)[b] == before[b].0);
                    }
                }
            },
            None => {
                self.store.push((key, asset));
                proof {
                    assert(self.entries() =~= before.push((handle.0.key_view(), st)));
                    assert forall|a: int, b: int| 0 <= a < b < self.entries().len() implies
                        (#[trigger] self.entries()[a]).0 != (#[trigger] self.entries()[b]).0 by {
                        if b == before.len() {
                            assert(entry_keys(before)[a] == before[a].0);
                        }
                    }
                }
            },
        }
        handle
    }

    /// Upload the loaded assets. Each loaded asset becomes ready, or failed when the
    /// loader could not upload it; the other assets stay as they are.
    pub fn upload_all(&mut self, ctx: &mut L::Context)
        requires
            old(self).wf(),
        ensures
            final(self).wf(),
            final(self).entries().len() == old(self).entries().len(),
            forall|i: int| 0 <= i < old(self).entries().len() ==> {
                &&& (#[trigger] final(self).entries()[i]).0 == old(self).entries()[i].0
                &&& match old(self).entries()[i].1 {
                    LoadingStatus::Loaded(_) => final(self).entries()[i].1 is Ready
                        || final(self).entries()[i].1 is Error,
                    other => final(self).entries()[i].1 == other,
                }
            },
    {
        let n = self.store.len();
        let mut i: usize = 0;
        while i < n
            invariant
                n == self.store@.len(),
                i <= n,
                self.entries().len() == old(self).entries().len(),
                forall|j: int| 0 <= j < n ==> (#[trigger] self.entries()[j]).0 == old(self).entries()[j].0,
                forall|j: int| i <= j < n ==> (#[trigger] self.entries()[j]).1 == old(self).entries()[j].1,
                forall|j: int| 0 <= j < i ==> match old(self).entries()[j].1 {
                    LoadingStatus::Loaded(_) => (#[trigger] self.entries()[j]).1 is Ready
                        || self.entries()[j].1 is Error,
                    other => self.entries()[j].1 == other,
                },
            decreases n - i,
        {
            let ghost before = self.entries();
            let status = self.store[i].1.replace_status(LoadingStatus::Loading);
            let ghost st0 = status;
            assert(st0 == before[i as int].1);
            let new_status = match status {
                LoadingStatus::Loaded(t) => {
                    let mut t = t;
                    match self.loader.upload_to_gpu(ctx, &mut t) {
                        Err(e) => LoadingStatus::Error(e),
                        Ok(()) => {
                            let mut st = LoadingStatus::Loaded(t);
                            st.move_to_read();
                            st
                        },
                    }
                },
                other => other,
            };
            let ghost st1 = new_status;
            assert(match st0 {
                LoadingStatus::Loaded(_) => st1 is Ready || st1 is Error,
                other => st1 == other,
            });
            self.store[i].1.replace_status(new_status);
            proof {
                assert(self.entries()[i as int].1 == st1);
                assert forall|j: int| 0 <= j < n && j != i implies #[trigger] self.entries()[j] == before[j] by {}
            }
            i = i + 1;
        }
        proof {
            assert forall|a: int, b: int| 0 <= a < b < self.entries().len() implies
                (#[trigger] self.entries()[a]).0 != (#[trigger] self.entries()[b]).0 by {
                assert(old(self).entries()[a].0 != old(self).entries()[b].0);
            }
        }
    }

    /// Returns true if the asset is managed and ready.
    pub fn is_loaded(&self, handle: &Handle<H>) -> (r: bool)
        ensures
            r == (self.lookup(handle.0.key_view()) matches Some(s) && s is Ready),
    {
        match self.find(&handle.0) {
            Some(i) => self.store[i].1.is_loaded(),
            None => false,
        }
    }

    /// Returns true if the asset is managed and failed to load.
    pub fn is_error(&self, handle: &Handle<H>) -> (r: bool)
        ensures
            r == (self.lookup(handle.0.key_view()) matches Some(s) && s is Error),
    {
        match self.find(&handle.0) {
            Some(i) => self.store[i].1.is_error(),
            None => false,
        }
    }

    /// The managed asset of that name.
    pub fn get(&self, handle: &Handle<H>) -> (r: Option<&Asset<T>>)
        ensures
            match self.lookup(handle.0.key_view()) {
                Some(s) => r matches Some(a) && a.status() == s,
                None => r is None,
            },
    {
        match self.find(&handle.0) {
            Some(i) => Some(&self.store[i].1),
            None => None,
        }
    }

    /// The managed asset of that name, to change it.
    pub fn get_mut(&mut self, handle: &Handle<H>) -> (r: Option<&mut Asset<T>>)
        ensures
            match entry_keys(old(self).entries()).index_of_first(handle.0.key_view()) {
                Some(i) => r matches Some(a) && a.status() == old(self).entries()[i].1
                    && final(self).entries() == old(self).entries().update(
                    i,
                    (handle.0.key_view(), final(a).status()),
                ),
                None => r is None && *final(self) == *old(self),
            },
    {
        broadcast use lemma_map_values_update;

        match self.find(&handle.0) {
            Some(i) => {
                proof {
                    entry_keys(self.entries()).index_of_first_ensures(handle.0.key_view());
                }
                Some(&mut self.store[i].1)
            },
            None => None,
        }
    }

    /// Names of the managed assets, in order.
    pub fn keys(&self) -> (r: Vec<Handle<H>>)
        ensures
            r@.len() == self.entries().len(),
            forall|i: int| 0 <= i < r@.len() ==> (#[trigger] r@[i]).0.key_view() == self.entries()[i].0,
    {
        let mut out: Vec<Handle<H>> = Vec::new();
        let mut i: usize = 0;
        while i < self.store.len()
            invariant
                i <= self.store@.len(),
                out@.len() == i,
                forall|k: int| 0 <= k < i ==> (#[trigger] out@[k]).0.key_view() == self.entries()[k].0,
            decreases self.store@.len() - i,
        {
            out.push(Handle(self.store[i].0.clone_key()));
            i = i + 1;
        }
        out
    }
}

} // verus!
