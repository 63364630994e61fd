use crate::assets::{Asset, AssetError, LoadingStatus};
use vstd::hash_map::StringHashMap;
use vstd::prelude::*;

verus! {

/// How texture coordinates outside of `[0; 1]` are wrapped.
#[derive(Debug, Copy, Clone, PartialEq, Eq, Structural)]
pub enum WrapDef {
    /// Clamped to either *0* or *1*.
    ClampToEdge,
    /// Repeated.
    Repeat,
    /// Repeated, alternatively between *[0;1]* and *[1;0]*.
    MirroredRepeat,
}

/// Minification filter.
#[derive(Debug, Copy, Clone, PartialEq, Eq, Structural)]
pub enum MinFilterDef {
    Nearest,
    Linear,
    NearestMipmapNearest,
    NearestMipmapLinear,
    LinearMipmapNearest,
    LinearMipmapLinear,
}

/// Magnification filter.
#[derive(Debug, Copy, Clone, PartialEq, Eq, Structural)]
pub enum MagFilterDef {
    Nearest,
    Linear,
}

/// Depth comparison of a sampler.
#[derive(Debug, Copy, Clone, PartialEq, Eq, Structural)]
pub enum DepthComparisonDef {
    /// Depth test never succeeds.
    Never,
    /// Depth test always succeeds.
    Always,
    /// Depth test succeeds if `a == b`.
    Equal,
    /// Depth test succeeds if `a != b`.
    NotEqual,
    /// Depth test succeeds if `a < b`.
    Less,
    /// Depth test succeeds if `a <= b`.
    LessOrEqual,
    /// Depth test succeeds if `a > b`.
    Greater,
    /// Depth test succeeds if `a >= b`.
    GreaterOrEqual,
}

/// How a texture is sampled.
#[derive(Debug, Copy, Clone, PartialEq, Eq, Structural)]
pub struct SamplerDef {
    /// How should we wrap around the *r* sampling coordinate?
    pub wrap_r: WrapDef,
    /// How should we wrap around the *s* sampling coordinate?
    pub wrap_s: WrapDef,
    /// How should we wrap around the *t* sampling coordinate?
    pub wrap_t: WrapDef,
    /// Minification filter.
    pub min_filter: MinFilterDef,
    /// Magnification filter.
    pub mag_filter: MagFilterDef,
    pub depth_comparison: Option<DepthComparisonDef>,
}

/// What is known of a sprite besides its pixels.
#[derive(Debug, Copy, Clone, PartialEq, Eq, Structural)]
pub struct SpriteAssetMetadata {
    pub sampler: SamplerDef,
}

/// The sampler of sprites without metadata file: clamped to the edges, nearest
/// for minification, linear for magnification, no depth comparison.
pub open spec fn default_sampler() -> SamplerDef {
    SamplerDef {
        wrap_r: WrapDef::ClampToEdge,
        wrap_s: WrapDef::ClampToEdge,
        wrap_t: WrapDef::ClampToEdge,
        min_filter: MinFilterDef::Nearest,
        mag_filter: MagFilterDef::Linear,
        depth_comparison: None,
    }
}

impl Default for SpriteAssetMetadata {
    fn default() -> (r: Self)
        ensures
            r.sampler == default_sampler(),
    {
        Self {
            sampler: SamplerDef {
                wrap_r: WrapDef::ClampToEdge,
                wrap_s: WrapDef::ClampToEdge,
                wrap_t: WrapDef::ClampToEdge,
                min_filter: MinFilterDef::Nearest,
                mag_filter: MagFilterDef::Linear,
                depth_comparison: None,
            },
        }
    }
}

/// A sprite: its pixels waiting for upload (width, height, RGBA bytes, sampler), or
/// the texture `Tex` once uploaded.
#[derive(Debug)]
pub enum SpriteAsset<Tex> {
    Uploaded(Tex),
    Loading(u32, u32, Vec<u8>, SamplerDef),
}

impl<Tex> Default for SpriteAsset<Tex> {
    /// An empty sprite waiting for upload.
    fn default() -> (r: Self)
        ensures
            r matches SpriteAsset::Loading(w, h, d, s) && w == 0 && h == 0 && d@.len() == 0
                && s == default_sampler(),
    {
        SpriteAsset::Loading(0, 0, Vec::new(), SpriteAssetMetadata::default().sampler)
    }
}

impl<Tex> SpriteAsset<Tex> {
    /// The texture, once uploaded.
    pub fn texture(&self) -> (r: Option<&Tex>)
        ensures
            match *self {
                SpriteAsset::Uploaded(t) => r == Some(&t),
                SpriteAsset::Loading(..) => r is None,
            },
    {
        match self {
            SpriteAsset::Loading(_, _, _, _) => None,
            SpriteAsset::Uploaded(tex) => Some(tex),
        }
    }
}

/// The error that `image` reports when it cannot decode an image.
#[verifier::external_type_specification]
#[verifier::external_body]
pub struct ExImageError(image::ImageError);

/// What `image` decodes from the bytes of an image file, flipped upside down and
/// converted to 8-bit RGBA: the width, the height and the pixels, row after row; `None`
/// when it cannot decode them.
pub uninterp spec fn flipped_rgba8(bytes: Seq<u8>) -> Option<(u32, u32, Seq<u8>)>;

/// `image::load_from_memory`, then `flipv().to_rgba8()`, `dimensions()` and
/// `into_raw()`. The contract claims that the outcome depends on the bytes alone, as
/// named by `flipped_rgba8`, and that an RGBA image holds four bytes a pixel (the crate
/// allocates its buffer as width times height times the channels).
#[verifier::external_body]
fn decode_flipped_rgba8(bytes: &[u8]) -> (r: Result<(u32, u32, Vec<u8>), image::ImageError>)
    ensures
        r is Ok <==> flipped_rgba8(bytes@) is Some,
        r matches Ok((w, h, d)) ==> flipped_rgba8(bytes@) == Some((w, h, d@)),
        r matches Ok((w, h, d)) ==> d@.len() == 4 * w * h,
{
    let img = image::load_from_memory(bytes)?.flipv().to_rgba8();
    let (width, height) = img.dimensions();
    Ok((width, height, img.into_raw()))
}

/// The message of an `image::ImageError` (its `to_string`). Nothing is claimed of the
/// text.
#[verifier::external_body]
fn image_error_text(e: &image::ImageError) -> (r: String) {
    e.to_string()
}

/// Decode the bytes of an image file: its width, height and RGBA pixels, with the first
/// row at the bottom, as the graphics card reads them; or the decoder's error.
pub fn load_texels(bytes: &[u8]) -> (r: Result<(u32, u32, Vec<u8>), AssetError>)
    ensures
        match flipped_rgba8(bytes@) {
            Some((w, h, d)) => r matches Ok((w2, h2, d2)) && w2 == w && h2 == h && d2@ == d,
            None => r matches Err(AssetError::ImageError(_)),
        },
        r matches Ok((w, h, d)) ==> d@.len() == 4 * w * h,
{
    match decode_flipped_rgba8(bytes) {
        Ok(texels) => Ok(texels),
        Err(e) => Err(AssetError::ImageError(image_error_text(&e))),
    }
}

/// Loads sprites from image files under a directory.
#[derive(Debug)]
pub struct SpriteSyncLoader {
    base_path: String,
}

impl SpriteSyncLoader {
    pub fn new(base_path: String) -> (r: Self)
        ensures
            r.spec_base_path() == base_path@,
    {
        Self { base_path }
    }

    pub closed spec fn spec_base_path(&self) -> Seq<char> {
        self.base_path@
    }

    /// Directory of the sprites.
    pub fn base_path(&self) -> (r: &String)
        ensures
            r@ == self.spec_base_path(),
    {
        &self.base_path
    }

    /// The asset made of what was read of an image file: its width, height and RGBA
    /// bytes, waiting for upload with the given sampler; or the error.
    pub fn asset_from_texels<Tex>(texels: Result<(u32, u32, Vec<u8>), AssetError>, sampler: SamplerDef) -> (r:
        Asset<SpriteAsset<Tex>>)
        ensures
            match texels {
                Ok((w, h, data)) => r.status() == LoadingStatus::<SpriteAsset<Tex>, AssetError>::Loaded(
                    SpriteAsset::Loading(w, h, data, sampler),
                ),
                Err(e) => r.status() == LoadingStatus::<SpriteAsset<Tex>, AssetError>::Error(e),
            },
    {
        let mut asset = Asset::new();
        match texels {
            Ok((w, h, data)) => asset.set_loaded(SpriteAsset::Loading(w, h, data, sampler)),
            Err(e) => asset.set_error(e),
        }
        asset
    }

    /// The sprite asset of the bytes of an image file, with the sampler of its
    /// metadata: decoded, waiting for upload, or failed with the decoder's error.
    pub fn load_sprite<Tex>(&self, bytes: &[u8], sampler: SamplerDef) -> (r: Asset<SpriteAsset<Tex>>)
        ensures
            match flipped_rgba8(bytes@) {
                Some((w, h, d)) => r.status() matches LoadingStatus::Loaded(SpriteAsset::Loading(w2, h2, d2, s2))
                    && w2 == w && h2 == h && d2@ == d && s2 == sampler,
                None => r.status() matches LoadingStatus::Error(AssetError::ImageError(_)),
            },
    {
        Self::asset_from_texels(load_texels(bytes), sampler)
    }
}

/// Pixels of a sprite stored in the packed sprites file.
#[derive(Debug)]
pub struct PackedSpriteAsset {
    pub w: u32,
    pub h: u32,
    pub data: Vec<u8>,
    pub sampler: SamplerDef,
}

/// All the packed sprites, by name.
pub struct Packed {
    pub content: StringHashMap<PackedSpriteAsset>,
}

/// The sprites of `entries` by name; of two entries with the same name, the later wins.
pub open spec fn entries_map(entries: Seq<(String, PackedSpriteAsset)>) -> Map<Seq<char>, PackedSpriteAsset>
    decreases entries.len(),
{
    if entries.len() == 0 {
        Map::empty()
    } else {
        entries_map(entries.drop_last()).insert(entries.last().0@, entries.last().1)
    }
}

impl Packed {
    /// The packed sprites read from the packed file, by name.
    pub fn from_entries(entries: Vec<(String, PackedSpriteAsset)>) -> (r: Self)
        ensures
            r.content@ == entries_map(entries@),
    {
        let ghost all = entries@;
        let mut content: StringHashMap<PackedSpriteAsset> = StringHashMap::new();
        let mut rest = entries;
        while rest.len() > 0
            invariant
                rest@.len() <= all.len(),
                rest@ == all.skip(all.len() - rest@.len()),
                content@ == entries_map(all.take(all.len() - rest@.len())),
            decreases rest@.len(),
        {
            let ghost k = all.len() - rest@.len();
            let (name, sprite) = rest.remove(0);
            proof {
                assert(rest@ =~= all.skip(k + 1));
                assert(all.take(k + 1).drop_last() =~= all.take(k));
                assert(all.take(k + 1).last() == all[k]);
            }
            content.insert(name, sprite);
        }
        proof {
            assert(all.take(all.len() as int) =~= all);
        }
        Packed { content }
    }
}

/// Loads sprites from the packed sprites, or from the files when they are not packed.
pub struct SpritePackLoader {
    packed: Packed,
    fallback_loader: SpriteSyncLoader,
}

impl SpritePackLoader {
    pub fn new(packed: Packed, fallback_loader: SpriteSyncLoader) -> (r: Self)
        ensures
            r.spec_packed()@ == packed.content@,
            r.spec_fallback() == fallback_loader,
    {
        Self { packed, fallback_loader }
    }

    pub closed spec fn spec_packed(&self) -> StringHashMap<PackedSpriteAsset> {
        self.packed.content
    }

    pub closed spec fn spec_fallback(&self) -> SpriteSyncLoader {
        self.fallback_loader
    }

    /// The loader used for the sprites that are not packed.
    pub fn fallback_loader(&self) -> (r: &SpriteSyncLoader)
        ensures
            *r == self.spec_fallback(),
    {
        &self.fallback_loader
    }

    /// The packed sprite of that name, as an asset waiting for upload; `None` when the
    /// sprite is not packed and must be read from its file.
    pub fn load_packed<Tex>(&self, asset_name: &str) -> (r: Option<Asset<SpriteAsset<Tex>>>)
        ensures
            match self.spec_packed()@.contains_key(asset_name@) {
                true => r matches Some(a) && {
                    let p = self.spec_packed()@[asset_name@];
                    a.status() matches LoadingStatus::Loaded(SpriteAsset::Loading(w, h, d, s))
                        && w == p.w && h == p.h && d@ == p.data@ && s == p.sampler
                },
                false => r is None,
            },
    {
        match self.packed.content.get(asset_name) {
            Some(sprite) => {
                let mut asset = Asset::new();
                asset.set_loaded(SpriteAsset::Loading(sprite.w, sprite.h, sprite.data.clone(), sprite.sampler));
                Some(asset)
            },
            None => None,
        }
    }
}

} // verus!
