use spacegame::assets::{Asset, AssetError, LoadingStatus};
use spacegame::sprite::{load_texels, SpriteAsset, SpriteAssetMetadata, SpriteSyncLoader};

const RED: [u8; 4] = [255, 0, 0, 255];
const BLUE: [u8; 4] = [0, 0, 255, 255];

/// A PNG one pixel wide and two high: red on top, blue below.
fn red_over_blue_png() -> Vec<u8> {
    let mut pixels = RED.to_vec();
    pixels.extend_from_slice(&BLUE);
    let img = image::RgbaImage::from_raw(1, 2, pixels).unwrap();
    let mut bytes = vec![];
    image::DynamicImage::ImageRgba8(img)
        .write_to(&mut std::io::Cursor::new(&mut bytes), image::ImageOutputFormat::Png)
        .unwrap();
    bytes
}

#[test]
fn texels_are_flipped_rgba() {
    let png = red_over_blue_png();
    let (w, h, data) = load_texels(&png).unwrap();
    assert_eq!((w, h), (1, 2));
    let mut expected = BLUE.to_vec();
    expected.extend_from_slice(&RED);
    assert_eq!(data, expected);
}

#[test]
fn grey_image_becomes_rgba() {
    let img = image::GrayImage::from_raw(2, 1, vec![10, 200]).unwrap();
    let mut bytes = vec![];
    image::DynamicImage::ImageLuma8(img)
        .write_to(&mut std::io::Cursor::new(&mut bytes), image::ImageOutputFormat::Png)
        .unwrap();
    let (w, h, data) = load_texels(&bytes).unwrap();
    assert_eq!((w, h), (2, 1));
    assert_eq!(data, vec![10, 10, 10, 255, 200, 200, 200, 255]);
}

#[test]
fn bytes_that_are_no_image_are_an_image_error() {
    assert!(matches!(load_texels(b"not an image"), Err(AssetError::ImageError(_))));
    assert!(matches!(load_texels(&[]), Err(AssetError::ImageError(_))));
    let mut truncated = red_over_blue_png();
    truncated.truncate(20);
    assert!(matches!(load_texels(&truncated), Err(AssetError::ImageError(_))));
}

#[test]
fn sprite_loaded_from_bytes_waits_for_upload() {
    let loader = SpriteSyncLoader::new("assets/sprites".to_string());
    let sampler = SpriteAssetMetadata::default().sampler;
    let asset: Asset<SpriteAsset<u8>> = loader.load_sprite(&red_over_blue_png(), sampler);
    match asset.into_status() {
        LoadingStatus::Loaded(SpriteAsset::Loading(1, 2, data, s)) => {
            assert_eq!(data.len(), 8);
            assert_eq!(&data[..4], &BLUE);
            assert_eq!(s, sampler);
        }
        _ => panic!("the sprite should be decoded"),
    }
    let failed: Asset<SpriteAsset<u8>> = loader.load_sprite(b"garbage", sampler);
    assert!(failed.is_error());
}
