use meshcat::image::{file_extension, Image};
use meshcat::texture::{Texture, TextureType, REPEAT_WRAPPING};
use uuid::{Uuid, Variant};

fn is_random_v4(id: u128) -> bool {
    let u = Uuid::from_u128(id);
    u.get_version_num() == 4 && u.get_variant() == Variant::RFC4122
}

#[test]
fn text_texture_fields() {
    let t = TextureType::new_text("Hello, meshcat!", 12, "sans-serif");
    match t {
        TextureType::Text { text_type, text, font_size, font_face } => {
            assert_eq!(text_type, "_text");
            assert_eq!(text, "Hello, meshcat!");
            assert_eq!(font_size, 12);
            assert_eq!(font_face, "sans-serif");
        }
        _ => panic!("expected a text texture"),
    }
}

#[test]
fn image_texture_defaults() {
    assert_eq!(
        TextureType::new_image(),
        TextureType::Image { image: None, repeat: [1, 1], wrap: [1001, 1001] }
    );
    assert_eq!(REPEAT_WRAPPING, 1001);
}

#[test]
fn texture_keeps_type_and_gets_fresh_uuid() {
    let a = Texture::new(TextureType::new_image());
    let b = Texture::new(TextureType::new_image());
    assert_eq!(a.texture_type, TextureType::new_image());
    assert_ne!(a.uuid, b.uuid);
    assert!(is_random_v4(a.uuid));
    assert!(is_random_v4(b.uuid));
}

#[test]
fn extensions() {
    assert_eq!(file_extension("examples/data/HeadTextureMultisense.png"), Some("png"));
    assert_eq!(file_extension("a/b.tar.gz"), Some("gz"));
    assert_eq!(file_extension("foo."), Some(""));
    assert_eq!(file_extension("README"), None);
    assert_eq!(file_extension(".bashrc"), None);
    assert_eq!(file_extension("dir.d/file"), None);
    assert_eq!(file_extension(""), None);
    assert_eq!(file_extension("x/.hidden.png"), Some("png"));
}

#[test]
fn png_image_is_embedded_as_data_url() {
    let image = Image::new("pic.png", &[1, 2, 3]);
    assert_eq!(image.url, "data:image/png;base64,AQID");
    let image = Image::new("dir/pic.png", &[0xff, 0xfe]);
    assert_eq!(image.url, "data:image/png;base64,//4=");
    let image = Image::new("empty.png", &[]);
    assert_eq!(image.url, "data:image/png;base64,");
}

#[test]
fn images_get_fresh_uuids() {
    let a = Image::new("a.png", &[7]);
    let b = Image::new("a.png", &[7]);
    assert_eq!(a.url, b.url);
    assert_ne!(a.uuid, b.uuid);
    assert!(is_random_v4(a.uuid));
}

#[test]
fn only_png_images_are_supported() {
    assert!(Image::is_supported("examples/data/HeadTextureMultisense.png"));
    assert!(Image::is_supported("pic.png"));
    assert!(!Image::is_supported("pic.jpg"));
    assert!(!Image::is_supported("pic.PNG"));
    assert!(!Image::is_supported("png"));
    assert!(!Image::is_supported(".png"));
    assert!(!Image::is_supported("pic.png/other"));
}
