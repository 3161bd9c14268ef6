use vstd::prelude::*;

use crate::ids::{is_random_uuid, new_uuid};

verus! {

/// What a texture shows: rendered text, or an image embedded in the scene.
#[derive(PartialEq, Clone, Debug)]
pub enum TextureType {
    Text { text_type: String, text: String, font_size: u32, font_face: String },
    Image { image: Option<u128>, repeat: [u32; 2], wrap: [u32; 2] },
}

/// The wrap mode three.js calls `RepeatWrapping`.
pub const REPEAT_WRAPPING: u32 = 1001;

/// The image texture that `new_image` makes.
pub open spec fn blank_image_texture() -> TextureType {
    TextureType::Image { image: None, repeat: [1u32, 1u32], wrap: [REPEAT_WRAPPING, REPEAT_WRAPPING] }
}

impl TextureType {
    /// A text texture: `text` drawn with the given font; its type tag is `"_text"`.
    pub fn new_text(text: &str, font_size: u32, font_face: &str) -> (r: Self)
        ensures
            r matches TextureType::Text { text_type, text: t, font_size: s, font_face: f }
                && text_type@ == "_text"@ && t@ == text@ && s == font_size && f@ == font_face@,
    {
        TextureType::Text {
            text_type: "_text".to_string(),
            text: text.to_string(),
            font_size,
            font_face: font_face.to_string(),
        }
    }

    /// An image texture that names no image yet, shown once (repeat 1 by 1)
    /// and with repeat wrapping in both directions.
    pub fn new_image() -> (r: Self)
        ensures
            r == blank_image_texture(),
            r == (TextureType::Image { image: None, repeat: [1u32, 1u32], wrap: [1001u32, 1001u32] }),
    {
        TextureType::Image { image: None, repeat: [1, 1], wrap: [REPEAT_WRAPPING, REPEAT_WRAPPING] }
    }
}

/// A texture with its own identifier.
#[derive(Clone, Debug)]
pub struct Texture {
    /// A UUID, as its 128-bit value.
    pub uuid: u128,
    pub texture_type: TextureType,
}

impl Texture {
    /// A texture of the given type under a fresh random (version-4) identifier.
    pub fn new(texture_type: TextureType) -> (r: Self)
        ensures
            r.texture_type == texture_type,
            is_random_uuid(r.uuid),
    {
        Texture { uuid: new_uuid(), texture_type }
    }
}

} // verus!
