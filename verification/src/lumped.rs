use vstd::prelude::*;

use crate::ids::{is_random_uuid, new_uuid};
use crate::image::Image;
use crate::object::ObjectType;
use crate::texture::{blank_image_texture, Texture, TextureType, REPEAT_WRAPPING};

verus! {

/// What building a lumped object reads of one of its geometries.
#[derive(Clone, Copy, Debug)]
pub struct GeometryRef {
    pub uuid: u128,
    /// Whether the geometry is a cylinder. The viewer draws cylinders along
    /// their y axis, so their objects are turned a quarter turn about x.
    pub is_cylinder: bool,
}

/// The child object that building a lumped object makes for one geometry.
#[derive(Clone, Copy, Debug)]
pub struct ChildObject {
    pub uuid: u128,
    pub material: Option<u128>,
    pub geometry: Option<u128>,
    pub object_type: ObjectType,
    /// Whether the child's pose is its geometry's origin followed by a
    /// quarter turn about the x axis (else it is the origin itself).
    pub quarter_turn_about_x: bool,
}

/// The parts of a lumped object (a scene node with its texture, image,
/// geometries, material and object) that building it ties together by
/// identifier.
#[derive(Debug)]
pub struct LumpedLinks {
    pub texture: Option<Texture>,
    pub image: Option<Image>,
    pub geometries: Vec<GeometryRef>,
    /// The identifier of the material.
    pub material_uuid: u128,
    /// The texture that the material maps, by identifier.
    pub material_map: Option<u128>,
    /// The material that the object uses, by identifier.
    pub object_material: Option<u128>,
    pub object_type: ObjectType,
    /// The object's children.
    pub children: Vec<ChildObject>,
}

/// The texture after building: an image texture, when there is an image,
/// names that image; any other texture is left as it is.
pub open spec fn linked_texture(texture: Option<Texture>, image: Option<Image>) -> Option<Texture> {
    match (texture, image) {
        (Some(t), Some(i)) => match t.texture_type {
            TextureType::Image { image: _, repeat, wrap } => Some(
                Texture {
                    uuid: t.uuid,
                    texture_type: TextureType::Image { image: Some(i.uuid), repeat, wrap },
                },
            ),
            TextureType::Text { .. } => texture,
        },
        _ => texture,
    }
}

/// The material's map after building: the texture's identifier when there
/// is a texture, else what it was.
pub open spec fn linked_map(texture: Option<Texture>, map: Option<u128>) -> Option<u128> {
    match texture {
        Some(t) => Some(t.uuid),
        None => map,
    }
}

/// Child `i` stands for geometry `i`: it has a random (version-4)
/// identifier, uses the material and the object's type, and is turned
/// exactly when the geometry is a cylinder.
pub open spec fn child_of(child: ChildObject, geometry: GeometryRef, material: u128, object_type: ObjectType) -> bool {
    &&& is_random_uuid(child.uuid)
    &&& child.material == Some(material)
    &&& child.geometry == Some(geometry.uuid)
    &&& child.object_type == object_type
    &&& child.quarter_turn_about_x == geometry.is_cylinder
}

/// Points an image texture at an image.
fn name_image(texture: Texture, image: u128) -> (r: Texture)
    ensures
        r.uuid == texture.uuid,
        match texture.texture_type {
            TextureType::Image { image: _, repeat, wrap } => r.texture_type
                == (TextureType::Image { image: Some(image), repeat, wrap }),
            TextureType::Text { .. } => r.texture_type == texture.texture_type,
        },
{
    let Texture { uuid, texture_type } = texture;
    match texture_type {
        TextureType::Image { image: _, repeat, wrap } => Texture {
            uuid,
            texture_type: TextureType::Image { image: Some(image), repeat, wrap },
        },
        other => Texture { uuid, texture_type: other },
    }
}

/// A texture made by `TextureType::new_image`, built together with an image,
/// names that image and keeps its identifier, its single repeat and its
/// repeat wrapping.
pub proof fn law_blank_image_texture_names_image(texture: Texture, image: Image)
    requires
        texture.texture_type == blank_image_texture(),
    ensures
        linked_texture(Some(texture), Some(image)) == Some(
            Texture {
                uuid: texture.uuid,
                texture_type: TextureType::Image {
                    image: Some(image.uuid),
                    repeat: [1u32, 1u32],
                    wrap: [REPEAT_WRAPPING, REPEAT_WRAPPING],
                },
            },
        ),
{
}

/// Building an image texture together with an image sets the image it
/// names and nothing else: the texture keeps its identifier, its repeat and
/// its wrap, whatever they are.
pub proof fn law_image_texture_keeps_tiling(texture: Texture, image: Image)
    requires
        texture.texture_type is Image,
    ensures
        linked_texture(Some(texture), Some(image)) == Some(
            Texture {
                uuid: texture.uuid,
                texture_type: TextureType::Image {
                    image: Some(image.uuid),
                    repeat: texture.texture_type->repeat,
                    wrap: texture.texture_type->wrap,
                },
            },
        ),
{
}

/// Building never changes a text texture, whatever image there is.
pub proof fn law_text_texture_unchanged(texture: Texture, image: Option<Image>)
    requires
        texture.texture_type is Text,
    ensures
        linked_texture(Some(texture), image) == Some(texture),
{
}

/// Without an image, building changes no texture.
pub proof fn law_no_image_no_change(texture: Option<Texture>)
    ensures
        linked_texture(texture, None) == texture,
{
}

impl LumpedLinks {
    /// Ties the parts together: an image texture names the image, the
    /// material maps the texture, the object uses the material, and the
    /// object gets one child per geometry, in order, each under a fresh
    /// random identifier. Everything else is kept.
    pub fn build(self) -> (r: LumpedLinks)
        ensures
            r.texture == linked_texture(self.texture, self.image),
            self.texture is None ==> r.texture is None,
            self.texture matches Some(t) ==> (r.texture is Some && r.texture->0.uuid == t.uuid),
            self.texture matches Some(t) ==> (self.image matches Some(i) ==> (t.texture_type is Image
                ==> r.texture == Some(
                Texture {
                    uuid: t.uuid,
                    texture_type: TextureType::Image {
                        image: Some(i.uuid),
                        repeat: t.texture_type->repeat,
                        wrap: t.texture_type->wrap,
                    },
                },
            ))),
            self.image is None ==> r.texture == self.texture,
            self.texture matches Some(t) && t.texture_type is Text ==> r.texture == self.texture,
            r.image == self.image,
            r.geometries@ == self.geometries@,
            r.material_uuid == self.material_uuid,
            r.material_map == linked_map(self.texture, self.material_map),
            r.object_material == Some(self.material_uuid),
            r.object_type == self.object_type,
            self.texture matches Some(t) ==> r.material_map == Some(t.uuid),
            self.texture is None ==> r.material_map == self.material_map,
            r.children.len() == self.geometries.len(),
            forall|i: int|
                0 <= i < r.children.len() ==> {
                    &&& (#[trigger] r.children[i]).geometry == Some(self.geometries[i].uuid)
                    &&& r.children[i].material == Some(self.material_uuid)
                    &&& r.children[i].object_type == self.object_type
                    &&& r.children[i].quarter_turn_about_x == self.geometries[i].is_cylinder
                    &&& is_random_uuid(r.children[i].uuid)
                },
            forall|i: int|
                0 <= i < r.children.len() ==> child_of(
                    #[trigger] r.children[i],
                    self.geometries[i],
                    self.material_uuid,
                    self.object_type,
                ),
    {
        let LumpedLinks {
            texture,
            image,
            geometries,
            material_uuid,
            material_map,
            object_material: _,
            object_type,
            children: _,
        } = self;
        let texture = match texture {
            Some(t) => match &image {
                Some(i) => Some(name_image(t, i.uuid)),
                None => Some(t),
            },
            None => None,
        };
        let material_map = match &texture {
            Some(t) => Some(t.uuid),
            None => material_map,
        };
        let mut children: Vec<ChildObject> = Vec::new();
        let n = geometries.len();
        for i in 0..n
            invariant
                n == geometries.len(),
                children.len() == i,
                forall|j: int|
                    0 <= j < i ==> child_of(
                        #[trigger] children[j],
                        geometries[j],
                        material_uuid,
                        object_type,
                    ),
        {
            let g = geometries[i];
            children.push(
                ChildObject {
                    uuid: new_uuid(),
                    material: Some(material_uuid),
                    geometry: Some(g.uuid),
                    object_type,
                    quarter_turn_about_x: g.is_cylinder,
                },
            );
        }
        LumpedLinks {
            texture,
            image,
            geometries,
            material_uuid,
            material_map,
            object_material: Some(material_uuid),
            object_type,
            children,
        }
    }
}

} // verus!
