use meshcat::image::Image;
use meshcat::lumped::{GeometryRef, LumpedLinks};
use meshcat::object::ObjectType;
use meshcat::request::{DeleteData, PropertyKind, RequestKind};
use meshcat::texture::{Texture, TextureType};
use uuid::{Uuid, Variant};

fn is_random_v4(id: u128) -> bool {
    let u = Uuid::from_u128(id);
    u.get_version_num() == 4 && u.get_variant() == Variant::RFC4122
}

fn parts(texture: Option<Texture>, image: Option<Image>, geometries: Vec<GeometryRef>) -> LumpedLinks {
    LumpedLinks {
        texture,
        image,
        geometries,
        material_uuid: Uuid::new_v4().as_u128(),
        material_map: None,
        object_material: None,
        object_type: ObjectType::Mesh,
        children: Vec::new(),
    }
}

fn geometry(is_cylinder: bool) -> GeometryRef {
    GeometryRef { uuid: Uuid::new_v4().as_u128(), is_cylinder }
}

#[test]
fn one_geometry_one_child() {
    let g = geometry(false);
    let input = parts(None, None, vec![g]);
    let material = input.material_uuid;
    let built = input.build();
    assert_eq!(built.geometries.len(), 1);
    assert!(built.texture.is_none());
    assert!(built.image.is_none());
    assert_eq!(built.children.len(), 1);
    assert_eq!(built.children[0].geometry, Some(g.uuid));
    assert_eq!(built.children[0].material, Some(material));
    assert_eq!(built.children[0].object_type, ObjectType::Mesh);
    assert!(!built.children[0].quarter_turn_about_x);
    assert_eq!(built.object_material, Some(material));
    assert!(built.material_map.is_none());
}

#[test]
fn children_follow_geometries_in_order() {
    let a = geometry(false);
    let b = geometry(true);
    let mut input = parts(None, None, vec![a, b]);
    input.object_type = ObjectType::LineSegments;
    let built = input.build();
    assert_eq!(built.children.len(), 2);
    assert_eq!(built.children[0].geometry, Some(a.uuid));
    assert_eq!(built.children[1].geometry, Some(b.uuid));
    assert!(!built.children[0].quarter_turn_about_x);
    assert!(built.children[1].quarter_turn_about_x);
    assert_eq!(built.children[1].object_type, ObjectType::LineSegments);
    assert_ne!(built.children[0].uuid, built.children[1].uuid);
    assert!(is_random_v4(built.children[0].uuid));
    assert!(is_random_v4(built.children[1].uuid));
}

#[test]
fn no_geometry_no_children() {
    let built = parts(None, None, Vec::new()).build();
    assert!(built.children.is_empty());
}

#[test]
fn material_maps_the_texture() {
    let texture = Texture::new(TextureType::new_text("Hello, meshcat!", 12, "sans-serif"));
    let texture_uuid = texture.uuid;
    let built = parts(Some(texture), None, vec![geometry(false)]).build();
    assert_eq!(built.material_map, Some(texture_uuid));
    assert_eq!(built.texture.unwrap().texture_type, TextureType::new_text("Hello, meshcat!", 12, "sans-serif"));
}

#[test]
fn image_texture_names_the_image() {
    let image = Image::new("head.png", &[1, 2, 3, 4]);
    let image_uuid = image.uuid;
    let texture = Texture::new(TextureType::new_image());
    let texture_uuid = texture.uuid;
    let built = parts(Some(texture), Some(image), vec![geometry(false)]).build();
    assert_eq!(built.material_map, Some(texture_uuid));
    let texture = built.texture.unwrap();
    assert_eq!(texture.uuid, texture_uuid);
    assert_eq!(
        texture.texture_type,
        TextureType::Image { image: Some(image_uuid), repeat: [1, 1], wrap: [1001, 1001] }
    );
    assert_eq!(built.image.unwrap().uuid, image_uuid);
}

#[test]
fn text_texture_ignores_the_image() {
    let image = Image::new("head.png", &[9]);
    let texture = Texture::new(TextureType::new_text("t", 1, "serif"));
    let built = parts(Some(texture), Some(image), Vec::new()).build();
    assert_eq!(built.texture.unwrap().texture_type, TextureType::new_text("t", 1, "serif"));
}

#[test]
fn image_without_texture_changes_nothing() {
    let image = Image::new("head.png", &[9]);
    let built = parts(None, Some(image), Vec::new()).build();
    assert!(built.texture.is_none());
    assert!(built.material_map.is_none());
}

#[test]
fn request_names() {
    assert_eq!(RequestKind::SetObject.name(), "set_object");
    assert_eq!(RequestKind::SetTransform.name(), "set_transform");
    assert_eq!(RequestKind::SetProperty.name(), "set_property");
    assert_eq!(RequestKind::SetTarget.name(), "set_target");
    assert_eq!(RequestKind::Delete.name(), "delete");
}

#[test]
fn property_names() {
    assert_eq!(PropertyKind::Visible.name(), "visible");
    assert_eq!(PropertyKind::Position.name(), "position");
    assert_eq!(PropertyKind::Quaternion.name(), "quaternion");
    assert_eq!(PropertyKind::Scale.name(), "scale");
    assert_eq!(PropertyKind::Color.name(), "color");
    assert_eq!(PropertyKind::Opacity.name(), "opacity");
    assert_eq!(PropertyKind::ModulatedOpacity.name(), "modulated_opacity");
    assert_eq!(PropertyKind::TopColor.name(), "top_color");
    assert_eq!(PropertyKind::BottomColor.name(), "bottom_color");
}

#[test]
fn delete_request() {
    let d = DeleteData::new("/meshcat/robot");
    assert_eq!(d.path, "/meshcat/robot");
    assert_eq!(d.request_type, "delete");
}
