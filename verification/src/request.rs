use vstd::prelude::*;

verus! {

/// The commands that the viewer accepts.
#[derive(Clone, Copy, Debug, PartialEq, Eq)]
pub enum RequestKind {
    SetObject,
    SetTransform,
    SetProperty,
    SetTarget,
    Delete,
}

/// The name of a command, as it travels in the request's `type` field and
/// as the first frame of the message.
pub open spec fn request_name(kind: RequestKind) -> Seq<char> {
    match kind {
        RequestKind::SetObject => "set_object"@,
        RequestKind::SetTransform => "set_transform"@,
        RequestKind::SetProperty => "set_property"@,
        RequestKind::SetTarget => "set_target"@,
        RequestKind::Delete => "delete"@,
    }
}

impl RequestKind {
    /// The command's name on the wire.
    pub fn name(&self) -> (r: String)
        ensures
            r@ == request_name(*self),
    {
        match self {
            RequestKind::SetObject => "set_object".to_string(),
            RequestKind::SetTransform => "set_transform".to_string(),
            RequestKind::SetProperty => "set_property".to_string(),
            RequestKind::SetTarget => "set_target".to_string(),
            RequestKind::Delete => "delete".to_string(),
        }
    }
}

/// The properties of a scene node that a `set_property` request can change.
#[derive(Clone, Copy, Debug, PartialEq, Eq)]
pub enum PropertyKind {
    Visible,
    Position,
    Quaternion,
    Scale,
    Color,
    Opacity,
    ModulatedOpacity,
    TopColor,
    BottomColor,
}

/// The name under which the viewer knows a property.
pub open spec fn property_name(kind: PropertyKind) -> Seq<char> {
    match kind {
        PropertyKind::Visible => "visible"@,
        PropertyKind::Position => "position"@,
        PropertyKind::Quaternion => "quaternion"@,
        PropertyKind::Scale => "scale"@,
        PropertyKind::Color => "color"@,
        PropertyKind::Opacity => "opacity"@,
        PropertyKind::ModulatedOpacity => "modulated_opacity"@,
        PropertyKind::TopColor => "top_color"@,
        PropertyKind::BottomColor => "bottom_color"@,
    }
}

impl PropertyKind {
    /// The property's name in a `set_property` request.
    pub fn name(&self) -> (r: String)
        ensures
            r@ == property_name(*self),
    {
        match self {
            PropertyKind::Visible => String::from_str("visible"),
            PropertyKind::Position => String::from_str("position"),
            PropertyKind::Quaternion => String::from_str("quaternion"),
            PropertyKind::Scale => String::from_str("scale"),
            PropertyKind::Color => String::from_str("color"),
            PropertyKind::Opacity => String::from_str("opacity"),
            PropertyKind::ModulatedOpacity => String::from_str("modulated_opacity"),
            PropertyKind::TopColor => String::from_str("top_color"),
            PropertyKind::BottomColor => String::from_str("bottom_color"),
        }
    }
}

/// A request to remove the node at `path`, with everything below it.
#[derive(Debug)]
pub struct DeleteData {
    pub path: String,
    pub request_type: String,
}

impl DeleteData {
    /// The `delete` request for `path`.
    pub fn new(path: &str) -> (r: Self)
        ensures
            r.path@ == path@,
            r.request_type@ == request_name(RequestKind::Delete),
    {
        DeleteData { path: path.to_string(), request_type: RequestKind::Delete.name() }
    }
}

} // verus!
