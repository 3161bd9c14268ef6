//! Scene-description types for the meshcat viewer and the rules that tie
//! them together: textures, embedded images, the children a lumped object
//! gets for its geometries, and the names used by the viewer's protocol.

pub mod ids;
pub mod object;
pub mod texture;
pub mod image;
pub mod lumped;
pub mod request;
pub mod shapes;
