# meshcat

Scene descriptions for the [meshcat](https://github.com/rdeits/meshcat) viewer.

- `src/` is the verified library (Verus): textures, embedded PNG images and
  file extensions, the linking of a lumped object's texture, image, material,
  object and per-geometry children, and the command and property names of the
  viewer's protocol.
- `app/` is ordinary Rust around it: the serialisable scene types with their
  floating-point data (geometries, poses, materials), the conversions from URDF,
  and the ZeroMQ client that sends MessagePack-encoded requests.
- `tests/` exercises the library.
