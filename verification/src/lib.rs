//! The decision core of a small ray tracer.
//!
//! A ray tracer spends its time on arithmetic, and its correctness on
//! decisions: which surface is nearest, which face of a box was struck,
//! whether a point lies in shadow, whether a ray is followed further. This
//! crate holds the decisions, each with a contract. The arithmetic between
//! them is the caller's, and reaches the crate as bit patterns.
//!
//! - [`scalar`] and [`value`]: single-precision numbers by their bit
//!   patterns, their order, and the numbers they stand for.
//! - [`vec3`], [`color`], [`material`], [`ray_intersect`]: the data of a
//!   scene and the record of a hit.
//! - [`slab`], [`cube`], [`cube_tex`], [`plane`]: where a ray strikes a box
//!   or a plane, and on which side.
//! - [`texture`], [`render`]: images to read from and a picture to write to.
//! - [`shading`]: the nearest hit, the shadow, and the rays that follow.
//! - [`camera`]: the limit on the pitch of an orbiting camera.
//! - [`scene`], [`world`]: the objects of a scene, and a small world of them.
pub mod camera;
pub mod color;
pub mod cube;
pub mod cube_tex;
pub mod material;
pub mod plane;
pub mod ray_intersect;
pub mod render;
pub mod scalar;
pub mod scene;
pub mod shading;
pub mod slab;
pub mod texture;
pub mod value;
pub mod vec3;
pub mod world;
