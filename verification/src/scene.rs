//! The objects of a scene, in the order they were added.
use vstd::prelude::*;
use crate::cube_tex::TexturedCube;
use crate::material::Material;
use crate::texture::Texture;
use crate::vec3::Vec3;

verus! {

/// One object of a scene: a closed set of kinds.
#[derive(Clone, Copy, Debug)]
pub enum Object<'a> {
    TexCube(TexturedCube<'a>),
}

/// The objects of a scene. Their order does not change what is seen, but it
/// is kept, so that every scan of the scene walks it the same way.
#[derive(Debug)]
pub struct Scene<'a> {
    pub objects: Vec<Object<'a>>,
}

impl<'a> Scene<'a> {
    /// The scene without objects.
    pub fn new() -> (r: Scene<'a>)
        ensures
            r.objects@ == Seq::<Object<'a>>::empty(),
    {
        Scene { objects: Vec::new() }
    }

    /// Adds the box from `min` to `max`, painted with `tex`, behind the
    /// objects that are there.
    pub fn add_textured_cube(&mut self, min: Vec3, max: Vec3, mat: Material, tex: &'a Texture)
        ensures
            final(self).objects@ == old(self).objects@.push(
                Object::TexCube(TexturedCube { min, max, material: mat, tex }),
            ),
    {
        self.objects.push(Object::TexCube(TexturedCube::new(min, max, mat, tex)));
    }
}

} // verus!
