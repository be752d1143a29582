//! Materials: which texture a block shows on each of its faces.

use vstd::prelude::*;
use crate::block_vector::{spec_faces_upto, BlockVector};
use crate::coord::Coord3DI;
use crate::face::Face;

verus! {

/// The textures of a block, one for each face.
#[derive(Clone, Copy, Debug, PartialEq, Eq)]
pub struct Material {
    textures: [u32; 6],
}

impl View for Material {
    type V = Seq<u32>;

    /// The six texture indices, by the ordinal of the face.
    closed spec fn view(&self) -> Seq<u32> {
        self.textures@
    }
}

/// The texture for each face that `faces` marks visible, and `None` for the
/// others.
pub open spec fn spec_visible_textures(textures: Seq<u32>, faces: Seq<bool>) -> Seq<Option<u32>> {
    Seq::new(
        6,
        |i: int|
            if faces[i] {
                Some(textures[i])
            } else {
                None
            },
    )
}

impl Material {
    pub fn new(textures: [u32; 6]) -> (m: Self)
        ensures
            m@ == textures@,
    {
        Self { textures }
    }

    /// The material of a surface block.
    pub closed spec fn spec_grass() -> Material {
        Material { textures: GRASS_TEXTURES }
    }

    /// The material of a block below the surface.
    pub closed spec fn spec_dirt() -> Material {
        Material { textures: DIRT_TEXTURES }
    }

    /// The material of a surface block.
    #[verifier::when_used_as_spec(spec_grass)]
    pub fn grass() -> (m: Self)
        ensures
            m == Material::spec_grass(),
            m@ == GRASS_TEXTURES@,
    {
        Material { textures: GRASS_TEXTURES }
    }

    /// The material of a block below the surface.
    #[verifier::when_used_as_spec(spec_dirt)]
    pub fn dirt() -> (m: Self)
        ensures
            m == Material::spec_dirt(),
            m@ == DIRT_TEXTURES@,
    {
        Material { textures: DIRT_TEXTURES }
    }

    /// The texture shown on `face`.
    pub fn get_texture(&self, face: Face) -> (t: u32)
        ensures
            self@.len() == 6,
            t == self@[face.spec_ordinal() as int],
    {
        self.textures[face.ordinal()]
    }

    /// The quads of a block of this material at `pos`: one for every face
    /// that `faces` marks visible, textured as the material says.
    pub fn to_vector(&self, pos: Coord3DI, faces: [bool; 6]) -> (v: BlockVector)
        ensures
            v.spec_pos() == pos,
            v@ == spec_faces_upto(pos, spec_visible_textures(self@, faces@), 6),
    {
        let textures: [Option<u32>; 6] = [
            if faces[Face::Up.ordinal()] { Some(self.get_texture(Face::Up)) } else { None },
            if faces[Face::Down.ordinal()] { Some(self.get_texture(Face::Down)) } else { None },
            if faces[Face::Left.ordinal()] { Some(self.get_texture(Face::Left)) } else { None },
            if faces[Face::Right.ordinal()] { Some(self.get_texture(Face::Right)) } else { None },
            if faces[Face::Front.ordinal()] { Some(self.get_texture(Face::Front)) } else { None },
            if faces[Face::Back.ordinal()] { Some(self.get_texture(Face::Back)) } else { None },
        ];
        assert(textures@ == spec_visible_textures(self@, faces@));
        BlockVector::new(pos, textures)
    }
}

/// The two materials of the terrain by their textures: grass shows texture
/// 1 on top, 2 below and 0 on its four sides, dirt shows texture 2 on every
/// face. So the two differ.
pub proof fn lemma_terrain_materials()
    ensures
        Material::spec_grass()@ == GRASS_TEXTURES@,
        Material::spec_dirt()@ == DIRT_TEXTURES@,
        Material::spec_grass()@ == seq![1u32, 2u32, 0u32, 0u32, 0u32, 0u32],
        Material::spec_dirt()@ == seq![2u32, 2u32, 2u32, 2u32, 2u32, 2u32],
        Material::spec_grass() != Material::spec_dirt(),
{
    assert(Material::spec_grass()@[0] == 1);
    assert(Material::spec_dirt()@[0] == 2);
}

/// The textures of a surface block: grass on top, dirt below and the
/// grassy side texture all around.
pub const GRASS_TEXTURES: [u32; 6] = [1, 2, 0, 0, 0, 0];

/// The textures of a block below the surface: dirt on every face.
pub const DIRT_TEXTURES: [u32; 6] = [2, 2, 2, 2, 2, 2];

} // verus!
