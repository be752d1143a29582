//! The quads of one block: at most one for each face.

use vstd::prelude::*;
use crate::coord::{Coord3DH, Coord3DI};
use crate::face::Face;
use crate::quad::Quad;

verus! {

/// The centre of the block at `pos`, in half-block units.
pub open spec fn spec_center(pos: Coord3DI) -> Coord3DH {
    Coord3DH { x: (2 * pos.x) as i64, y: (2 * pos.y) as i64, z: (2 * pos.z) as i64 }
}

/// The step from a block's centre to the centre of `face`, in half-block
/// units: the outward normal.
pub open spec fn spec_offset(face: Face) -> Coord3DH {
    let n = face.spec_normal();
    Coord3DH { x: n.0 as i64, y: n.1 as i64, z: n.2 as i64 }
}

/// The quad on `face` of the block centred at `center`.
pub open spec fn spec_create_quad(center: Coord3DH, face: Face, texture: u32) -> Quad {
    let offset = spec_offset(face);
    Quad::spec_new(
        Coord3DH {
            x: (center.x + offset.x) as i64,
            y: (center.y + offset.y) as i64,
            z: (center.z + offset.z) as i64,
        },
        face,
        texture,
    )
}

/// The quads of the first `n` faces, in the order of the faces' ordinals:
/// one for each face whose entry in `textures` is `Some`.
pub open spec fn spec_faces_upto(pos: Coord3DI, textures: Seq<Option<u32>>, n: int) -> Seq<Quad>
    decreases n,
{
    if n <= 0 {
        Seq::empty()
    } else {
        let before = spec_faces_upto(pos, textures, n - 1);
        match textures[n - 1] {
            Some(texture) => before.push(
                spec_create_quad(spec_center(pos), Face::spec_from_ordinal(n - 1), texture),
            ),
            None => before,
        }
    }
}

/// Whether some quad of `faces` looks along `face`.
pub open spec fn has_face(faces: Seq<Quad>, face: Face) -> bool {
    exists|i: int| 0 <= i < faces.len() && (#[trigger] faces[i]).facing == face
}

/// No two quads look the same way.
pub open spec fn distinct_facings(faces: Seq<Quad>) -> bool {
    forall|i: int, j: int|
        0 <= i < j < faces.len() ==> (#[trigger] faces[i]).facing != (#[trigger] faces[j]).facing
}

/// Every quad sits on its own face of the block at `pos` and is oriented as
/// that face prescribes.
pub open spec fn placed_on(pos: Coord3DI, faces: Seq<Quad>) -> bool {
    forall|i: int|
        0 <= i < faces.len() ==> #[trigger] faces[i] == spec_create_quad(
            spec_center(pos),
            faces[i].facing,
            faces[i].texture_index,
        )
}

/// Gives the quads that look along `face` the texture `t` and keeps the
/// others.
pub open spec fn retexture(face: Face, t: u32) -> spec_fn(Quad) -> Quad {
    |q: Quad|
        if q.facing == face {
            q.with_texture(t)
        } else {
            q
        }
}

/// Holds of the quads that do not look along `face`.
pub open spec fn looks_away(face: Face) -> spec_fn(Quad) -> bool {
    |q: Quad| q.facing != face
}

/// What `set_face` leaves of `faces`.
pub open spec fn spec_set_face(
    pos: Coord3DI,
    faces: Seq<Quad>,
    face: Face,
    texture: Option<u32>,
) -> Seq<Quad> {
    match texture {
        Some(t) => if has_face(faces, face) {
            faces.map_values(retexture(face, t))
        } else {
            faces.push(spec_create_quad(spec_center(pos), face, t))
        },
        None => faces.filter(looks_away(face)),
    }
}

/// Six faces leave room for at most six quads that all look different ways.
pub proof fn lemma_at_most_six(faces: Seq<Quad>)
    requires
        distinct_facings(faces),
    ensures
        faces.len() <= 6,
{
    if faces.len() >= 7 {
        let f0 = faces[0].facing;
        let f1 = faces[1].facing;
        let f2 = faces[2].facing;
        let f3 = faces[3].facing;
        let f4 = faces[4].facing;
        let f5 = faces[5].facing;
        let f6 = faces[6].facing;
        assert(false);
    }
}

/// No two quads of a block look the same way, each one sits on its own
/// face of the block, and there are six at most.
pub proof fn lemma_faces_apart(vector: BlockVector)
    requires
        vector.wf(),
    ensures
        distinct_facings(vector@),
        placed_on(vector.spec_pos(), vector@),
        vector@.len() <= 6,
{
    lemma_at_most_six(vector@);
}

/// Leaving out the quads that look along `face` keeps the others apart.
proof fn lemma_filter_keeps_distinct(faces: Seq<Quad>, face: Face)
    requires
        distinct_facings(faces),
    ensures
        distinct_facings(faces.filter(looks_away(face))),
        forall|i: int|
            0 <= i < faces.filter(looks_away(face)).len() ==> faces.contains(
                #[trigger] faces.filter(looks_away(face))[i],
            ),
    decreases faces.len(),
{
    let keep = looks_away(face);
    let kept = faces.filter(keep);
    assert forall|i: int| 0 <= i < kept.len() implies faces.contains(#[trigger] kept[i]) by {
        assert(kept.contains(kept[i]));
        faces.lemma_filter_contains_rev(keep, kept[i]);
    }
    if faces.len() > 0 {
        let rest = faces.drop_last();
        let last = faces.last();
        lemma_filter_keeps_distinct(rest, face);
        assert(rest.push(last) == faces);
        rest.lemma_filter_push(last, keep);
        let rest_kept = rest.filter(keep);
        if keep(last) {
            assert forall|i: int, j: int| 0 <= i < j < kept.len() implies (#[trigger] kept[i]).facing
                != (#[trigger] kept[j]).facing by {
                if j == kept.len() - 1 {
                    assert(rest.contains(rest_kept[i]));
                    let k = choose|k: int| 0 <= k < rest.len() && rest[k] == rest_kept[i];
                    assert(faces[k].facing != faces[faces.len() - 1].facing);
                }
            }
        }
    }
}

/// `set_face` keeps what every block's quads obey: applied to quads of the
/// block at `pos` of which no two look the same way, it leaves such quads.
/// So no two quads of a block ever share a facing, whatever calls came
/// before, and a block never has more than six.
pub proof fn lemma_set_face_keeps_faces_apart(
    pos: Coord3DI,
    faces: Seq<Quad>,
    face: Face,
    texture: Option<u32>,
)
    requires
        distinct_facings(faces),
        placed_on(pos, faces),
    ensures
        distinct_facings(spec_set_face(pos, faces, face, texture)),
        placed_on(pos, spec_set_face(pos, faces, face, texture)),
        spec_set_face(pos, faces, face, texture).len() <= 6,
{
    let after = spec_set_face(pos, faces, face, texture);
    match texture {
        Some(t) => {
            if !has_face(faces, face) {
                assert forall|i: int, j: int| 0 <= i < j < after.len() implies (#[trigger] after[i]).facing
                    != (#[trigger] after[j]).facing by {
                    if j == faces.len() {
                        assert(faces[i].facing != face);
                    }
                }
            }
        },
        None => {
            lemma_filter_keeps_distinct(faces, face);
            assert forall|i: int| 0 <= i < after.len() implies #[trigger] after[i] == spec_create_quad(
                spec_center(pos),
                after[i].facing,
                after[i].texture_index,
            ) by {
                assert(faces.contains(after[i]));
                let k = choose|k: int| 0 <= k < faces.len() && faces[k] == after[i];
                assert(faces[k] == spec_create_quad(
                    spec_center(pos),
                    faces[k].facing,
                    faces[k].texture_index,
                ));
            }
        },
    }
    lemma_at_most_six(after);
}

/// The quads that `BlockVector::new` builds sit on their block, and no two
/// of them look the same way.
pub proof fn lemma_new_faces_apart(pos: Coord3DI, textures: Seq<Option<u32>>, n: int)
    requires
        0 <= n <= 6,
    ensures
        distinct_facings(spec_faces_upto(pos, textures, n)),
        placed_on(pos, spec_faces_upto(pos, textures, n)),
        forall|i: int|
            0 <= i < spec_faces_upto(pos, textures, n).len() ==> (#[trigger] spec_faces_upto(
                pos,
                textures,
                n,
            )[i]).facing.spec_ordinal() < n,
    decreases n,
{
    if n > 0 {
        lemma_new_faces_apart(pos, textures, n - 1);
    }
}

fn get_offset(face: Face) -> (offset: Coord3DH)
    ensures
        offset == spec_offset(face),
{
    let n = face.normal();
    Coord3DH { x: n.x as i64, y: n.y as i64, z: n.z as i64 }
}

fn create_quad(x: i64, y: i64, z: i64, face: Face, texture: u32) -> (q: Quad)
    requires
        i64::MIN < x < i64::MAX,
        i64::MIN < y < i64::MAX,
        i64::MIN < z < i64::MAX,
    ensures
        q == spec_create_quad(Coord3DH { x, y, z }, face, texture),
{
    let offset = get_offset(face);
    let pos = Coord3DH::new(x + offset.x, y + offset.y, z + offset.z);
    Quad::new(pos, face, texture)
}

/// The quads that represent the faces of one block.
pub struct BlockVector {
    pos: Coord3DI,
    faces: Vec<Quad>,
}

impl View for BlockVector {
    type V = Seq<Quad>;

    /// The quads, in the order in which they were added.
    closed spec fn view(&self) -> Seq<Quad> {
        self.faces@
    }
}

impl BlockVector {
    /// The position of the block.
    pub closed spec fn spec_pos(&self) -> Coord3DI {
        self.pos
    }

    /// What holds of every block's quads at all times.
    #[verifier::type_invariant]
    pub closed spec fn wf(self) -> bool {
        distinct_facings(self.faces@) && placed_on(self.pos, self.faces@)
    }

    /// The block at `pos` with a quad on every face that has a texture, in
    /// the order Up, Down, Left, Right, Front, Back.
    pub fn new(pos: Coord3DI, textures: [Option<u32>; 6]) -> (v: Self)
        ensures
            v.spec_pos() == pos,
            v@ == spec_faces_upto(pos, textures@, 6),
            distinct_facings(v@),
            placed_on(pos, v@),
    {
        let xh: i64 = 2 * (pos.x as i64);
        let yh: i64 = 2 * (pos.y as i64);
        let zh: i64 = 2 * (pos.z as i64);
        let mut faces: Vec<Quad> = Vec::new();
        let mut i: usize = 0;
        while i < 6
            invariant
                i <= 6,
                xh == 2 * pos.x,
                yh == 2 * pos.y,
                zh == 2 * pos.z,
                faces@ == spec_faces_upto(pos, textures@, i as int),
                placed_on(pos, faces@),
                distinct_facings(faces@),
                forall|k: int| 0 <= k < faces.len() ==> (#[trigger] faces[k]).facing.spec_ordinal() < i,
            decreases 6 - i,
        {
            match (Face::from_ordinal(i), textures[i]) {
                (Some(face), Some(texture)) => {
                    faces.push(create_quad(xh, yh, zh, face, texture));
                },
                _ => {},
            }
            i += 1;
        }
        Self { pos, faces }
    }

    /// Sets, adds or removes the quad on `face`.
    ///
    /// With a texture, the quad that looks along `face` gets it, and where
    /// there is none a new quad is appended. Without one, the quad that
    /// looks along `face` is removed.
    pub fn set_face(&mut self, face: Face, texture: Option<u32>)
        ensures
            final(self).spec_pos() == old(self).spec_pos(),
            final(self)@ == spec_set_face(old(self).spec_pos(), old(self)@, face, texture),
            distinct_facings(final(self)@),
            placed_on(final(self).spec_pos(), final(self)@),
    {
        proof {
            use_type_invariant(&*self);
        }
        let mut faces: Vec<Quad> = Vec::new();
        std::mem::swap(&mut faces, &mut self.faces);
        let ghost before = faces@;
        match texture {
            Some(texture) => {
                let mut set = false;
                let mut i: usize = 0;
                while i < faces.len()
                    invariant
                        i <= faces.len(),
                        faces.len() == before.len(),
                        forall|k: int| 0 <= k < i ==> #[trigger] faces[k] == retexture(face, texture)(before[k]),
                        forall|k: int| i <= k < faces.len() ==> #[trigger] faces[k] == before[k],
                        set <==> exists|k: int| 0 <= k < i && (#[trigger] before[k]).facing == face,
                    decreases faces.len() - i,
                {
                    let mut f: Quad = faces[i];
                    if f.facing == face {
                        f.set_texture_index(texture);
                        faces.set(i, f);
                        set = true;
                    }
                    i += 1;
                }
                assert(set <==> has_face(before, face));
                assert(faces@ == before.map_values(retexture(face, texture)));
                if !set {
                    faces.push(
                        create_quad(
                            2 * (self.pos.x as i64),
                            2 * (self.pos.y as i64),
                            2 * (self.pos.z as i64),
                            face,
                            texture,
                        ),
                    );
                }
            },
            None => {
                let mut kept: Vec<Quad> = Vec::new();
                let mut i: usize = 0;
                while i < faces.len()
                    invariant
                        i <= faces.len(),
                        faces@ == before,
                        distinct_facings(before),
                        kept@ == before.take(i as int).filter(looks_away(face)),
                        forall|k: int|
                            0 <= k < kept.len() ==> exists|j: int|
                                0 <= j < i && before[j] == #[trigger] kept[k],
                        distinct_facings(kept@),
                    decreases faces.len() - i,
                {
                    let f: Quad = faces[i];
                    proof {
                        assert(before.take(i as int + 1) == before.take(i as int).push(before[i as int]));
                        before.take(i as int).lemma_filter_push(before[i as int], looks_away(face));
                    }
                    if f.facing != face {
                        kept.push(f);
                    }
                    i += 1;
                }
                assert(before.take(before.len() as int) == before);
                faces = kept;
            },
        }
        self.faces = faces;
    }

    /// The quads, in the order in which they were added.
    pub fn get_faces(&self) -> (faces: &Vec<Quad>)
        ensures
            faces@ == self@,
            distinct_facings(faces@),
            placed_on(self.spec_pos(), faces@),
    {
        proof {
            use_type_invariant(self);
        }
        &self.faces
    }
}

} // verus!
