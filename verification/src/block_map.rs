//! The quads of a whole chunk, block by block.

use vstd::prelude::*;
use crate::block_vector::BlockVector;
use crate::quad::Quad;

verus! {

/// All the quads of `vectors` in one sequence: block after block, and within
/// a block in the order in which its quads were added.
pub open spec fn spec_quads(vectors: Seq<BlockVector>) -> Seq<Quad> {
    vectors.map_values(|v: BlockVector| v@).flatten()
}

/// The sum, over `vectors`, of the number of quads each one holds.
pub open spec fn spec_quad_len(vectors: Seq<BlockVector>) -> nat
    decreases vectors.len(),
{
    if vectors.len() == 0 {
        0
    } else {
        spec_quad_len(vectors.drop_last()) + vectors.last()@.len()
    }
}

/// The values behind a sequence of references.
pub open spec fn spec_deref(quads: Seq<&Quad>) -> Seq<Quad> {
    quads.map_values(|q: &Quad| *q)
}

/// One more block adds its quads after those that are there.
pub proof fn lemma_quads_push(vectors: Seq<BlockVector>, vector: BlockVector)
    ensures
        spec_quads(vectors.push(vector)) == spec_quads(vectors) + vector@,
        spec_quad_len(vectors.push(vector)) == spec_quad_len(vectors) + vector@.len(),
{
    let views = vectors.map_values(|v: BlockVector| v@);
    assert(vectors.push(vector).map_values(|v: BlockVector| v@) == views.push(vector@));
    views.lemma_flatten_push(vector@);
    assert(vectors.push(vector).drop_last() == vectors);
}

/// The flattened sequence has as many quads as the blocks hold together.
pub proof fn lemma_quads_len(vectors: Seq<BlockVector>)
    ensures
        spec_quads(vectors).len() == spec_quad_len(vectors),
    decreases vectors.len(),
{
    if vectors.len() > 0 {
        lemma_quads_len(vectors.drop_last());
        lemma_quads_push(vectors.drop_last(), vectors.last());
        assert(vectors.drop_last().push(vectors.last()) == vectors);
    }
}

/// The blocks of a chunk as quads, in the order in which the blocks were
/// pushed.
pub struct BlockMap {
    vectors: Vec<BlockVector>,
}

impl View for BlockMap {
    type V = Seq<BlockVector>;

    closed spec fn view(&self) -> Seq<BlockVector> {
        self.vectors@
    }
}

impl BlockMap {
    pub fn new() -> (map: Self)
        ensures
            map@ == Seq::<BlockVector>::empty(),
    {
        Self { vectors: Vec::new() }
    }

    /// Appends a block.
    pub fn push(&mut self, vector: BlockVector)
        ensures
            final(self)@ == old(self)@.push(vector),
    {
        self.vectors.push(vector);
    }

    /// The block with number `index`, which has to be there.
    pub fn get(&self, index: usize) -> (vector: &BlockVector)
        requires
            index < self@.len(),
        ensures
            *vector == self@[index as int],
    {
        &self.vectors[index]
    }

    /// Puts `vector` in the place of the block with number `index`, which
    /// has to be there.
    pub fn replace(&mut self, vector: BlockVector, index: usize)
        requires
            index < old(self)@.len(),
        ensures
            final(self)@ == old(self)@.update(index as int, vector),
    {
        self.vectors.set(index, vector);
    }

    /// The number of blocks.
    pub fn len(&self) -> (n: usize)
        ensures
            n == self@.len(),
    {
        self.vectors.len()
    }

    /// The number of quads: the sum of what the blocks hold, counted anew
    /// on every call.
    pub fn quad_len(&self) -> (n: usize)
        ensures
            n == spec_quad_len(self@),
            n == spec_quads(self@).len(),
    {
        proof {
            lemma_quads_len(self@);
        }
        let mut len: usize = 0;
        let mut i: usize = 0;
        while i < self.vectors.len()
            invariant
                i <= self.vectors@.len(),
                len == spec_quad_len(self.vectors@.take(i as int)),
                spec_quads(self@).len() == spec_quad_len(self@),
            decreases self.vectors@.len() - i,
        {
            proof {
                let all = self.vectors@;
                assert(all.take(i as int + 1).drop_last() == all.take(i as int));
            }
            match len.checked_add(self.vectors[i].get_faces().len()) {
                Some(sum) => {
                    len = sum;
                },
                None => {
                    // The sum is the length of the flattened sequence, which
                    // is counted without adding.
                    return self.quads().len();
                },
            }
            i += 1;
        }
        assert(self.vectors@.take(i as int) == self.vectors@);
        len
    }

    /// An iterator over the blocks, in their order.
    pub fn iter(&self) -> (blocks: std::slice::Iter<'_, BlockVector>)
        ensures
            vstd::std_specs::slice::into_iter_elts(blocks) == self@,
    {
        self.vectors.iter()
    }

    /// The quads of all blocks: block after block, each block's quads in
    /// the order in which they were added.
    pub fn quads(&self) -> (quads: Vec<&Quad>)
        ensures
            spec_deref(quads@) == spec_quads(self@),
    {
        let mut quads: Vec<&Quad> = Vec::new();
        let mut i: usize = 0;
        assert(self.vectors@.take(0).map_values(|v: BlockVector| v@) == Seq::<Seq<Quad>>::empty());
        assert(spec_deref(quads@) == spec_quads(self.vectors@.take(0)));
        while i < self.vectors.len()
            invariant
                i <= self.vectors@.len(),
                spec_deref(quads@) == spec_quads(self.vectors@.take(i as int)),
            decreases self.vectors@.len() - i,
        {
            let faces = self.vectors[i].get_faces();
            let ghost before = quads@;
            let mut j: usize = 0;
            while j < faces.len()
                invariant
                    j <= faces@.len(),
                    spec_deref(quads@) == spec_deref(before) + faces@.take(j as int),
                decreases faces@.len() - j,
            {
                let ghost so_far = quads@;
                quads.push(&faces[j]);
                proof {
                    assert(faces@.take(j as int + 1) == faces@.take(j as int).push(faces@[j as int]));
                    assert(spec_deref(quads@) == spec_deref(so_far).push(faces@[j as int]));
                }
                j += 1;
            }
            proof {
                let all = self.vectors@;
                assert(faces@.take(j as int) == faces@);
                assert(all.take(i as int + 1) == all.take(i as int).push(all[i as int]));
                lemma_quads_push(all.take(i as int), all[i as int]);
            }
            i += 1;
        }
        assert(self.vectors@.take(i as int) == self.vectors@);
        quads
    }
}

} // verus!
