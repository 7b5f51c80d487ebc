//! The append-only byte sink an artifact is streamed into.
//!
//! The sink models the destination file once it has been truncate-created:
//! it starts empty, and every block handed to [`ArtifactSink::append`] is
//! written whole at the end, in call order. The accounting proved here is
//! what the transfer relies on; the process that writes the same blocks to
//! the real file mirrors it outside the library.

use vstd::prelude::*;

verus! {

/// The bytes a sequence of blocks yields when each block is written whole,
/// in order.
pub open spec fn concat_blocks(blocks: Seq<Seq<u8>>) -> Seq<u8>
    decreases blocks.len(),
{
    if blocks.len() == 0 {
        Seq::empty()
    } else {
        concat_blocks(blocks.drop_last()) + blocks.last()
    }
}

/// The number of bytes a sequence of blocks carries in all.
pub open spec fn total_block_len(blocks: Seq<Seq<u8>>) -> nat
    decreases blocks.len(),
{
    if blocks.len() == 0 {
        0
    } else {
        total_block_len(blocks.drop_last()) + blocks.last().len()
    }
}

/// Writing blocks that carry N bytes in all yields exactly N bytes: the
/// concatenation loses nothing and adds nothing.
pub proof fn lemma_concat_blocks_len(blocks: Seq<Seq<u8>>)
    ensures
        concat_blocks(blocks).len() == total_block_len(blocks),
    decreases blocks.len(),
{
    if blocks.len() > 0 {
        lemma_concat_blocks_len(blocks.drop_last());
    }
}

/// An append-only sink for the bytes of one artifact.
pub struct ArtifactSink {
    contents: Vec<u8>,
}

impl View for ArtifactSink {
    type V = Seq<u8>;

    closed spec fn view(&self) -> Seq<u8> {
        self.contents@
    }
}

impl ArtifactSink {
    /// A fresh sink: the destination holds no bytes yet.
    pub fn new() -> (s: ArtifactSink)
        ensures
            s@ == Seq::<u8>::empty(),
    {
        ArtifactSink { contents: Vec::new() }
    }

    /// Append one block whole at the end of the sink and report how many
    /// bytes were written, which is always the whole block.
    pub fn append(&mut self, block: &[u8]) -> (n: usize)
        ensures
            final(self)@ == old(self)@ + block@,
            n == block@.len(),
    {
        let mut i: usize = 0;
        while i < block.len()
            invariant
                i <= block@.len(),
                self@ == old(self)@ + block@.subrange(0, i as int),
            decreases block@.len() - i,
        {
            self.contents.push(block[i]);
            i = i + 1;
        }
        proof {
            assert(block@.subrange(0, block@.len() as int) =~= block@);
        }
        block.len()
    }

    /// Append a sequence of blocks in call order: the sink then holds its
    /// old bytes followed by exactly the blocks' bytes, concatenated in that
    /// order.
    pub fn append_all(&mut self, blocks: &Vec<Vec<u8>>)
        ensures
            final(self)@ == old(self)@ + concat_blocks(blocks@.map_values(|b: Vec<u8>| b@)),
    {
        let ghost views = blocks@.map_values(|b: Vec<u8>| b@);
        let mut i: usize = 0;
        while i < blocks.len()
            invariant
                i <= blocks@.len(),
                views == blocks@.map_values(|b: Vec<u8>| b@),
                self@ == old(self)@ + concat_blocks(views.subrange(0, i as int)),
            decreases blocks@.len() - i,
        {
            self.append(blocks[i].as_slice());
            i = i + 1;
            proof {
                assert(views.subrange(0, i as int).drop_last() =~= views.subrange(
                    0,
                    i as int - 1,
                ));
            }
        }
        proof {
            assert(views.subrange(0, views.len() as int) =~= views);
        }
    }

    /// The bytes written so far, in the order they were appended.
    pub fn written(&self) -> (r: &Vec<u8>)
        ensures
            r@ == self@,
    {
        &self.contents
    }

    /// How many bytes have been written so far.
    pub fn total_len(&self) -> (n: usize)
        ensures
            n == self@.len(),
    {
        self.contents.len()
    }
}

} // verus!
