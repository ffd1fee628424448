//! A block of text that is handed on while it comes.
use vstd::prelude::*;
use vstd::string::*;

use super::interface::{
    chunk_views, delta_text, delta_text_of_both, push_chunk, ChunkView, ContentBlockType,
    StreamChunk,
};
use crate::seqs::{prefix_next, whole_prefix};
use crate::text::texts;

verus! {

/// A block that begins with its first text.
#[derive(Debug)]
pub struct TextBlock {
    pub index: u32,
    pub block_type: ContentBlockType,
    pub started: bool,
    /// The text so far.
    pub aggregate: String,
}

/// What a `TextBlock` stands for.
pub struct BlockView {
    pub index: u32,
    pub block_type: ContentBlockType,
    pub started: bool,
    pub aggregate: Seq<char>,
}

impl View for TextBlock {
    type V = BlockView;

    open spec fn view(&self) -> BlockView {
        BlockView {
            index: self.index,
            block_type: self.block_type,
            started: self.started,
            aggregate: self.aggregate@,
        }
    }
}

/// A block that has not begun.
pub open spec fn unstarted(index: u32, block_type: ContentBlockType) -> BlockView {
    BlockView { index, block_type, started: false, aggregate: Seq::empty() }
}

impl BlockView {
    /// The beginning of the block.
    pub open spec fn start(self) -> ChunkView {
        ChunkView::ContentBlockStart { index: self.index, block_type: self.block_type }
    }

    /// A piece of the block.
    pub open spec fn delta(self, content: Seq<char>) -> ChunkView {
        ChunkView::Delta { content, index: self.index, block_type: self.block_type }
    }

    /// A text: it is handed on and gathered unless it is empty; the first one begins
    /// the block.
    pub open spec fn with_text(self, text: Seq<char>) -> (BlockView, Seq<ChunkView>) {
        if text.len() == 0 {
            (self, Seq::empty())
        } else {
            (
                BlockView { aggregate: self.aggregate + text, started: true, ..self },
                if self.started {
                    seq![self.delta(text)]
                } else {
                    seq![self.start(), self.delta(text)]
                },
            )
        }
    }

    /// Texts one after the other.
    pub open spec fn with_texts(self, parts: Seq<Seq<char>>) -> (BlockView, Seq<ChunkView>)
        decreases parts.len(),
    {
        if parts.len() == 0 {
            (self, Seq::empty())
        } else {
            let (state, chunks) = self.with_texts(parts.drop_last());
            let (next, more) = state.with_text(parts.last());
            (next, chunks + more)
        }
    }

    /// The end of the block, if it has begun.
    pub open spec fn stop(self) -> Seq<ChunkView> {
        if self.started {
            seq![ChunkView::ContentBlockStop { index: self.index }]
        } else {
            Seq::empty()
        }
    }
}

/// What a block gathers is the text of the pieces that it hands on.
pub proof fn block_text_is_handed_on(block: BlockView, parts: Seq<Seq<char>>)
    ensures
        block.with_texts(parts).0.aggregate == block.aggregate + delta_text(
            block.with_texts(parts).1,
        ),
    decreases parts.len(),
{
    if parts.len() == 0 {
        assert(block.aggregate + Seq::<char>::empty() =~= block.aggregate);
    } else {
        block_text_is_handed_on(block, parts.drop_last());
        let (mid, chunks) = block.with_texts(parts.drop_last());
        let (next, more) = mid.with_text(parts.last());
        delta_text_of_both(chunks, more);
        if parts.last().len() == 0 {
            assert(chunks + more =~= chunks);
        } else {
            reveal_with_fuel(delta_text, 3);
            if more.len() == 2 {
                assert(more.drop_last().drop_last() =~= Seq::empty());
                assert(more.drop_last().last() == mid.start());
                assert(delta_text(more.drop_last()) =~= Seq::empty());
            } else {
                assert(more.drop_last() =~= Seq::empty());
            }
            assert(more.last() == mid.delta(parts.last()));
            assert(delta_text(more) =~= parts.last());
            assert((block.aggregate + delta_text(chunks)) + parts.last() =~= block.aggregate + (
            delta_text(chunks) + parts.last()));
        }
    }
}

impl TextBlock {
    pub fn new(index: u32, block_type: ContentBlockType) -> (r: Self)
        ensures
            r@ == unstarted(index, block_type),
    {
        TextBlock { index, block_type, started: false, aggregate: String::new() }
    }

    /// Takes in a text and hands it on.
    pub fn emit(&mut self, text: &str, chunks: &mut Vec<StreamChunk>)
        ensures
            final(self)@ == old(self)@.with_text(text@).0,
            chunk_views(final(chunks)@) == chunk_views(old(chunks)@) + old(self)@.with_text(text@).1,
    {
        let ghost before = chunk_views(chunks@);
        if text.is_empty() {
            assert(before + Seq::<ChunkView>::empty() =~= before);
            return;
        }
        if !self.started {
            push_chunk(
                chunks,
                StreamChunk::ContentBlockStart { index: self.index, block_type: self.block_type },
            );
            self.started = true;
        }
        self.aggregate.append(text);
        push_chunk(
            chunks,
            StreamChunk::Delta {
                content: text.to_owned(),
                index: self.index,
                block_type: self.block_type,
            },
        );
        assert(chunk_views(chunks@) =~= before + old(self)@.with_text(text@).1);
    }

    /// Takes in texts and hands them on.
    pub fn emit_all(&mut self, parts: &Vec<String>, chunks: &mut Vec<StreamChunk>)
        ensures
            final(self)@ == old(self)@.with_texts(texts(parts@)).0,
            chunk_views(final(chunks)@) == chunk_views(old(chunks)@) + old(self)@.with_texts(
                texts(parts@),
            ).1,
    {
        let ghost all = texts(parts@);
        let ghost start = self@;
        let ghost before = chunk_views(chunks@);
        let mut i: usize = 0;
        proof {
            whole_prefix(all);
            assert(before + Seq::<ChunkView>::empty() =~= before);
        }
        while i < parts.len()
            invariant
                i <= parts@.len(),
                all == texts(parts@),
                self@ == start.with_texts(all.subrange(0, i as int)).0,
                chunk_views(chunks@) == before + start.with_texts(all.subrange(0, i as int)).1,
            decreases parts@.len() - i,
        {
            proof {
                prefix_next(all, i as int);
            }
            self.emit(parts[i].as_str(), chunks);
            assert(chunk_views(chunks@) =~= before + start.with_texts(all.subrange(0, i + 1)).1);
            i = i + 1;
        }
        proof {
            whole_prefix(all);
        }
    }

    /// Hands on the end of the block, if it has begun.
    pub fn close(&self, chunks: &mut Vec<StreamChunk>)
        ensures
            chunk_views(final(chunks)@) == chunk_views(old(chunks)@) + self@.stop(),
    {
        let ghost before = chunk_views(chunks@);
        if self.started {
            push_chunk(chunks, StreamChunk::ContentBlockStop { index: self.index });
        }
        assert(chunk_views(chunks@) =~= before + self@.stop());
    }
}

/// A block hands on each text that is not empty, as it is and under its own number and
/// kind; it begins before its first text, once, and ends only if it has begun.
pub proof fn blocks_begin_once_and_end(block: BlockView, text: Seq<char>)
    ensures
        ({
            let (after, chunks) = block.with_text(text);
            &&& after.index == block.index && after.block_type == block.block_type
            &&& after.aggregate == block.aggregate + text
            &&& after.started == (block.started || text.len() > 0)
            &&& text.len() == 0 ==> chunks.len() == 0
            &&& text.len() > 0 ==> chunks.last() == (ChunkView::Delta {
                content: text,
                index: block.index,
                block_type: block.block_type,
            })
            &&& text.len() > 0 && block.started ==> chunks.len() == 1
            &&& text.len() > 0 && !block.started ==> chunks.len() == 2 && chunks[0] == (
            ChunkView::ContentBlockStart { index: block.index, block_type: block.block_type })
        }),
        block.started ==> block.stop() == seq![ChunkView::ContentBlockStop { index: block.index }],
        !block.started ==> block.stop().len() == 0,
{
    assert(block.aggregate + Seq::<char>::empty() =~= block.aggregate);
    if text.len() == 0 {
        assert(text =~= Seq::empty());
    }
}

/// A text after others is handed on after what they brought.
pub proof fn texts_are_handed_on_in_order(block: BlockView, parts: Seq<Seq<char>>, text: Seq<char>)
    ensures
        ({
            let (before, chunks) = block.with_texts(parts);
            let (after, all) = block.with_texts(parts.push(text));
            &&& after == before.with_text(text).0
            &&& all == chunks + before.with_text(text).1
            &&& after.aggregate == before.aggregate + text
        }),
        block.with_texts(Seq::empty()) == (block, Seq::<ChunkView>::empty()),
{
    assert(parts.push(text).drop_last() =~= parts);
    blocks_begin_once_and_end(block.with_texts(parts).0, text);
}

} // verus!
