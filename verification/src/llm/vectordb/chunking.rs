//! Cutting documents into chunks that are small enough to embed.
use unicode_segmentation::UnicodeSegmentation;
use vstd::prelude::*;
use vstd::string::*;
use vstd::utf8::*;

use super::types::{MetadataView, VectorMetadata};
use crate::seqs::{prefix_next, whole_prefix};
use crate::text::{
    chars_of, concat3, contains_text, join, joined, opt_text, pieces_hold_no_separator, split,
    split_text, text_of, texts,
};

verus! {

/// How documents are cut into chunks.
#[derive(Clone, Debug)]
pub struct DocumentProcessor {
    /// The most that a chunk holds.
    pub max_chunk_size: usize,
    /// How much of a chunk its neighbour repeats, where a text is cut between
    /// characters.
    pub chunk_overlap: usize,
    /// What texts are cut at, best first.
    pub separators: Vec<String>,
}

/// A part of a document.
#[derive(Clone, Debug)]
pub struct DocumentChunk {
    pub text: String,
    pub metadata: VectorMetadata,
}

/// How many bytes a text takes.
pub open spec fn bytes_len(s: Seq<char>) -> nat {
    encode_utf8(s).len()
}

fn byte_count(s: &str) -> (r: usize)
    ensures
        r == bytes_len(s@),
{
    s.as_bytes().len()
}

/// The extended grapheme clusters of a text, in their order.
pub uninterp spec fn graphemes(s: Seq<char>) -> Seq<Seq<char>>;

/// `UnicodeSegmentation::graphemes` for extended grapheme clusters: the characters of
/// a text as a reader sees them. They depend on the text alone, none of them is
/// empty, and one after the other they are the text.
#[verifier::external_body]
fn graphemes_of(s: &str) -> (r: Vec<String>)
    ensures
        texts(r@) == graphemes(s@),
        joined(texts(r@), Seq::empty()) == s@,
        forall|i: int| 0 <= i < r@.len() ==> (#[trigger] r@[i])@.len() > 0,
{
    s.graphemes(true).map(String::from).collect()
}

/// Where a window that begins at `start` ends.
pub open spec fn window_end(n: nat, start: int, size: nat) -> int {
    if start + size <= n {
        start + size
    } else {
        n as int
    }
}

/// Where the next window begins: so far before the end of one that what they share
/// is `overlap` long, if the window is longer than that.
pub open spec fn next_window(start: int, end: int, overlap: nat) -> int {
    if end - start > overlap {
        end - overlap
    } else {
        end
    }
}

/// Where the windows over `n` items begin and end, from `start` on.
pub open spec fn window_bounds(n: nat, start: int, size: nat, overlap: nat) -> Seq<(int, int)>
    decreases n - start,
{
    if start >= n || size == 0 {
        Seq::empty()
    } else {
        let end = window_end(n, start, size);
        seq![(start, end)] + window_bounds(n, next_window(start, end, overlap), size, overlap)
    }
}

/// The texts of windows over graphemes.
pub open spec fn window_texts(g: Seq<Seq<char>>, bounds: Seq<(int, int)>) -> Seq<Seq<char>> {
    Seq::new(
        bounds.len(),
        |i: int| joined(g.subrange(bounds[i].0, bounds[i].1), Seq::empty()),
    )
}

/// A text cut into windows over its graphemes.
pub open spec fn windows(g: Seq<Seq<char>>, size: nat, overlap: nat) -> Seq<Seq<char>> {
    window_texts(g, window_bounds(g.len(), 0, size, overlap))
}

/// Windows leave no gap: the first begins at the beginning, each next one where the
/// one before says, and the last ends at the end. None is empty or too large.
pub proof fn windows_leave_no_gap(n: nat, start: int, size: nat, overlap: nat)
    requires
        0 <= start < n,
        size > 0,
    ensures
        ({
            let b = window_bounds(n, start, size, overlap);
            &&& b.len() > 0
            &&& b[0].0 == start
            &&& b.last().1 == n
            &&& forall|i: int|
                0 <= i < b.len() ==> start <= (#[trigger] b[i]).0 < b[i].1 <= n && b[i].1 - b[i].0
                    <= size
            &&& forall|i: int|
                0 < i < b.len() ==> (#[trigger] b[i]).0 == next_window(
                    b[i - 1].0,
                    b[i - 1].1,
                    overlap,
                )
        }),
    decreases n - start,
{
    let end = window_end(n, start, size);
    let next = next_window(start, end, overlap);
    let b = window_bounds(n, start, size, overlap);
    let rest = window_bounds(n, next, size, overlap);
    assert(b =~= seq![(start, end)] + rest);
    if next < n {
        windows_leave_no_gap(n, next, size, overlap);
        assert forall|i: int| 0 <= i < b.len() implies start <= (#[trigger] b[i]).0 < b[i].1 <= n
            && b[i].1 - b[i].0 <= size by {
            if i > 0 {
                assert(b[i] == rest[i - 1]);
            }
        }
        assert forall|i: int| 0 < i < b.len() implies (#[trigger] b[i]).0 == next_window(
            b[i - 1].0,
            b[i - 1].1,
            overlap,
        ) by {
            assert(b[i] == rest[i - 1]);
            if i > 1 {
                assert(b[i - 1] == rest[i - 2]);
            }
        }
        assert(b.last() == rest.last());
    } else {
        assert(rest.len() == 0);
        assert(b =~= seq![(start, end)]);
    }
}

/// Joining two lists of pieces with nothing between them.
proof fn joined_without_separator(a: Seq<Seq<char>>, b: Seq<Seq<char>>)
    ensures
        joined(a + b, Seq::empty()) == joined(a, Seq::empty()) + joined(b, Seq::empty()),
    decreases b.len(),
{
    let none = Seq::<char>::empty();
    if b.len() == 0 {
        assert(a + b =~= a);
        assert(joined(a, none) + none =~= joined(a, none));
    } else {
        joined_without_separator(a, b.drop_last());
        let all = a + b;
        assert(all.drop_last() =~= a + b.drop_last());
        assert(all.last() == b.last());
        if all.len() == 1 {
            assert(a =~= Seq::empty());
            assert(all =~= b);
            assert(none + joined(b, none) =~= joined(b, none));
        } else {
            assert(joined(all, none) == joined(all.drop_last(), none) + none + all.last());
            if b.len() == 1 {
                assert(b.drop_last() =~= Seq::empty());
                assert(a + b.drop_last() =~= a);
                assert(joined(a, none) + none + b.last() =~= joined(a, none) + joined(b, none));
            } else {
                assert(joined(a, none) + joined(b.drop_last(), none) + none + b.last() =~= joined(
                    a,
                    none,
                ) + (joined(b.drop_last(), none) + none + b.last()));
            }
        }
    }
}

/// Windows that share nothing are, one after the other, what they were cut from.
pub proof fn windows_without_overlap(g: Seq<Seq<char>>, start: int, size: nat)
    requires
        0 <= start <= g.len(),
        size > 0,
    ensures
        joined(window_texts(g, window_bounds(g.len(), start, size, 0)), Seq::empty()) == joined(
            g.subrange(start, g.len() as int),
            Seq::empty(),
        ),
    decreases g.len() - start,
{
    let none = Seq::<char>::empty();
    let n = g.len();
    let bounds = window_bounds(n, start, size, 0);
    if start < n {
        let end = window_end(n, start, size);
        let rest = window_bounds(n, end, size, 0);
        windows_without_overlap(g, end, size);
        let head = joined(g.subrange(start, end), none);
        assert(window_texts(g, bounds) =~= seq![head] + window_texts(g, rest));
        joined_without_separator(seq![head], window_texts(g, rest));
        joined_without_separator(g.subrange(start, end), g.subrange(end, n as int));
        assert(g.subrange(start, end) + g.subrange(end, n as int) =~= g.subrange(start, n as int));
    } else {
        assert(window_texts(g, bounds) =~= Seq::empty());
        assert(g.subrange(start, n as int) =~= Seq::empty());
    }
}

/// Cuts graphemes into windows.
pub fn window_graphemes(graphemes: &Vec<String>, size: usize, overlap: usize) -> (r: Vec<String>)
    requires
        size > 0 || graphemes@.len() == 0,
    ensures
        texts(r@) == windows(texts(graphemes@), size as nat, overlap as nat),
{
    let ghost g = texts(graphemes@);
    let ghost all = windows(g, size as nat, overlap as nat);
    let n: usize = graphemes.len();
    let mut out: Vec<String> = Vec::new();
    let mut start: usize = 0;
    assert(texts(out@) + all =~= all);
    while start < n
        invariant
            start <= n,
            n == graphemes@.len(),
            size > 0 || n == 0,
            g == texts(graphemes@),
            all == windows(g, size as nat, overlap as nat),
            texts(out@) + window_texts(
                g,
                window_bounds(n as nat, start as int, size as nat, overlap as nat),
            ) == all,
        decreases n - start,
    {
        let end: usize = if n - start <= size {
            n
        } else {
            start + size
        };
        let chunk = join_range(graphemes, start, end);
        let next: usize = if end - start > overlap {
            end - overlap
        } else {
            end
        };
        let ghost before = texts(out@);
        let ghost rest = window_texts(
            g,
            window_bounds(n as nat, next as int, size as nat, overlap as nat),
        );
        out.push(chunk);
        proof {
            assert(texts(out@) =~= before.push(chunk@));
            assert(window_texts(
                g,
                window_bounds(n as nat, start as int, size as nat, overlap as nat),
            ) =~= seq![chunk@] + rest);
            assert(before.push(chunk@) + rest =~= before + (seq![chunk@] + rest));
        }
        start = next;
    }
    proof {
        assert(window_texts(
            g,
            window_bounds(n as nat, start as int, size as nat, overlap as nat),
        ) =~= Seq::empty());
        assert(texts(out@) + Seq::<Seq<char>>::empty() =~= texts(out@));
    }
    out
}

fn join_range(parts: &Vec<String>, from: usize, to: usize) -> (r: String)
    requires
        from <= to <= parts@.len(),
    ensures
        r@ == joined(texts(parts@).subrange(from as int, to as int), Seq::empty()),
{
    let mut picked: Vec<String> = Vec::new();
    let ghost wanted = texts(parts@).subrange(from as int, to as int);
    let mut i: usize = from;
    while i < to
        invariant
            from <= i <= to <= parts@.len(),
            picked@.len() == i - from,
            forall|j: int| 0 <= j < i - from ==> (#[trigger] picked@[j])@ == parts@[from + j]@,
        decreases to - i,
    {
        picked.push(parts[i].clone());
        i = i + 1;
    }
    assert(texts(picked@) =~= wanted);
    let none = String::new();
    assert(none@ =~= Seq::empty());
    join(&picked, none.as_str())
}

/// The characters of a text as texts.
pub open spec fn single_chars(s: Seq<char>) -> Seq<Seq<char>> {
    Seq::new(s.len(), |i: int| seq![s[i]])
}

/// The pieces of a text between the occurrences of a separator. An empty one stands
/// before and after each character.
pub open spec fn pieces(s: Seq<char>, sep: Seq<char>) -> Seq<Seq<char>> {
    if sep.len() == 0 {
        seq![Seq::<char>::empty()] + single_chars(s) + seq![Seq::<char>::empty()]
    } else {
        split_text(s, sep)
    }
}

fn split_at_all(s: &str, sep: &str) -> (r: Vec<String>)
    ensures
        texts(r@) == pieces(s@, sep@),
{
    if !sep.is_empty() {
        return split(s, sep);
    }
    let cs = chars_of(s);
    let mut out: Vec<String> = Vec::new();
    let none = String::new();
    assert(none@ =~= Seq::empty());
    out.push(none);
    let ghost wanted = seq![Seq::<char>::empty()] + single_chars(s@);
    assert(texts(out@) =~= wanted.subrange(0, 1));
    let n: usize = cs.len();
    let mut i: usize = 0;
    while i < n
        invariant
            i <= n,
            n == cs@.len(),
            cs@ == s@,
            wanted == seq![Seq::<char>::empty()] + single_chars(s@),
            texts(out@) == wanted.subrange(0, i + 1),
        decreases n - i,
    {
        let piece = text_of(&cs, i, i + 1);
        let ghost before = texts(out@);
        out.push(piece);
        proof {
            assert(texts(out@) =~= before.push(piece@));
            assert(piece@ =~= seq![s@[i as int]]);
            prefix_next(wanted, i + 1);
        }
        i = i + 1;
    }
    let last = String::new();
    assert(last@ =~= Seq::empty());
    out.push(last);
    proof {
        whole_prefix(wanted);
        assert(texts(out@) =~= pieces(s@, sep@));
    }
    out
}

/// Chunks that are done and the one that is being filled.
#[verifier::ext_equal]
pub struct PackedView {
    pub chunks: Seq<Seq<char>>,
    pub current: Seq<char>,
}

/// The chunk that a part would make with the one that is being filled.
pub open spec fn candidate(current: Seq<char>, part: Seq<char>, sep: Seq<char>) -> Seq<char> {
    if current.len() == 0 {
        part
    } else {
        current + sep + part
    }
}

/// The chunks with the one that is being filled, unless it is empty.
pub open spec fn with_current(p: PackedView) -> Seq<Seq<char>> {
    if p.current.len() == 0 {
        p.chunks
    } else {
        p.chunks.push(p.current)
    }
}

/// The chunks after one more part. If it fits into the chunk that is being filled, it
/// goes there. Otherwise that chunk is done, and the part begins the next one or, if
/// it is too large by itself, is cut between characters.
pub open spec fn packed_with(
    p: PackedView,
    part: Seq<char>,
    sep: Seq<char>,
    size: nat,
    overlap: nat,
) -> PackedView {
    let next = candidate(p.current, part, sep);
    if bytes_len(next) <= size {
        PackedView { chunks: p.chunks, current: next }
    } else if bytes_len(part) > size {
        PackedView {
            chunks: with_current(p) + windows(graphemes(part), size, overlap),
            current: Seq::empty(),
        }
    } else {
        PackedView { chunks: with_current(p), current: part }
    }
}

/// Parts packed into chunks.
pub open spec fn packed(parts: Seq<Seq<char>>, sep: Seq<char>, size: nat, overlap: nat) -> PackedView
    decreases parts.len(),
{
    if parts.len() == 0 {
        PackedView { chunks: Seq::empty(), current: Seq::empty() }
    } else {
        packed_with(packed(parts.drop_last(), sep, size, overlap), parts.last(), sep, size, overlap)
    }
}

/// Whether there is always something in the chunk that is being filled, once the
/// first part is there.
pub open spec fn never_empty(parts: Seq<Seq<char>>, sep: Seq<char>, size: nat, overlap: nat) -> bool {
    forall|k: int|
        0 < k <= parts.len() ==> (#[trigger] packed(
            parts.subrange(0, k),
            sep,
            size,
            overlap,
        )).current.len() > 0
}

/// Packing loses nothing: the chunks joined are the parts joined, as long as there
/// is something in the chunk that is being filled.
pub proof fn packing_loses_nothing(
    parts: Seq<Seq<char>>,
    sep: Seq<char>,
    size: nat,
    overlap: nat,
)
    requires
        parts.len() > 0,
        never_empty(parts, sep, size, overlap),
    ensures
        joined(with_current(packed(parts, sep, size, overlap)), sep) == joined(parts, sep),
    decreases parts.len(),
{
    let all = packed(parts, sep, size, overlap);
    assert(parts.subrange(0, parts.len() as int) =~= parts);
    assert(all.current.len() > 0);
    let before = parts.drop_last();
    let p = packed(before, sep, size, overlap);
    if before.len() == 0 {
        assert(with_current(all) =~= seq![parts[0]]);
    } else {
        assert forall|k: int| 0 < k <= before.len() implies (#[trigger] packed(
            before.subrange(0, k),
            sep,
            size,
            overlap,
        )).current.len() > 0 by {
            assert(before.subrange(0, k) =~= parts.subrange(0, k));
        }
        packing_loses_nothing(before, sep, size, overlap);
        assert(before.subrange(0, before.len() as int) =~= before);
        let part = parts.last();
        assert(joined(parts, sep) == joined(before, sep) + sep + part);
        assert(with_current(p) == p.chunks.push(p.current));
        if bytes_len(candidate(p.current, part, sep)) <= size {
            let joint = p.current + sep + part;
            assert(with_current(all) =~= p.chunks.push(joint));
            assert(p.chunks.push(joint).drop_last() =~= p.chunks);
            assert(p.chunks.push(p.current).drop_last() =~= p.chunks);
            if p.chunks.len() > 0 {
                assert(joined(p.chunks, sep) + sep + (p.current + sep + part) =~= joined(
                    p.chunks,
                    sep,
                ) + sep + p.current + sep + part);
            }
        } else {
            assert(with_current(all) =~= with_current(p).push(part));
            assert(with_current(p).push(part).drop_last() =~= with_current(p));
        }
    }
}

/// Whether a chunk is small enough, or was cut between characters.
pub open spec fn fits(
    chunk: Seq<char>,
    parts: Seq<Seq<char>>,
    size: nat,
    overlap: nat,
) -> bool {
    bytes_len(chunk) <= size || exists|k: int|
        0 <= k < parts.len() && windows(
            graphemes(#[trigger] parts[k]),
            size,
            overlap,
        ).contains(chunk)
}

/// Every chunk is small enough, or was cut between characters.
pub proof fn chunks_fit(parts: Seq<Seq<char>>, sep: Seq<char>, size: nat, overlap: nat)
    ensures
        forall|i: int|
            0 <= i < with_current(packed(parts, sep, size, overlap)).len() ==> fits(
                #[trigger] with_current(packed(parts, sep, size, overlap))[i],
                parts,
                size,
                overlap,
            ),
        bytes_len(packed(parts, sep, size, overlap).current) <= size,
    decreases parts.len(),
{
    let all = packed(parts, sep, size, overlap);
    if parts.len() == 0 {
        encode_utf8_of_nothing();
    } else {
        let before = parts.drop_last();
        let p = packed(before, sep, size, overlap);
        let part = parts.last();
        chunks_fit(before, sep, size, overlap);
        encode_utf8_of_nothing();
        assert forall|c: Seq<char>| fits(c, before, size, overlap) implies #[trigger] fits(
            c,
            parts,
            size,
            overlap,
        ) by {
            if bytes_len(c) > size {
                let k = choose|k: int|
                    0 <= k < before.len() && windows(
                        graphemes(#[trigger] before[k]),
                        size,
                        overlap,
                    ).contains(c);
                assert(parts[k] == before[k]);
            }
        }
        let cut = windows(graphemes(part), size, overlap);
        assert forall|i: int| 0 <= i < with_current(all).len() implies fits(
            #[trigger] with_current(all)[i],
            parts,
            size,
            overlap,
        ) by {
            let chunk = with_current(all)[i];
            if i < with_current(p).len() && chunk == with_current(p)[i] {
                assert(fits(with_current(p)[i], before, size, overlap));
            } else if bytes_len(chunk) > size {
                assert(chunk == cut[i - with_current(p).len()]);
                assert(cut.contains(chunk));
                assert(parts[parts.len() - 1] == part);
            }
        }
    }
}

proof fn encode_utf8_of_nothing()
    ensures
        bytes_len(Seq::empty()) == 0,
{
    assert(encode_utf8(Seq::<char>::empty()).len() == 0);
}

/// Packs parts into chunks.
#[derive(Debug)]
pub struct ChunkPacker {
    pub chunks: Vec<String>,
    pub current: String,
}

impl View for ChunkPacker {
    type V = PackedView;

    open spec fn view(&self) -> PackedView {
        PackedView { chunks: texts(self.chunks@), current: self.current@ }
    }
}

fn push_text(list: &mut Vec<String>, s: String)
    ensures
        texts(final(list)@) == texts(old(list)@).push(s@),
{
    let ghost before = texts(list@);
    list.push(s);
    assert(texts(list@) =~= before.push(s@));
}

impl ChunkPacker {
    pub fn new() -> (r: Self)
        ensures
            r@ == (PackedView { chunks: Seq::empty(), current: Seq::empty() }),
    {
        let r = ChunkPacker { chunks: Vec::new(), current: String::new() };
        assert(r@ =~= PackedView { chunks: Seq::empty(), current: Seq::empty() });
        r
    }

    fn finish_current(&mut self)
        ensures
            final(self)@ == (PackedView { chunks: with_current(old(self)@), current: Seq::empty() }),
    {
        let done = self.current.clone();
        self.current = String::new();
        if !done.as_str().is_empty() {
            push_text(&mut self.chunks, done);
        }
        assert(self@ =~= PackedView { chunks: with_current(old(self)@), current: Seq::empty() });
    }

    /// Adds a part, unless it is too large by itself: then the chunk that was being
    /// filled is done, and the part is left to be cut. Returns whether it was added.
    pub fn add_part(&mut self, part: &str, sep: &str, size: usize) -> (r: bool)
        ensures
            r == (bytes_len(candidate(old(self)@.current, part@, sep@)) <= size || bytes_len(part@)
                <= size),
            forall|overlap: nat|
                r ==> final(self)@ == #[trigger] packed_with(
                    old(self)@,
                    part@,
                    sep@,
                    size as nat,
                    overlap,
                ),
            !r ==> final(self)@ == (PackedView {
                chunks: with_current(old(self)@),
                current: Seq::empty(),
            }),
    {
        let next = if self.current.as_str().is_empty() {
            part.to_owned()
        } else {
            concat3(self.current.as_str(), sep, part)
        };
        if byte_count(next.as_str()) <= size {
            self.current = next;
            return true;
        }
        self.finish_current();
        if byte_count(part) > size {
            return false;
        }
        self.current = part.to_owned();
        true
    }

    /// Adds chunks that are done.
    pub fn add_chunks(&mut self, chunks: Vec<String>)
        ensures
            final(self)@ == (PackedView {
                chunks: old(self)@.chunks + texts(chunks@),
                current: old(self)@.current,
            }),
    {
        let mut more = chunks;
        let ghost before = self.chunks@;
        self.chunks.append(&mut more);
        assert(texts(self.chunks@) =~= texts(before) + texts(chunks@));
    }

    /// All chunks.
    pub fn finish(self) -> (r: Vec<String>)
        ensures
            texts(r@) == with_current(self@),
    {
        let mut packer = self;
        packer.finish_current();
        packer.chunks
    }
}

/// A text cut at a separator, if it stands in the text.
pub open spec fn cut_at(s: Seq<char>, sep: Seq<char>, size: nat, overlap: nat) -> Option<
    Seq<Seq<char>>,
> {
    if pieces(s, sep).len() <= 1 {
        None
    } else {
        Some(with_current(packed(pieces(s, sep), sep, size, overlap)))
    }
}

/// A text cut at the first of the separators that stands in it.
pub open spec fn cut_at_first(
    s: Seq<char>,
    separators: Seq<Seq<char>>,
    size: nat,
    overlap: nat,
) -> Option<Seq<Seq<char>>>
    decreases separators.len(),
{
    if separators.len() == 0 {
        None
    } else {
        match cut_at(s, separators[0], size, overlap) {
            Some(chunks) => Some(chunks),
            None => cut_at_first(s, separators.drop_first(), size, overlap),
        }
    }
}

/// A text cut into chunks: one that is small enough stays whole; another is cut at a
/// separator, or between characters if that gives nothing.
pub open spec fn chunked(
    s: Seq<char>,
    separators: Seq<Seq<char>>,
    size: nat,
    overlap: nat,
) -> Seq<Seq<char>> {
    if bytes_len(s) <= size {
        seq![s]
    } else {
        match cut_at_first(s, separators, size, overlap) {
            Some(chunks) => if chunks.len() == 0 {
                windows(graphemes(s), size, overlap)
            } else {
                chunks
            },
            None => windows(graphemes(s), size, overlap),
        }
    }
}

/// A text that is small enough stays whole.
pub proof fn small_texts_stay_whole(
    s: Seq<char>,
    separators: Seq<Seq<char>>,
    size: nat,
    overlap: nat,
)
    requires
        bytes_len(s) <= size,
    ensures
        chunked(s, separators, size, overlap) == seq![s],
{
}

/// A text that is cut at a separator is whole again when its chunks are joined by it,
/// as long as there is something in the chunk that is being filled.
pub proof fn cutting_loses_nothing(s: Seq<char>, sep: Seq<char>, size: nat, overlap: nat)
    requires
        sep.len() > 0,
        cut_at(s, sep, size, overlap) is Some,
        never_empty(pieces(s, sep), sep, size, overlap),
    ensures
        joined(cut_at(s, sep, size, overlap)->0, sep) == s,
{
    crate::text::split_and_joined(s, sep);
    packing_loses_nothing(pieces(s, sep), sep, size, overlap);
}

/// Whether a chunk is a row of graphemes of a text, at least one and at most `size`.
pub open spec fn is_row_of(chunk: Seq<char>, part: Seq<char>, size: nat) -> bool {
    exists|a: int, b: int|
        0 <= a < b <= graphemes(part).len() && b - a <= size && chunk == #[trigger] joined(
            graphemes(part).subrange(a, b),
            Seq::empty(),
        )
}

proof fn windows_are_rows(part: Seq<char>, size: nat, overlap: nat)
    requires
        size > 0,
    ensures
        forall|i: int|
            0 <= i < windows(graphemes(part), size, overlap).len() ==> is_row_of(
                #[trigger] windows(graphemes(part), size, overlap)[i],
                part,
                size,
            ),
{
    let g = graphemes(part);
    let b = window_bounds(g.len(), 0, size, overlap);
    if g.len() > 0 {
        windows_leave_no_gap(g.len(), 0, size, overlap);
        assert forall|i: int| 0 <= i < windows(g, size, overlap).len() implies is_row_of(
            #[trigger] windows(g, size, overlap)[i],
            part,
            size,
        ) by {
            assert(0 <= b[i].0 < b[i].1 <= g.len() && b[i].1 - b[i].0 <= size);
            assert(windows(g, size, overlap)[i] == joined(
                g.subrange(b[i].0, b[i].1),
                Seq::empty(),
            ));
        }
    }
}

proof fn cut_at_one_of(s: Seq<char>, separators: Seq<Seq<char>>, size: nat, overlap: nat) -> (at: int)
    requires
        cut_at_first(s, separators, size, overlap) is Some,
    ensures
        0 <= at < separators.len(),
        cut_at(s, separators[at], size, overlap) == cut_at_first(s, separators, size, overlap),
    decreases separators.len(),
{
    if cut_at(s, separators[0], size, overlap) is Some {
        0
    } else {
        let at = cut_at_one_of(s, separators.drop_first(), size, overlap);
        assert(separators.drop_first()[at] == separators[at + 1]);
        at + 1
    }
}

/// What texts are cut at unless something else is said: paragraphs, lines,
/// sentences, words.
pub open spec fn usual_separators() -> Seq<Seq<char>> {
    seq!["\n\n"@, "\n"@, ". "@, " "@]
}

/// What is known of the chunk at a place of a document.
pub open spec fn chunk_metadata(index: int, source: Option<Seq<char>>) -> MetadataView {
    MetadataView {
        text: None,
        source: Some(
            match source {
                Some(source) => source,
                None => "unknown"@,
            },
        ),
        chunk_index: Some(index as u32),
        extra: Seq::empty(),
    }
}

impl Default for DocumentProcessor {
    fn default() -> (r: Self)
        ensures
            r.max_chunk_size == 1000,
            r.chunk_overlap == 200,
            texts(r.separators@) == usual_separators(),
    {
        DocumentProcessor::new()
    }
}

impl DocumentProcessor {
    pub fn new() -> (r: Self)
        ensures
            r.max_chunk_size == 1000,
            r.chunk_overlap == 200,
            texts(r.separators@) == usual_separators(),
    {
        let mut separators: Vec<String> = Vec::new();
        separators.push("\n\n".to_owned());
        separators.push("\n".to_owned());
        separators.push(". ".to_owned());
        separators.push(" ".to_owned());
        assert(texts(separators@) =~= usual_separators());
        DocumentProcessor { max_chunk_size: 1000, chunk_overlap: 200, separators }
    }

    pub fn with_chunk_size(self, size: usize) -> (r: Self)
        ensures
            r == (DocumentProcessor { max_chunk_size: size, ..self }),
    {
        DocumentProcessor { max_chunk_size: size, ..self }
    }

    pub fn with_overlap(self, overlap: usize) -> (r: Self)
        ensures
            r == (DocumentProcessor { chunk_overlap: overlap, ..self }),
    {
        DocumentProcessor { chunk_overlap: overlap, ..self }
    }

    /// The chunks of a text.
    pub open spec fn chunks_of(self, text: Seq<char>) -> Seq<Seq<char>> {
        chunked(
            text,
            texts(self.separators@),
            self.max_chunk_size as nat,
            self.chunk_overlap as nat,
        )
    }

    /// Whether a text is a document or what stands between the separators in it.
    pub open spec fn is_part(self, text: Seq<char>, part: Seq<char>) -> bool {
        part == text || exists|i: int, k: int|
            0 <= i < self.separators@.len() && 0 <= k < pieces(text, self.separators@[i]@).len()
                && part == #[trigger] pieces(text, self.separators@[i]@)[k]
    }

    /// Whether a chunk of a document holds no more than it may: so many bytes, or so
    /// many graphemes of a part of the document.
    pub open spec fn is_small_enough(self, text: Seq<char>, chunk: Seq<char>) -> bool {
        bytes_len(chunk) <= self.max_chunk_size || exists|part: Seq<char>|
            self.is_part(text, part) && #[trigger] is_row_of(
                chunk,
                part,
                self.max_chunk_size as nat,
            )
    }

    /// No chunk holds more than it may.
    pub proof fn chunks_are_small_enough(self, text: Seq<char>)
        requires
            self.max_chunk_size > 0 || text.len() == 0,
        ensures
            forall|i: int|
                0 <= i < self.chunks_of(text).len() ==> self.is_small_enough(
                    text,
                    #[trigger] self.chunks_of(text)[i],
                ),
    {
        let size = self.max_chunk_size as nat;
        let overlap = self.chunk_overlap as nat;
        let separators = texts(self.separators@);
        let all = self.chunks_of(text);
        encode_utf8_of_nothing();
        if text.len() == 0 {
            assert(text =~= Seq::empty());
        }
        if bytes_len(text) > size {
            let cut = cut_at_first(text, separators, size, overlap);
            if cut is Some && cut->0.len() > 0 {
                let at = cut_at_one_of(text, separators, size, overlap);
                let sep = separators[at];
                let parts = pieces(text, sep);
                chunks_fit(parts, sep, size, overlap);
                assert forall|i: int| 0 <= i < all.len() implies self.is_small_enough(
                    text,
                    #[trigger] all[i],
                ) by {
                    let chunk = all[i];
                    assert(chunk == with_current(packed(parts, sep, size, overlap))[i]);
                    assert(fits(chunk, parts, size, overlap));
                    if bytes_len(chunk) > size {
                        let k = choose|k: int|
                            0 <= k < parts.len() && windows(
                                graphemes(#[trigger] parts[k]),
                                size,
                                overlap,
                            ).contains(chunk);
                        windows_are_rows(parts[k], size, overlap);
                        assert(parts[k] == pieces(text, self.separators@[at]@)[k]);
                        assert(self.is_part(text, parts[k]));
                        assert(is_row_of(chunk, parts[k], size));
                    }
                }
            } else {
                windows_are_rows(text, size, overlap);
                assert(self.is_part(text, text));
            }
        }
    }

    /// Cuts a document into chunks, each with its place and its source. There is at
    /// least one, and none holds more than it may. A processor whose chunks hold
    /// nothing can only cut the empty document.
    pub fn chunk_text(&self, text: &str, source: Option<String>) -> (r: Vec<DocumentChunk>)
        requires
            self.max_chunk_size > 0 || text@.len() == 0,
        ensures
            r@.len() == self.chunks_of(text@).len(),
            forall|i: int|
                0 <= i < r@.len() ==> (#[trigger] r@[i]).text@ == self.chunks_of(text@)[i]
                    && r@[i].metadata@ == chunk_metadata(i, opt_text(source)),
            r@.len() > 0,
            forall|i: int|
                0 <= i < r@.len() ==> self.is_small_enough(text@, (#[trigger] r@[i]).text@),
    {
        let chunks = self.split_text(text);
        proof {
            self.chunks_are_small_enough(text@);
            assert(texts(chunks@).len() == chunks@.len());
        }
        let own_source = match source {
            Some(source) => source,
            None => "unknown".to_owned(),
        };
        let mut out: Vec<DocumentChunk> = Vec::new();
        let mut i: usize = 0;
        while i < chunks.len()
            invariant
                i <= chunks@.len(),
                texts(chunks@) == self.chunks_of(text@),
                own_source@ == (match opt_text(source) {
                    Some(source) => source,
                    None => "unknown"@,
                }),
                out@.len() == i,
                forall|j: int|
                    0 <= j < i ==> (#[trigger] out@[j]).text@ == self.chunks_of(text@)[j]
                        && out@[j].metadata@ == chunk_metadata(j, opt_text(source)),
            decreases chunks@.len() - i,
        {
            assert(texts(chunks@)[i as int] == chunks@[i as int]@);
            let metadata = VectorMetadata::new().with_chunk_index(
                #[verifier::truncate]
                (i as u32),
            ).with_source(own_source.as_str());
            out.push(DocumentChunk { text: chunks[i].clone(), metadata });
            i = i + 1;
        }
        assert(texts(chunks@).len() == chunks@.len());
        out
    }

    fn split_text(&self, text: &str) -> (r: Vec<String>)
        requires
            self.max_chunk_size > 0 || text@.len() == 0,
        ensures
            texts(r@) == self.chunks_of(text@),
            r@.len() > 0,
    {
        let ghost size = self.max_chunk_size as nat;
        let ghost overlap = self.chunk_overlap as nat;
        let ghost separators = texts(self.separators@);
        if byte_count(text) <= self.max_chunk_size {
            let mut whole: Vec<String> = Vec::new();
            whole.push(text.to_owned());
            assert(texts(whole@) =~= seq![text@]);
            return whole;
        }
        proof {
            encode_utf8_of_nothing();
            if text@.len() == 0 {
                assert(text@ =~= Seq::empty());
            }
            assert(separators.subrange(0, separators.len() as int) =~= separators);
        }
        let mut i: usize = 0;
        while i < self.separators.len()
            invariant
                i <= self.separators@.len(),
                self.max_chunk_size > 0,
                bytes_len(text@) > size,
                size == self.max_chunk_size,
                overlap == self.chunk_overlap,
                separators == texts(self.separators@),
                cut_at_first(text@, separators, size, overlap) == cut_at_first(
                    text@,
                    separators.subrange(i as int, separators.len() as int),
                    size,
                    overlap,
                ),
            decreases self.separators@.len() - i,
        {
            let ghost rest = separators.subrange(i as int, separators.len() as int);
            proof {
                assert(rest[0] == self.separators@[i as int]@);
                assert(rest.drop_first() =~= separators.subrange(i + 1, separators.len() as int));
            }
            if let Some(chunks) = self.try_split_by_separator(text, self.separators[i].as_str()) {
                assert(texts(chunks@).len() == chunks@.len());
                if chunks.len() == 0 {
                    return self.split_by_characters(text);
                }
                return chunks;
            }
            i = i + 1;
        }
        self.split_by_characters(text)
    }

    /// Cuts a text at a separator, if it stands in the text.
    pub fn try_split_by_separator(&self, text: &str, separator: &str) -> (r: Option<Vec<String>>)
        requires
            self.max_chunk_size > 0,
        ensures
            match r {
                Some(chunks) => cut_at(
                    text@,
                    separator@,
                    self.max_chunk_size as nat,
                    self.chunk_overlap as nat,
                ) == Some(texts(chunks@)),
                None => cut_at(
                    text@,
                    separator@,
                    self.max_chunk_size as nat,
                    self.chunk_overlap as nat,
                ) is None,
            },
    {
        let parts = split_at_all(text, separator);
        assert(texts(parts@).len() == parts@.len());
        if parts.len() <= 1 {
            return None;
        }
        let ghost all = texts(parts@);
        let ghost size = self.max_chunk_size as nat;
        let ghost overlap = self.chunk_overlap as nat;
        let mut packer = ChunkPacker::new();
        let mut i: usize = 0;
        proof {
            whole_prefix(all);
        }
        while i < parts.len()
            invariant
                i <= parts@.len(),
                self.max_chunk_size > 0,
                all == texts(parts@),
                size == self.max_chunk_size,
                overlap == self.chunk_overlap,
                packer@ == packed(all.subrange(0, i as int), separator@, size, overlap),
            decreases parts@.len() - i,
        {
            let ghost before = packer@;
            proof {
                prefix_next(all, i as int);
            }
            let added = packer.add_part(parts[i].as_str(), separator, self.max_chunk_size);
            assert(added ==> packer@ == packed_with(
                before,
                parts@[i as int]@,
                separator@,
                size,
                overlap,
            ));
            if !added {
                packer.add_chunks(self.split_by_characters(parts[i].as_str()));
            }
            i = i + 1;
        }
        proof {
            whole_prefix(all);
        }
        Some(packer.finish())
    }

    /// Cuts a text between characters. What is cut without overlap is, chunk after
    /// chunk, the text.
    pub fn split_by_characters(&self, text: &str) -> (r: Vec<String>)
        requires
            self.max_chunk_size > 0,
        ensures
            texts(r@) == windows(
                graphemes(text@),
                self.max_chunk_size as nat,
                self.chunk_overlap as nat,
            ),
            self.chunk_overlap == 0 ==> joined(texts(r@), Seq::empty()) == text@,
            text@.len() > 0 ==> r@.len() > 0,
    {
        let list = graphemes_of(text);
        proof {
            let g = texts(list@);
            if text@.len() > 0 {
                assert(g.len() > 0);
                windows_leave_no_gap(
                    g.len(),
                    0,
                    self.max_chunk_size as nat,
                    self.chunk_overlap as nat,
                );
            }
            if self.chunk_overlap == 0 {
                windows_without_overlap(g, 0, self.max_chunk_size as nat);
                assert(g.subrange(0, g.len() as int) =~= g);
            }
        }
        let out = window_graphemes(&list, self.max_chunk_size, self.chunk_overlap);
        assert(texts(out@).len() == out@.len());
        out
    }
}

proof fn standing_is_being_cut(s: Seq<char>, sep: Seq<char>, size: nat, overlap: nat)
    ensures
        cut_at(s, sep, size, overlap) is Some <==> contains_text(s, sep),
{
    if sep.len() == 0 {
        assert(s.subrange(0, 0) =~= sep);
        assert(crate::text::occurs_at(s, sep, 0));
    } else {
        pieces_hold_no_separator(s, sep);
    }
}

proof fn first_cut_is_at(
    s: Seq<char>,
    separators: Seq<Seq<char>>,
    size: nat,
    overlap: nat,
    at: int,
)
    requires
        0 <= at < separators.len(),
        contains_text(s, separators[at]),
        forall|j: int| 0 <= j < at ==> !contains_text(s, #[trigger] separators[j]),
    ensures
        cut_at_first(s, separators, size, overlap) == cut_at(s, separators[at], size, overlap),
    decreases separators.len(),
{
    standing_is_being_cut(s, separators[0], size, overlap);
    if at > 0 {
        assert(!contains_text(s, separators[0]));
        let rest = separators.drop_first();
        assert forall|j: int| 0 <= j < at - 1 implies !contains_text(s, #[trigger] rest[j]) by {
            assert(rest[j] == separators[j + 1]);
        }
        assert(rest[at - 1] == separators[at]);
        first_cut_is_at(s, rest, size, overlap, at - 1);
    }
}

proof fn no_cut_where_none_stands(
    s: Seq<char>,
    separators: Seq<Seq<char>>,
    size: nat,
    overlap: nat,
)
    requires
        forall|j: int| 0 <= j < separators.len() ==> !contains_text(s, #[trigger] separators[j]),
    ensures
        cut_at_first(s, separators, size, overlap) is None,
    decreases separators.len(),
{
    if separators.len() > 0 {
        standing_is_being_cut(s, separators[0], size, overlap);
        assert(!contains_text(s, separators[0]));
        let rest = separators.drop_first();
        assert forall|j: int| 0 <= j < rest.len() implies !contains_text(s, #[trigger] rest[j]) by {
            assert(rest[j] == separators[j + 1]);
        }
        no_cut_where_none_stands(s, rest, size, overlap);
    }
}

/// Separators are tried in their order: a text is cut as if the first of them that stands
/// in it were the only one, and where none stands in it as if there were none.
pub proof fn separators_are_tried_in_their_order(
    s: Seq<char>,
    separators: Seq<Seq<char>>,
    size: nat,
    overlap: nat,
    at: int,
)
    ensures
        0 <= at < separators.len() && contains_text(s, separators[at]) && (forall|j: int|
            0 <= j < at ==> !contains_text(s, #[trigger] separators[j])) ==> chunked(
            s,
            separators,
            size,
            overlap,
        ) == chunked(s, seq![separators[at]], size, overlap),
        (forall|j: int| 0 <= j < separators.len() ==> !contains_text(s, #[trigger] separators[j]))
            ==> chunked(s, separators, size, overlap) == chunked(s, Seq::empty(), size, overlap),
{
    if 0 <= at < separators.len() && contains_text(s, separators[at]) && (forall|j: int|
        0 <= j < at ==> !contains_text(s, #[trigger] separators[j])) {
        first_cut_is_at(s, separators, size, overlap, at);
        first_cut_is_at(s, seq![separators[at]], size, overlap, 0);
    }
    if forall|j: int| 0 <= j < separators.len() ==> !contains_text(s, #[trigger] separators[j]) {
        no_cut_where_none_stands(s, separators, size, overlap);
        no_cut_where_none_stands(s, Seq::empty(), size, overlap);
    }
}

/// A paragraph counts before a line, a line before a sentence, a sentence before a word.
pub proof fn paragraphs_come_first(s: Seq<char>, size: nat, overlap: nat)
    ensures
        contains_text(s, "\n\n"@) ==> chunked(s, usual_separators(), size, overlap) == chunked(
            s,
            seq!["\n\n"@],
            size,
            overlap,
        ),
        !contains_text(s, "\n\n"@) && contains_text(s, "\n"@) ==> chunked(
            s,
            usual_separators(),
            size,
            overlap,
        ) == chunked(s, seq!["\n"@], size, overlap),
        !contains_text(s, "\n\n"@) && !contains_text(s, "\n"@) && contains_text(s, ". "@)
            ==> chunked(s, usual_separators(), size, overlap) == chunked(
            s,
            seq![". "@],
            size,
            overlap,
        ),
        !contains_text(s, "\n\n"@) && !contains_text(s, "\n"@) && !contains_text(s, ". "@)
            && contains_text(s, " "@) ==> chunked(s, usual_separators(), size, overlap) == chunked(
            s,
            seq![" "@],
            size,
            overlap,
        ),
{
    let all = usual_separators();
    assert(all[0] == "\n\n"@ && all[1] == "\n"@ && all[2] == ". "@ && all[3] == " "@);
    separators_are_tried_in_their_order(s, all, size, overlap, 0);
    separators_are_tried_in_their_order(s, all, size, overlap, 1);
    separators_are_tried_in_their_order(s, all, size, overlap, 2);
    separators_are_tried_in_their_order(s, all, size, overlap, 3);
}

/// Whether a chunk is the parts from one place to another, with the separator between
/// them.
pub open spec fn is_run(
    chunk: Seq<char>,
    parts: Seq<Seq<char>>,
    sep: Seq<char>,
    from: int,
    to: int,
) -> bool {
    0 <= from < to <= parts.len() && chunk == joined(parts.subrange(from, to), sep)
}

/// Whether a chunk is some parts in a row.
pub open spec fn is_some_run(chunk: Seq<char>, parts: Seq<Seq<char>>, sep: Seq<char>) -> bool {
    exists|from: int, to: int| #[trigger] is_run(chunk, parts, sep, from, to)
}

/// Whether a chunk was cut out of a part that is too large.
pub open spec fn is_torn(
    chunk: Seq<char>,
    parts: Seq<Seq<char>>,
    size: nat,
    overlap: nat,
) -> bool {
    exists|k: int|
        0 <= k < parts.len() && bytes_len(#[trigger] parts[k]) > size && windows(
            graphemes(parts[k]),
            size,
            overlap,
        ).contains(chunk)
}

/// Whether a part stands whole in one of the chunks, between separators.
pub open spec fn stays_whole(
    k: int,
    chunks: Seq<Seq<char>>,
    parts: Seq<Seq<char>>,
    sep: Seq<char>,
) -> bool {
    exists|i: int, from: int, to: int|
        0 <= i < chunks.len() && from <= k < to && #[trigger] is_run(
            chunks[i],
            parts,
            sep,
            from,
            to,
        )
}

proof fn runs_stay(
    chunk: Seq<char>,
    before: Seq<Seq<char>>,
    parts: Seq<Seq<char>>,
    sep: Seq<char>,
    from: int,
    to: int,
)
    requires
        before == parts.drop_last(),
        parts.len() > 0,
        is_run(chunk, before, sep, from, to),
    ensures
        is_run(chunk, parts, sep, from, to),
{
    assert(before.subrange(from, to) =~= parts.subrange(from, to));
}

proof fn packed_in_runs(parts: Seq<Seq<char>>, sep: Seq<char>, size: nat, overlap: nat) -> (from:
    int)
    ensures
        ({
            let p = packed(parts, sep, size, overlap);
            &&& p.current.len() > 0 ==> is_run(p.current, parts, sep, from, parts.len() as int)
            &&& forall|i: int|
                0 <= i < p.chunks.len() ==> is_some_run(#[trigger] p.chunks[i], parts, sep)
                    || is_torn(p.chunks[i], parts, size, overlap)
            &&& forall|k: int|
                0 <= k < parts.len() && bytes_len(#[trigger] parts[k]) <= size && parts[k].len() > 0
                    ==> stays_whole(k, p.chunks, parts, sep) || (p.current.len() > 0 && from <= k)
        }),
    decreases parts.len(),
{
    let p = packed(parts, sep, size, overlap);
    if parts.len() == 0 {
        0
    } else {
        let before = parts.drop_last();
        let n = before.len() as int;
        let part = parts.last();
        let q = packed(before, sep, size, overlap);
        let at = packed_in_runs(before, sep, size, overlap);
        let done = with_current(q);
        assert(parts[n] == part);
        assert(joined(parts.subrange(n, n + 1), sep) == part) by {
            assert(parts.subrange(n, n + 1)[0] == part);
        }
        if q.current.len() > 0 {
            runs_stay(q.current, before, parts, sep, at, n);
        }
        assert forall|i: int| 0 <= i < done.len() implies is_some_run(
            #[trigger] done[i],
            parts,
            sep,
        ) || is_torn(done[i], parts, size, overlap) by {
            if i < q.chunks.len() {
                assert(done[i] == q.chunks[i]);
                if is_some_run(q.chunks[i], before, sep) {
                    let (a, b) = choose|a: int, b: int|
                        #[trigger] is_run(q.chunks[i], before, sep, a, b);
                    runs_stay(q.chunks[i], before, parts, sep, a, b);
                } else {
                    let k = choose|k: int|
                        0 <= k < before.len() && bytes_len(#[trigger] before[k]) > size && windows(
                            graphemes(before[k]),
                            size,
                            overlap,
                        ).contains(q.chunks[i]);
                    assert(parts[k] == before[k]);
                }
            } else {
                assert(is_run(done[i], parts, sep, at, n));
            }
        }
        assert forall|k: int|
            0 <= k < n && bytes_len(#[trigger] parts[k]) <= size && parts[k].len()
                > 0 implies stays_whole(k, done, parts, sep) by {
            assert(parts[k] == before[k]);
            if stays_whole(k, q.chunks, before, sep) {
                let (i, a, b) = choose|i: int, a: int, b: int|
                    0 <= i < q.chunks.len() && a <= k < b && #[trigger] is_run(
                        q.chunks[i],
                        before,
                        sep,
                        a,
                        b,
                    );
                runs_stay(q.chunks[i], before, parts, sep, a, b);
                assert(done[i] == q.chunks[i]);
            } else {
                assert(done[done.len() - 1] == q.current);
                assert(is_run(done[done.len() - 1], parts, sep, at, n));
            }
        }
        let next = candidate(q.current, part, sep);
        if bytes_len(next) <= size {
            let from = if q.current.len() == 0 {
                n
            } else {
                at
            };
            if q.current.len() > 0 {
                assert(parts.subrange(at, n + 1).drop_last() =~= parts.subrange(at, n));
                assert(parts.subrange(at, n + 1).last() == part);
            }
            assert(next.len() > 0 ==> is_run(p.current, parts, sep, from, n + 1));
            assert forall|i: int| 0 <= i < p.chunks.len() implies is_some_run(
                #[trigger] p.chunks[i],
                parts,
                sep,
            ) || is_torn(p.chunks[i], parts, size, overlap) by {
                assert(p.chunks[i] == done[i]);
            }
            assert forall|k: int|
                0 <= k < parts.len() && bytes_len(#[trigger] parts[k]) <= size && parts[k].len()
                    > 0 implies stays_whole(k, p.chunks, parts, sep) || (p.current.len() > 0 && from
                <= k) by {
                if k < n {
                    assert(parts[k] == before[k]);
                    if stays_whole(k, q.chunks, before, sep) {
                        let (i, a, b) = choose|i: int, a: int, b: int|
                            0 <= i < q.chunks.len() && a <= k < b && #[trigger] is_run(
                                q.chunks[i],
                                before,
                                sep,
                                a,
                                b,
                            );
                        runs_stay(q.chunks[i], before, parts, sep, a, b);
                        assert(p.chunks[i] == q.chunks[i]);
                    }
                }
            }
            from
        } else if bytes_len(part) > size {
            let cut = windows(graphemes(part), size, overlap);
            assert forall|i: int| 0 <= i < p.chunks.len() implies is_some_run(
                #[trigger] p.chunks[i],
                parts,
                sep,
            ) || is_torn(p.chunks[i], parts, size, overlap) by {
                if i < done.len() {
                    assert(p.chunks[i] == done[i]);
                } else {
                    assert(p.chunks[i] == cut[i - done.len()]);
                    assert(cut.contains(p.chunks[i]));
                    assert(bytes_len(parts[n]) > size);
                }
            }
            assert forall|k: int|
                0 <= k < parts.len() && bytes_len(#[trigger] parts[k]) <= size && parts[k].len()
                    > 0 implies stays_whole(k, p.chunks, parts, sep) by {
                assert(k < n);
                let (i, a, b) = choose|i: int, a: int, b: int|
                    0 <= i < done.len() && a <= k < b && #[trigger] is_run(
                        done[i],
                        parts,
                        sep,
                        a,
                        b,
                    );
                assert(p.chunks[i] == done[i]);
            }
            n
        } else {
            assert(p.chunks == done);
            assert(is_run(p.current, parts, sep, n, n + 1));
            n
        }
    }
}

/// A text that is cut at a separator is cut there alone: each chunk is some of what stands
/// between the separators, in its order and with the separators between, and what stands
/// between two of them is torn only if it is too large by itself. What is not too large,
/// and not empty, stays whole in one chunk.
pub proof fn what_fits_is_not_torn(s: Seq<char>, sep: Seq<char>, size: nat, overlap: nat)
    requires
        sep.len() > 0,
        bytes_len(s) > size,
        contains_text(s, sep),
    ensures
        chunked(s, seq![sep], size, overlap) == windows(graphemes(s), size, overlap) || forall|
            i: int,
        |
            0 <= i < chunked(s, seq![sep], size, overlap).len() ==> is_some_run(
                #[trigger] chunked(s, seq![sep], size, overlap)[i],
                split_text(s, sep),
                sep,
            ) || is_torn(
                chunked(s, seq![sep], size, overlap)[i],
                split_text(s, sep),
                size,
                overlap,
            ),
        forall|k: int|
            0 <= k < split_text(s, sep).len() && bytes_len(#[trigger] split_text(s, sep)[k])
                <= size && split_text(s, sep)[k].len() > 0 ==> stays_whole(
                k,
                chunked(s, seq![sep], size, overlap),
                split_text(s, sep),
                sep,
            ),
{
    let parts = split_text(s, sep);
    let all = chunked(s, seq![sep], size, overlap);
    let p = packed(parts, sep, size, overlap);
    standing_is_being_cut(s, sep, size, overlap);
    first_cut_is_at(s, seq![sep], size, overlap, 0);
    let from = packed_in_runs(parts, sep, size, overlap);
    let n = parts.len() as int;
    if with_current(p).len() > 0 {
        assert(all == with_current(p));
        assert forall|i: int| 0 <= i < all.len() implies is_some_run(#[trigger] all[i], parts, sep)
            || is_torn(all[i], parts, size, overlap) by {
            if i < p.chunks.len() {
                assert(all[i] == p.chunks[i]);
            } else {
                assert(is_run(all[i], parts, sep, from, n));
            }
        }
    }
    assert forall|k: int|
        0 <= k < parts.len() && bytes_len(#[trigger] parts[k]) <= size && parts[k].len()
            > 0 implies stays_whole(k, all, parts, sep) by {
        if stays_whole(k, p.chunks, parts, sep) {
            let (i, a, b) = choose|i: int, a: int, b: int|
                0 <= i < p.chunks.len() && a <= k < b && #[trigger] is_run(
                    p.chunks[i],
                    parts,
                    sep,
                    a,
                    b,
                );
            assert(with_current(p)[i] == p.chunks[i]);
        } else {
            assert(is_run(all[all.len() - 1], parts, sep, from, n));
        }
    }
}

/// Parts go into the chunk that is being filled as long as they fit, and only then: a
/// part that would make it too large begins the next one, behind those that are done.
pub proof fn chunks_are_filled_before_the_next_begins(
    p: PackedView,
    part: Seq<char>,
    sep: Seq<char>,
    size: nat,
    overlap: nat,
)
    ensures
        ({
            let after = packed_with(p, part, sep, size, overlap);
            let both = p.current + sep + part;
            &&& p.current.len() > 0 && bytes_len(both) <= size ==> after.current == both
                && after.chunks == p.chunks
            &&& p.current.len() == 0 && bytes_len(part) <= size ==> after.current == part
                && after.chunks == p.chunks
            &&& p.current.len() > 0 && bytes_len(both) > size && bytes_len(part) <= size
                ==> after.current == part && after.chunks == p.chunks.push(p.current)
            &&& p.current.len() > 0 && bytes_len(both) > size && bytes_len(part) > size
                ==> after.current.len() == 0 && after.chunks == p.chunks.push(p.current) + windows(
                graphemes(part),
                size,
                overlap,
            )
            &&& p.current.len() == 0 && bytes_len(part) > size ==> after.current.len() == 0
                && after.chunks == p.chunks + windows(graphemes(part), size, overlap)
        }),
{
}

/// Where nothing separates, a text is cut between characters. Each chunk has as many as it
/// may, or all that are left, and begins so many before the end of the one before it as
/// they are to share, unless that one is no longer than this.
pub proof fn windows_share_their_overlap(g: Seq<Seq<char>>, size: nat, overlap: nat)
    requires
        g.len() > 0,
        size > 0,
    ensures
        ({
            let b = window_bounds(g.len(), 0, size, overlap);
            let n = g.len() as int;
            &&& windows(g, size, overlap).len() == b.len() && b.len() > 0
            &&& b[0].0 == 0 && b.last().1 == n
            &&& forall|i: int|
                0 <= i < b.len() ==> #[trigger] windows(g, size, overlap)[i] == joined(
                    g.subrange(b[i].0, b[i].1),
                    Seq::empty(),
                )
            &&& forall|i: int|
                0 <= i < b.len() ==> (#[trigger] b[i]).1 == (if b[i].0 + size <= n {
                    b[i].0 + size
                } else {
                    n
                })
            &&& forall|i: int|
                0 < i < b.len() ==> (#[trigger] b[i]).0 == (if b[i - 1].1 - b[i - 1].0 > overlap {
                    b[i - 1].1 - overlap
                } else {
                    b[i - 1].1
                })
        }),
{
    windows_leave_no_gap(g.len(), 0, size, overlap);
    window_ends(g.len(), 0, size, overlap);
}

proof fn window_ends(n: nat, start: int, size: nat, overlap: nat)
    requires
        0 <= start,
        size > 0,
    ensures
        forall|i: int|
            0 <= i < window_bounds(n, start, size, overlap).len() ==> (#[trigger] window_bounds(
                n,
                start,
                size,
                overlap,
            )[i]).1 == (if window_bounds(n, start, size, overlap)[i].0 + size <= n {
                window_bounds(n, start, size, overlap)[i].0 + size
            } else {
                n as int
            }),
    decreases n - start,
{
    if start < n {
        let end = window_end(n, start, size);
        let next = next_window(start, end, overlap);
        let b = window_bounds(n, start, size, overlap);
        let rest = window_bounds(n, next, size, overlap);
        window_ends(n, next, size, overlap);
        assert(b =~= seq![(start, end)] + rest);
        assert forall|i: int| 0 <= i < b.len() implies (#[trigger] b[i]).1 == (if b[i].0 + size
            <= n {
            b[i].0 + size
        } else {
            n as int
        }) by {
            if i > 0 {
                assert(b[i] == rest[i - 1]);
            }
        }
    }
}

/// A chunk tells its place in the document and where the document is from.
pub proof fn chunks_tell_their_place(index: int, source: Option<Seq<char>>)
    requires
        0 <= index <= u32::MAX,
    ensures
        chunk_metadata(index, source).chunk_index == Some(index as u32),
        source is Some ==> chunk_metadata(index, source).source == source,
        source is None ==> chunk_metadata(index, source).source == Some("unknown"@),
{
}

/// A window is as long as it may be: it ends where its size is reached, or with the text.
pub proof fn windows_are_as_long_as_they_may(n: nat, start: int, size: nat)
    requires
        0 <= start <= n,
    ensures
        window_end(n, start, size) <= n,
        window_end(n, start, size) - start <= size,
        window_end(n, start, size) == n || window_end(n, start, size) - start == size,
{
}

} // verus!
