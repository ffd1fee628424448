//! Server-sent events: blocks of lines that end with a blank line.
use vstd::prelude::*;
use vstd::string::*;
use vstd::utf8::*;

use crate::error::{other_error, ErrorView, SdkError};
use crate::seqs::{flattened, flattened_next, prefix_next, whole_prefix};
use crate::text::{
    absent_from_part, after_prefix, append_bytes, bytes_of, chars_of, completable, concat2,
    contains_text, find_chars, find_extends, find_from_is_first, find_in_tail, find_text, from_utf8,
    lines, lines_of, occurs_at, push_char, str_eq, strip_prefix, text_of, texts, trim, trim_start,
    trimmed, trimmed_start, utf8_fault,
};

verus! {

/// Where the first block ends: before a blank line, which is two line feeds or, where
/// these stand nowhere, two line breaks of two characters.
pub open spec fn block_end(buffer: Seq<char>) -> Option<int> {
    match find_text(buffer, "\n\n"@) {
        Some(at) => Some(at),
        None => find_text(buffer, "\r\n\r\n"@),
    }
}

/// How long the blank line is that stands first in a text.
pub open spec fn blank_line_len(rest: Seq<char>) -> int {
    if occurs_at(rest, "\r\n\r\n"@, 0) {
        4
    } else {
        2
    }
}

/// A text cut into its blocks, and what is left.
pub struct Blocks {
    pub blocks: Seq<Seq<char>>,
    pub rest: Seq<char>,
}

/// What follows the blank line at `at`.
pub open spec fn after_block(buffer: Seq<char>, at: int) -> Seq<char> {
    let tail = buffer.subrange(at, buffer.len() as int);
    tail.subrange(blank_line_len(tail), tail.len() as int)
}

/// Cuts a text into its blocks.
pub open spec fn cut_blocks(buffer: Seq<char>) -> Blocks
    decreases buffer.len(),
    via cut_blocks_decreases
{
    match block_end(buffer) {
        Some(at) => {
            let next = cut_blocks(after_block(buffer, at));
            Blocks { blocks: seq![buffer.subrange(0, at)] + next.blocks, rest: next.rest }
        },
        None => Blocks { blocks: Seq::empty(), rest: buffer },
    }
}

/// Where a block ends a blank line stands.
pub proof fn block_ends_at_blank_line(buffer: Seq<char>)
    ensures
        match block_end(buffer) {
            Some(at) => {
                let tail = buffer.subrange(at, buffer.len() as int);
                &&& 0 <= at
                &&& at + blank_line_len(tail) <= buffer.len()
                &&& 2 <= blank_line_len(tail)
            },
            None => true,
        },
{
    reveal_strlit("\n\n");
    reveal_strlit("\r\n\r\n");
    find_from_is_first(buffer, "\n\n"@, 0);
    find_from_is_first(buffer, "\r\n\r\n"@, 0);
    match block_end(buffer) {
        Some(at) => {
            let tail = buffer.subrange(at, buffer.len() as int);
            if find_text(buffer, "\n\n"@) is Some {
                assert(buffer.subrange(at, at + 2)[0] == "\n\n"@[0]);
                assert(tail[0] == buffer[at]);
                if occurs_at(tail, "\r\n\r\n"@, 0) {
                    assert(tail.subrange(0, 4)[0] == "\r\n\r\n"@[0]);
                }
            } else {
                assert(tail.subrange(0, 4) =~= buffer.subrange(at, at + 4));
            }
        },
        None => {},
    }
}

#[via_fn]
proof fn cut_blocks_decreases(buffer: Seq<char>) {
    block_ends_at_blank_line(buffer);
}

/// What was cut off before, then what else is cut off.
pub open spec fn cut_after(before: Seq<Seq<char>>, next: Blocks) -> Blocks {
    Blocks { blocks: before + next.blocks, rest: next.rest }
}

/// Whether all blank lines of a text are of one kind.
pub open spec fn one_kind_of_blank_line(s: Seq<char>) -> bool {
    !contains_text(s, "\n\n"@) || !contains_text(s, "\r\n\r\n"@)
}

/// Where a stream is cut makes no difference, as long as its blank lines are all of
/// one kind: text that comes in two pieces gives the blocks and the rest that it
/// gives in one.
pub proof fn cuts_do_not_matter(a: Seq<char>, b: Seq<char>)
    requires
        one_kind_of_blank_line(a + b),
    ensures
        cut_blocks(a + b) == cut_after(cut_blocks(a).blocks, cut_blocks(cut_blocks(a).rest + b)),
    decreases a.len(),
{
    let whole = a + b;
    let n = whole.len() as int;
    assert(whole.subrange(0, a.len() as int) =~= a);
    match block_end(a) {
        None => {
            let all = cut_blocks(whole);
            assert(Seq::<Seq<char>>::empty() + all.blocks =~= all.blocks);
        },
        Some(at) => {
            block_ends_at_blank_line(a);
            if !contains_text(whole, "\n\n"@) {
                absent_from_part(whole, "\n\n"@, 0, a.len() as int);
                find_extends(a, b, "\r\n\r\n"@, 0);
            } else {
                absent_from_part(whole, "\r\n\r\n"@, 0, a.len() as int);
                find_extends(a, b, "\n\n"@, 0);
            }
            assert(block_end(whole) == Some(at));
            let tail = a.subrange(at, a.len() as int);
            let long_tail = whole.subrange(at, n);
            assert(long_tail =~= tail + b);
            reveal_strlit("\n\n");
            reveal_strlit("\r\n\r\n");
            find_from_is_first(a, "\n\n"@, 0);
            find_from_is_first(a, "\r\n\r\n"@, 0);
            if find_text(a, "\n\n"@) is Some {
                assert(a.subrange(at, at + 2)[0] == "\n\n"@[0]);
                assert(tail[0] == a[at]);
                assert(long_tail[0] == a[at]);
                if occurs_at(long_tail, "\r\n\r\n"@, 0) {
                    assert(long_tail.subrange(0, 4)[0] == "\r\n\r\n"@[0]);
                }
                if occurs_at(tail, "\r\n\r\n"@, 0) {
                    assert(tail.subrange(0, 4)[0] == "\r\n\r\n"@[0]);
                }
            } else {
                assert(tail.subrange(0, 4) =~= a.subrange(at, at + 4));
                assert(long_tail.subrange(0, 4) =~= a.subrange(at, at + 4));
            }
            let len = blank_line_len(tail);
            assert(blank_line_len(long_tail) == len);
            let rest = after_block(a, at);
            assert(after_block(whole, at) =~= rest + b);
            assert(rest + b =~= whole.subrange(at + len, n));
            if !contains_text(whole, "\n\n"@) {
                absent_from_part(whole, "\n\n"@, at + len, n);
            } else {
                absent_from_part(whole, "\r\n\r\n"@, at + len, n);
            }
            cuts_do_not_matter(rest, b);
            let first = seq![a.subrange(0, at)];
            assert(whole.subrange(0, at) =~= a.subrange(0, at));
            let mid = cut_blocks(rest);
            let end = cut_blocks(mid.rest + b);
            assert(first + (mid.blocks + end.blocks) =~= (first + mid.blocks) + end.blocks);
        },
    }
}

/// Cuts the complete blocks off a text.
pub fn take_blocks(buffer: &mut String) -> (r: Vec<String>)
    ensures
        cut_blocks(old(buffer)@) == (Blocks { blocks: texts(r@), rest: final(buffer)@ }),
{
    let mut out: Vec<String> = Vec::new();
    let cs = chars_of(buffer.as_str());
    let feeds = chars_of("\n\n");
    let breaks = chars_of("\r\n\r\n");
    let n: usize = cs.len();
    let mut from: usize = 0;
    let ghost all = buffer@;
    proof {
        assert(cs@.subrange(0, n as int) =~= cs@);
        assert(texts(out@) =~= Seq::empty());
        assert(Seq::<Seq<char>>::empty() + cut_blocks(all).blocks =~= cut_blocks(all).blocks);
    }
    loop
        invariant
            n == cs@.len(),
            from <= n,
            cs@ == all,
            feeds@ == "\n\n"@,
            breaks@ == "\r\n\r\n"@,
            cut_blocks(all) == cut_after(
                texts(out@),
                cut_blocks(cs@.subrange(from as int, n as int)),
            ),
        ensures
            block_end(cs@.subrange(from as int, n as int)) is None,
        decreases n - from,
    {
        let ghost rest = cs@.subrange(from as int, n as int);
        let ghost before = texts(out@);
        proof {
            find_in_tail(cs@, feeds@, from as int, from as int);
            find_in_tail(cs@, breaks@, from as int, from as int);
            block_ends_at_blank_line(rest);
            reveal_strlit("\n\n");
            reveal_strlit("\r\n\r\n");
        }
        let end = match find_chars(&cs, &feeds, from) {
            Some(at) => Some((at, 2usize)),
            None => match find_chars(&cs, &breaks, from) {
                Some(at) => Some((at, 4usize)),
                None => None,
            },
        };
        match end {
            Some((at, len)) => {
                let block = text_of(&cs, from, at);
                out.push(block);
                proof {
                    let tail = rest.subrange(at - from, rest.len() as int);
                    find_from_is_first(rest, "\n\n"@, 0);
                    find_from_is_first(rest, "\r\n\r\n"@, 0);
                    if len == 2 {
                        assert(rest.subrange(at - from, at - from + 2)[0] == "\n\n"@[0]);
                        assert(tail[0] == rest[at - from]);
                        if occurs_at(tail, "\r\n\r\n"@, 0) {
                            assert(tail.subrange(0, 4)[0] == "\r\n\r\n"@[0]);
                        }
                    } else {
                        assert(tail.subrange(0, 4) =~= rest.subrange(at - from, at - from + 4));
                    }
                    assert(blank_line_len(tail) == len);
                    assert(after_block(rest, at - from) =~= cs@.subrange(at + len, n as int));
                    assert(rest.subrange(0, at - from) =~= block@);
                    assert(texts(out@) =~= before + seq![block@]);
                    let next = cut_blocks(cs@.subrange(at + len, n as int));
                    assert(before + (seq![block@] + next.blocks) =~= (before + seq![block@])
                        + next.blocks);
                }
                from = at + len;
            },
            None => {
                break;
            },
        }
    }
    *buffer = text_of(&cs, from, n);
    assert(texts(out@) + Seq::<Seq<char>>::empty() =~= texts(out@));
    out
}

/// The data that lines carry: what follows `data:` in each, a line each.
pub open spec fn data_in(lines: Seq<Seq<char>>) -> Seq<char>
    decreases lines.len(),
{
    if lines.len() == 0 {
        Seq::empty()
    } else {
        let before = data_in(lines.drop_last());
        match after_prefix(lines.last(), "data:"@) {
            Some(rest) => (if before.len() == 0 {
                before
            } else {
                before.push('\n')
            }) + trimmed_start(rest),
            None => before,
        }
    }
}

/// The data that a block carries.
pub open spec fn block_data(block: Seq<char>) -> Seq<char> {
    data_in(lines_of(block))
}

/// The data that a block carries.
pub fn data_of(block: &str) -> (r: String)
    ensures
        r@ == block_data(block@),
{
    let list = lines(block);
    let ghost all = texts(list@);
    let mut data = String::new();
    let mut i: usize = 0;
    proof {
        whole_prefix(all);
    }
    while i < list.len()
        invariant
            i <= list@.len(),
            all == texts(list@),
            data@ == data_in(all.subrange(0, i as int)),
        decreases list@.len() - i,
    {
        proof {
            prefix_next(all, i as int);
        }
        if let Some(rest) = strip_prefix(list[i].as_str(), "data:") {
            if !data.as_str().is_empty() {
                push_char(&mut data, '\n');
            }
            let value = trim_start(rest.as_str());
            data.append(value.as_str());
        }
        i = i + 1;
    }
    proof {
        whole_prefix(all);
    }
    data
}

/// The data of each block that carries any.
pub open spec fn data_or_not(blocks: Seq<Seq<char>>) -> Seq<Option<Seq<char>>> {
    Seq::new(
        blocks.len(),
        |i: int|
            if block_data(blocks[i]).len() == 0 {
                None
            } else {
                Some(block_data(blocks[i]))
            },
    )
}

/// The data of the complete blocks of a text.
pub open spec fn events_in(buffer: Seq<char>) -> Seq<Seq<char>> {
    flattened(data_or_not(cut_blocks(buffer).blocks))
}

/// Cuts the complete blocks off a text and gives their data.
pub fn take_events(buffer: &mut String) -> (r: Vec<String>)
    ensures
        texts(r@) == events_in(old(buffer)@),
        final(buffer)@ == cut_blocks(old(buffer)@).rest,
{
    let blocks = take_blocks(buffer);
    let ghost all = data_or_not(texts(blocks@));
    let mut out: Vec<String> = Vec::new();
    let mut i: usize = 0;
    proof {
        whole_prefix(all);
        assert(texts(out@) =~= Seq::empty());
    }
    while i < blocks.len()
        invariant
            i <= blocks@.len(),
            all == data_or_not(texts(blocks@)),
            texts(out@) == flattened(all.subrange(0, i as int)),
        decreases blocks@.len() - i,
    {
        let ghost before = texts(out@);
        proof {
            flattened_next(all, i as int);
            assert(texts(blocks@)[i as int] == blocks@[i as int]@);
        }
        let data = data_of(blocks[i].as_str());
        if !data.as_str().is_empty() {
            out.push(data);
            assert(texts(out@) =~= before.push(data@));
        }
        i = i + 1;
    }
    proof {
        whole_prefix(all);
    }
    out
}

/// Reads a stream whose pieces are each UTF-8.
#[derive(Debug)]
pub struct SseDecoder {
    pub buffer: String,
}

impl Default for SseDecoder {
    fn default() -> (r: Self)
        ensures
            r.buffer@.len() == 0,
    {
        SseDecoder { buffer: String::new() }
    }
}

/// What is said of bytes that are not UTF-8.
pub open spec fn not_utf8(bytes: Seq<u8>) -> ErrorView {
    ErrorView::Other("invalid UTF-8 in SSE stream: "@ + utf8_fault(bytes))
}

impl SseDecoder {
    /// Takes in a piece and gives the data of the blocks that are now complete.
    pub fn ingest(&mut self, chunk: &[u8]) -> (r: Result<Vec<String>, SdkError>)
        ensures
            match r {
                Ok(events) => {
                    let all = old(self).buffer@ + decode_utf8(chunk@);
                    &&& valid_utf8(chunk@)
                    &&& texts(events@) == events_in(all)
                    &&& final(self).buffer@ == cut_blocks(all).rest
                },
                Err(e) => !valid_utf8(chunk@) && e@ == not_utf8(chunk@) && final(self).buffer
                    == old(self).buffer,
            },
    {
        let text = match from_utf8(chunk) {
            Ok(text) => text,
            Err(fault) => {
                return Err(
                    SdkError::Other(
                        concat2("invalid UTF-8 in SSE stream: ", fault.message.as_str()),
                    ),
                );
            },
        };
        self.buffer.append(text.as_str());
        Ok(take_events(&mut self.buffer))
    }
}

/// The longest beginning of at most `k` bytes that is UTF-8.
pub open spec fn valid_beginning(bytes: Seq<u8>, k: int) -> int
    decreases k,
{
    if k <= 0 {
        0
    } else if valid_utf8(bytes.subrange(0, k)) {
        k
    } else {
        valid_beginning(bytes, k - 1)
    }
}

proof fn valid_beginning_is(bytes: Seq<u8>, k: int, at: int)
    requires
        0 <= at <= k <= bytes.len(),
        valid_utf8(bytes.subrange(0, at)),
        forall|j: int| at < j <= k ==> !valid_utf8(#[trigger] bytes.subrange(0, j)),
    ensures
        valid_beginning(bytes, k) == at,
    decreases k,
{
    if k > at {
        assert(!valid_utf8(bytes.subrange(0, k)));
        valid_beginning_is(bytes, k - 1, at);
    }
}

proof fn valid_beginning_is_longest(bytes: Seq<u8>, k: int)
    requires
        0 <= k <= bytes.len(),
    ensures
        0 <= valid_beginning(bytes, k) <= k,
        valid_utf8(bytes.subrange(0, valid_beginning(bytes, k))),
        forall|j: int|
            valid_beginning(bytes, k) < j <= k ==> !valid_utf8(#[trigger] bytes.subrange(0, j)),
    decreases k,
{
    if k > 0 && !valid_utf8(bytes.subrange(0, k)) {
        valid_beginning_is_longest(bytes, k - 1);
    }
}

/// The text that bytes encode, up to what may be the beginning of a character.
pub open spec fn begun_text(bytes: Seq<u8>) -> Seq<char> {
    decode_utf8(bytes.subrange(0, valid_beginning(bytes, bytes.len() as int)))
}

/// What stands behind the text in bytes.
pub open spec fn held_back(bytes: Seq<u8>) -> Seq<u8> {
    bytes.subrange(valid_beginning(bytes, bytes.len() as int), bytes.len() as int)
}

proof fn decoded_one_by_one(a: Seq<u8>, b: Seq<u8>)
    requires
        valid_utf8(a),
        valid_utf8(b),
    ensures
        valid_utf8(a + b),
        decode_utf8(a + b) == decode_utf8(a) + decode_utf8(b),
    decreases a.len(),
{
    valid_utf8_concat(a, b);
    if a.len() == 0 {
        assert(a + b =~= b);
        assert(decode_utf8(a) + decode_utf8(b) =~= decode_utf8(b));
    } else {
        let rest = pop_first_scalar(a);
        assert(pop_first_scalar(a + b) =~= rest + b);
        decoded_one_by_one(rest, b);
        let first = seq![decode_first_scalar(a) as char];
        assert(first + (decode_utf8(rest) + decode_utf8(b)) =~= (first + decode_utf8(rest))
            + decode_utf8(b));
    }
}

/// A stream may be cut within a character: bytes that come in two pieces give the
/// text that they give in one, and what is held back at the end is the same.
pub proof fn characters_may_be_cut(a: Seq<u8>, b: Seq<u8>)
    ensures
        begun_text(a + b) == begun_text(a) + begun_text(held_back(a) + b),
        held_back(a + b) == held_back(held_back(a) + b),
{
    let whole = a + b;
    let n = whole.len() as int;
    let k = valid_beginning(a, a.len() as int);
    let later = held_back(a) + b;
    let m = valid_beginning(later, later.len() as int);
    valid_beginning_is_longest(a, a.len() as int);
    valid_beginning_is_longest(later, later.len() as int);
    let first = a.subrange(0, k);
    assert(whole.subrange(k, n) =~= later);
    assert(whole.subrange(0, k + m) =~= first + later.subrange(0, m));
    decoded_one_by_one(first, later.subrange(0, m));
    assert forall|j: int| k + m < j <= n implies !valid_utf8(#[trigger] whole.subrange(0, j)) by {
        let part = whole.subrange(0, j);
        assert(part.subrange(0, k) =~= first);
        assert(part.subrange(k, j) =~= later.subrange(0, j - k));
        assert(!valid_utf8(later.subrange(0, j - k)));
        partial_valid_partial_invalid_utf8(part, k);
    }
    valid_beginning_is(whole, n, k + m);
    assert(whole.subrange(k + m, n) =~= later.subrange(m, later.len() as int));
}

/// A stream may be cut anywhere, within a character too: its blocks and what is left
/// are the same, as long as its blank lines are all of one kind.
pub proof fn bytes_may_be_cut(a: Seq<u8>, b: Seq<u8>)
    requires
        one_kind_of_blank_line(begun_text(a + b)),
    ensures
        ({
            let first = cut_blocks(begun_text(a));
            cut_blocks(begun_text(a + b)) == cut_after(
                first.blocks,
                cut_blocks(first.rest + begun_text(held_back(a) + b)),
            )
        }),
        held_back(a + b) == held_back(held_back(a) + b),
{
    characters_may_be_cut(a, b);
    cuts_do_not_matter(begun_text(a), begun_text(held_back(a) + b));
}

proof fn encoded_one_by_one(a: Seq<char>, b: Seq<char>)
    ensures
        encode_utf8(a + b) == encode_utf8(a) + encode_utf8(b),
    decreases a.len(),
{
    if a.len() == 0 {
        assert(a + b =~= b);
        assert(encode_utf8(a) + encode_utf8(b) =~= encode_utf8(b));
    } else {
        let rest = a.drop_first();
        assert((a + b).drop_first() =~= rest + b);
        encoded_one_by_one(rest, b);
        let first = encode_scalar(a[0] as u32);
        assert(first + (encode_utf8(rest) + encode_utf8(b)) =~= (first + encode_utf8(rest))
            + encode_utf8(b));
    }
}

/// What is held back of bytes that can be completed can be completed too.
pub proof fn held_back_is_completable(bytes: Seq<u8>)
    requires
        completable(bytes),
    ensures
        completable(held_back(bytes)),
{
    let n = bytes.len() as int;
    let k = valid_beginning(bytes, n);
    valid_beginning_is_longest(bytes, n);
    let rest = choose|rest: Seq<u8>| #[trigger] valid_utf8(bytes + rest);
    let whole = bytes + rest;
    assert(whole.subrange(0, k) =~= bytes.subrange(0, k));
    assert(whole.subrange(k, whole.len() as int) =~= held_back(bytes) + rest);
    if !valid_utf8(held_back(bytes) + rest) {
        partial_valid_partial_invalid_utf8(whole, k);
    }
}

/// Appends the text that bytes encode. Bytes at the end that are the beginning of a
/// character are held back until the rest of it comes; no byte is lost or repeated.
/// Bytes that nothing can complete are refused, and nothing is appended.
pub fn append_utf8(buffer: &mut String, incomplete_utf8: &mut Vec<u8>, chunk: &[u8]) -> (r: Result<
    (),
    SdkError,
>)
    ensures
        ({
            let bytes = old(incomplete_utf8)@ + chunk@;
            match r {
                Ok(_) => {
                    &&& completable(bytes)
                    &&& final(buffer)@ == old(buffer)@ + begun_text(bytes)
                    &&& final(incomplete_utf8)@ == held_back(bytes)
                    &&& final(incomplete_utf8)@.len() <= 3
                    &&& completable(final(incomplete_utf8)@)
                    &&& encode_utf8(final(buffer)@) + final(incomplete_utf8)@ == encode_utf8(
                        old(buffer)@,
                    ) + old(incomplete_utf8)@ + chunk@
                },
                Err(e) => {
                    &&& !completable(bytes)
                    &&& e@ == not_utf8(bytes)
                    &&& *final(buffer) == *old(buffer)
                    &&& final(incomplete_utf8)@.len() == 0
                },
            }
        }),
{
    let mut bytes: Vec<u8> = Vec::new();
    append_bytes(&mut bytes, incomplete_utf8.as_slice());
    append_bytes(&mut bytes, chunk);
    proof {
        assert(bytes@ =~= incomplete_utf8@ + chunk@);
        assert(bytes@.subrange(0, bytes@.len() as int) =~= bytes@);
    }
    let ghost all = bytes@;
    let ghost n = all.len() as int;
    incomplete_utf8.clear();
    match from_utf8(bytes.as_slice()) {
        Ok(text) => {
            buffer.append(text.as_str());
            proof {
                valid_beginning_is(all, n, n);
                decode_utf8_encode_utf8(all);
                assert(all.subrange(n, n) =~= Seq::empty());
                assert(all + Seq::<u8>::empty() =~= all);
                assert(valid_utf8(all + Seq::<u8>::empty()));
                held_back_is_completable(all);
                encoded_one_by_one(old(buffer)@, begun_text(all));
                assert(encode_utf8(buffer@) + incomplete_utf8@ =~= encode_utf8(old(buffer)@) + old(
                    incomplete_utf8,
                )@ + chunk@);
            }
            Ok(())
        },
        Err(fault) => {
            if !fault.incomplete {
                return Err(
                    SdkError::Other(
                        concat2("invalid UTF-8 in SSE stream: ", fault.message.as_str()),
                    ),
                );
            }
            let at: usize = fault.valid_up_to;
            proof {
                valid_beginning_is(all, n, at as int);
                decode_utf8_encode_utf8(all.subrange(0, at as int));
                assert(all.subrange(0, at as int) + all.subrange(at as int, n) =~= all);
            }
            let valid = bytes_of(bytes.as_slice(), 0, at);
            if let Ok(text) = from_utf8(valid.as_slice()) {
                buffer.append(text.as_str());
            }
            *incomplete_utf8 = bytes_of(bytes.as_slice(), at, bytes.len());
            proof {
                held_back_is_completable(all);
                encoded_one_by_one(old(buffer)@, begun_text(all));
                assert(encode_utf8(buffer@) + incomplete_utf8@ =~= encode_utf8(old(buffer)@) + old(
                    incomplete_utf8,
                )@ + chunk@);
            }
            Ok(())
        },
    }
}

/// Reads a stream whose pieces may end within a character.
#[derive(Debug)]
pub struct SplitSseDecoder {
    pub buffer: String,
    pub incomplete_utf8: Vec<u8>,
}

impl Default for SplitSseDecoder {
    fn default() -> (r: Self)
        ensures
            r.buffer@.len() == 0,
            r.incomplete_utf8@.len() == 0,
    {
        SplitSseDecoder { buffer: String::new(), incomplete_utf8: Vec::new() }
    }
}

impl SplitSseDecoder {
    /// Takes in a piece and gives the data of the blocks that are now complete. Only
    /// bytes that no text begins with are refused.
    pub fn ingest(&mut self, chunk: &[u8]) -> (r: Result<Vec<String>, SdkError>)
        ensures
            ({
                let bytes = old(self).incomplete_utf8@ + chunk@;
                match r {
                    Ok(events) => {
                        let all = old(self).buffer@ + begun_text(bytes);
                        &&& completable(bytes)
                        &&& texts(events@) == events_in(all)
                        &&& final(self).buffer@ == cut_blocks(all).rest
                        &&& final(self).incomplete_utf8@ == held_back(bytes)
                    },
                    Err(e) => {
                        &&& !completable(bytes)
                        &&& e@ == not_utf8(bytes)
                        &&& final(self).buffer == old(self).buffer
                        &&& final(self).incomplete_utf8@.len() == 0
                    },
                }
            }),
    {
        match append_utf8(&mut self.buffer, &mut self.incomplete_utf8, chunk) {
            Ok(_) => Ok(take_events(&mut self.buffer)),
            Err(e) => Err(e),
        }
    }
}

/// What the data of a stream is.
#[derive(Debug)]
pub enum DataStep {
    /// Nothing.
    Skip,
    /// The end of the stream.
    Done,
    /// An event to be read.
    Event(String),
}

/// What a `DataStep` says.
pub enum DataView {
    Skip,
    Done,
    Event(Seq<char>),
}

impl View for DataStep {
    type V = DataView;

    open spec fn view(&self) -> DataView {
        match self {
            DataStep::Skip => DataView::Skip,
            DataStep::Done => DataView::Done,
            DataStep::Event(s) => DataView::Event(s@),
        }
    }
}

/// What the data of a stream is.
pub open spec fn data_kind(data: Seq<char>) -> DataView {
    if trimmed(data).len() == 0 {
        DataView::Skip
    } else if trimmed(data) == "[DONE]"@ {
        DataView::Done
    } else {
        DataView::Event(trimmed(data))
    }
}

/// What the data of a stream is.
pub fn data_step(data: &str) -> (r: DataStep)
    ensures
        r@ == data_kind(data@),
{
    let body = trim(data);
    if body.as_str().is_empty() {
        DataStep::Skip
    } else if str_eq(body.as_str(), "[DONE]") {
        DataStep::Done
    } else {
        DataStep::Event(body)
    }
}

/// The error for a stream that ends without saying so.
pub fn ended_early() -> (r: SdkError)
    ensures
        r@ == ErrorView::Other("stream ended before termination signal"@),
{
    other_error("stream ended before termination signal")
}

/// A block ends at the first blank line: what stands before two line feeds is a block, and
/// what follows them is read next.
pub proof fn blocks_end_at_blank_lines(block: Seq<char>, more: Seq<char>)
    requires
        !contains_text(block, "\n\n"@),
        block.len() == 0 || block.last() != '\n',
    ensures
        cut_blocks(block + "\n\n"@ + more) == cut_after(seq![block], cut_blocks(more)),
{
    reveal_strlit("\n\n");
    reveal_strlit("\r\n\r\n");
    let n = block.len() as int;
    let all = block + "\n\n"@ + more;
    find_from_is_first(block, "\n\n"@, 0);
    find_from_is_first(all, "\n\n"@, 0);
    assert(all.subrange(n, n + 2) =~= "\n\n"@);
    assert(occurs_at(all, "\n\n"@, n));
    assert forall|j: int| 0 <= j < n implies !#[trigger] occurs_at(all, "\n\n"@, j) by {
        if occurs_at(all, "\n\n"@, j) {
            assert(all.subrange(j, j + 2)[0] == all[j]);
            assert(all.subrange(j, j + 2)[1] == all[j + 1]);
            if j + 2 <= n {
                assert(block.subrange(j, j + 2) =~= all.subrange(j, j + 2));
                assert(occurs_at(block, "\n\n"@, j));
            } else {
                assert(all[j] == block.last());
            }
        }
    }
    assert(find_text(all, "\n\n"@) == Some(n));
    let tail = all.subrange(n, all.len() as int);
    assert(tail[0] == '\n');
    if occurs_at(tail, "\r\n\r\n"@, 0) {
        assert(tail.subrange(0, 4)[0] == tail[0]);
    }
    assert(after_block(all, n) =~= more);
    assert(all.subrange(0, n) =~= block);
}

/// Two line breaks of two characters each are a blank line too, where there are no two
/// line feeds.
pub proof fn blocks_end_at_long_blank_lines(block: Seq<char>, more: Seq<char>)
    requires
        !contains_text(block + "\r\n\r\n"@ + more, "\n\n"@),
        !contains_text(block, "\r\n\r\n"@),
        block.len() == 0 || (block.last() != '\n' && block.last() != '\r'),
    ensures
        cut_blocks(block + "\r\n\r\n"@ + more) == cut_after(seq![block], cut_blocks(more)),
{
    reveal_strlit("\n\n");
    reveal_strlit("\r\n\r\n");
    let n = block.len() as int;
    let mark = "\r\n\r\n"@;
    let all = block + mark + more;
    find_from_is_first(block, mark, 0);
    find_from_is_first(all, mark, 0);
    assert(all.subrange(n, n + 4) =~= mark);
    assert(occurs_at(all, mark, n));
    assert forall|j: int| 0 <= j < n implies !#[trigger] occurs_at(all, mark, j) by {
        if occurs_at(all, mark, j) {
            if j + 4 <= n {
                assert(block.subrange(j, j + 4) =~= all.subrange(j, j + 4));
                assert(occurs_at(block, mark, j));
            } else {
                assert(all.subrange(j, j + 4)[n - 1 - j] == all[n - 1]);
                assert(all[n - 1] == block.last());
            }
        }
    }
    assert(find_text(all, mark) == Some(n));
    let tail = all.subrange(n, all.len() as int);
    assert(tail.subrange(0, 4) =~= mark);
    assert(after_block(all, n) =~= more);
    assert(all.subrange(0, n) =~= block);
}

/// Without a blank line there is no block yet, and nothing is lost.
pub proof fn nothing_is_cut_without_blank_lines(buffer: Seq<char>)
    requires
        !contains_text(buffer, "\n\n"@),
        !contains_text(buffer, "\r\n\r\n"@),
    ensures
        cut_blocks(buffer) == (Blocks { blocks: Seq::empty(), rest: buffer }),
{
}

/// Lines that begin with `data:` give what follows, without the white space before it, a
/// line each and in their order; other lines give nothing.
pub proof fn data_is_read_line_by_line(lines: Seq<Seq<char>>, line: Seq<char>)
    ensures
        after_prefix(line, "data:"@) is None ==> data_in(lines.push(line)) == data_in(lines),
        after_prefix(line, "data:"@) is Some && data_in(lines).len() == 0 ==> data_in(
            lines.push(line),
        ) == trimmed_start(after_prefix(line, "data:"@)->0),
        after_prefix(line, "data:"@) is Some && data_in(lines).len() > 0 ==> data_in(
            lines.push(line),
        ) == data_in(lines) + seq!['\n'] + trimmed_start(after_prefix(line, "data:"@)->0),
        data_in(Seq::empty()).len() == 0,
{
    assert(lines.push(line).drop_last() =~= lines);
    if after_prefix(line, "data:"@) is Some {
        let rest = trimmed_start(after_prefix(line, "data:"@)->0);
        if data_in(lines).len() == 0 {
            assert(data_in(lines) =~= Seq::empty());
            assert(Seq::<char>::empty() + rest =~= rest);
        } else {
            assert(data_in(lines).push('\n') + rest =~= data_in(lines) + seq!['\n'] + rest);
        }
    }
}

/// The events are the data of the blocks that carry any, in their order.
pub proof fn events_come_in_order(blocks: Seq<Seq<char>>, block: Seq<char>, buffer: Seq<char>)
    ensures
        data_in(lines_of(block)).len() > 0 ==> flattened(data_or_not(blocks.push(block)))
            == flattened(data_or_not(blocks)).push(data_in(lines_of(block))),
        data_in(lines_of(block)).len() == 0 ==> flattened(data_or_not(blocks.push(block)))
            == flattened(data_or_not(blocks)),
        events_in(buffer) == flattened(data_or_not(cut_blocks(buffer).blocks)),
{
    assert(data_or_not(blocks.push(block)).drop_last() =~= data_or_not(blocks));
}

/// Data that is blank is nothing, `[DONE]` is the end, and anything else is an event, with
/// or without white space around it.
pub proof fn done_is_the_end(data: Seq<char>)
    ensures
        trimmed(data).len() == 0 <==> data_kind(data) is Skip,
        trimmed(data) == "[DONE]"@ <==> data_kind(data) is Done,
        data_kind(data) matches DataView::Event(s) ==> s == trimmed(data),
{
    reveal_strlit("[DONE]");
}

/// The text of bytes and what is held back of them are the bytes; bytes that are a text
/// are not held back.
pub proof fn only_begun_characters_are_held_back(bytes: Seq<u8>)
    ensures
        encode_utf8(begun_text(bytes)) + held_back(bytes) == bytes,
        valid_utf8(bytes) ==> begun_text(bytes) == decode_utf8(bytes) && held_back(bytes).len()
            == 0,
{
    valid_beginning_is_longest(bytes, bytes.len() as int);
    let k = valid_beginning(bytes, bytes.len() as int);
    let head = bytes.subrange(0, k);
    decode_utf8_encode_utf8(head);
    assert(head + bytes.subrange(k, bytes.len() as int) =~= bytes);
    assert(bytes.subrange(0, bytes.len() as int) =~= bytes);
}

} // verus!
