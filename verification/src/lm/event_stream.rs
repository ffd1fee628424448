//! The binary event-stream framing of AWS: length-prefixed messages with headers,
//! a payload and two checksums.
use vstd::prelude::*;
use vstd::slice::*;
use vstd::utf8::*;

use crate::error::{other_error, ErrorView, SdkError};
use crate::text::{
    append_bytes, bytes_of, concat2, concat3, decimal, decimal_text, find_last_pair, from_utf8,
    last_pair, pair_views, utf8_fault,
};

verus! {

/// The longest message that is accepted, in bytes.
pub const MAX_EVENT_MESSAGE_SIZE: usize = 33_554_432;

/// What `crc32fast::hash` gives for bytes.
pub uninterp spec fn crc32(bytes: Seq<u8>) -> u32;

/// `crc32fast::hash`: the CRC-32 checksum of the bytes, which depends on them alone.
#[verifier::external_body]
fn crc32_of(bytes: &[u8]) -> (r: u32)
    ensures
        r == crc32(bytes@),
{
    crc32fast::hash(bytes)
}

/// Collects the bytes of a stream until they make up messages.
#[derive(Debug)]
pub struct AwsEventStreamDecoder {
    pub buffer: Vec<u8>,
}

/// One message: the headers with a text value, in their order, and the payload.
#[derive(Debug)]
pub struct AwsEventStreamMessage {
    pub headers: Vec<(String, String)>,
    pub payload: Vec<u8>,
}

/// What a message says.
pub struct EventView {
    pub headers: Seq<(Seq<char>, Seq<char>)>,
    pub payload: Seq<u8>,
}

impl View for AwsEventStreamMessage {
    type V = EventView;

    open spec fn view(&self) -> EventView {
        EventView { headers: pair_views(self.headers@), payload: self.payload@ }
    }
}

/// What a list of messages says.
pub open spec fn event_views(messages: Seq<AwsEventStreamMessage>) -> Seq<EventView> {
    Seq::new(messages.len(), |i: int| messages[i]@)
}

impl AwsEventStreamMessage {
    /// The value of a header; of several with that name, the last.
    pub fn header(&self, name: &str) -> (r: Option<&str>)
        ensures
            match r {
                Some(v) => last_pair(self@.headers, name@) == Some(v@),
                None => last_pair(self@.headers, name@) is None,
            },
    {
        find_last_pair(&self.headers, name)
    }
}

/// Four bytes as a number, the first byte most significant.
pub open spec fn be32(bytes: Seq<u8>, at: int) -> nat {
    (bytes[at] as nat) * 16777216 + (bytes[at + 1] as nat) * 65536 + (bytes[at + 2] as nat) * 256
        + (bytes[at + 3] as nat)
}

/// Two bytes as a number, the first byte most significant.
pub open spec fn be16(bytes: Seq<u8>, at: int) -> nat {
    (bytes[at] as nat) * 256 + (bytes[at + 1] as nat)
}

fn read_be_u32(bytes: &[u8], at: usize) -> (r: u32)
    requires
        at + 4 <= bytes@.len(),
    ensures
        r == be32(bytes@, at as int),
{
    (bytes[at] as u32) * 16777216 + (bytes[at + 1] as u32) * 65536 + (bytes[at + 2] as u32) * 256 + (
    bytes[at + 3] as u32)
}

/// How many bytes the value of a header takes from `at` on.
pub open spec fn value_size(bytes: Seq<u8>, kind: u8, at: int) -> Result<int, ErrorView> {
    let truncated: Result<int, ErrorView> = Err(
        ErrorView::Other("truncated AWS event-stream header value"@),
    );
    let size: Result<int, ErrorView> = if kind <= 1 {
        Ok(0)
    } else if kind == 2 {
        Ok(1)
    } else if kind == 3 {
        Ok(2)
    } else if kind == 4 {
        Ok(4)
    } else if kind == 5 || kind == 8 {
        Ok(8)
    } else if kind == 6 || kind == 7 {
        if at + 2 > bytes.len() {
            truncated
        } else {
            Ok((2 + be16(bytes, at)) as int)
        }
    } else if kind == 9 {
        Ok(16)
    } else {
        Err(
            ErrorView::Other(
                "unsupported AWS event-stream header type "@ + decimal(kind as nat),
            ),
        )
    };
    match size {
        Ok(n) => if at + n > bytes.len() {
            truncated
        } else {
            Ok(n)
        },
        Err(e) => Err(e),
    }
}

/// What comes first, then what was read after it.
pub open spec fn preceded<T>(first: Seq<T>, rest: Result<Seq<T>, ErrorView>) -> Result<
    Seq<T>,
    ErrorView,
> {
    match rest {
        Ok(more) => Ok(first + more),
        Err(e) => Err(e),
    }
}

/// The headers with a text value that the bytes hold from `at` on: for each a byte
/// with the length of the name, the name, a byte with the type of the value, and
/// the value.
pub open spec fn headers_from(bytes: Seq<u8>, at: int) -> Result<
    Seq<(Seq<char>, Seq<char>)>,
    ErrorView,
>
    decreases bytes.len() - at,
{
    if at < 0 || at >= bytes.len() {
        Ok(Seq::empty())
    } else {
        let name_end = at + 1 + bytes[at];
        if name_end + 1 > bytes.len() {
            Err(ErrorView::Other("truncated AWS event-stream header name"@))
        } else {
            let name = bytes.subrange(at + 1, name_end);
            let kind = bytes[name_end];
            if !valid_utf8(name) {
                Err(ErrorView::Other("invalid event header name: "@ + utf8_fault(name)))
            } else {
                match value_size(bytes, kind, name_end + 1) {
                    Err(e) => Err(e),
                    Ok(size) => {
                        let end = name_end + 1 + size;
                        if kind == 7 {
                            let value = bytes.subrange(name_end + 3, end);
                            if valid_utf8(value) {
                                preceded(
                                    seq![(decode_utf8(name), decode_utf8(value))],
                                    headers_from(bytes, end),
                                )
                            } else {
                                Err(
                                    ErrorView::Other(
                                        "invalid event header value: "@ + utf8_fault(value),
                                    ),
                                )
                            }
                        } else {
                            headers_from(bytes, end)
                        }
                    },
                }
            }
        }
    }
}

/// Reads how many bytes the value of a header takes from `at` on.
fn header_value_size(bytes: &[u8], kind: u8, at: usize) -> (r: Result<usize, SdkError>)
    requires
        at <= bytes@.len(),
    ensures
        match r {
            Ok(n) => value_size(bytes@, kind, at as int) == Ok::<int, ErrorView>(n as int) && at + n
                <= bytes@.len(),
            Err(e) => value_size(bytes@, kind, at as int) == Err::<int, ErrorView>(e@),
        },
{
    let left: usize = bytes.len() - at;
    let size: usize = match kind {
        0 | 1 => 0,
        2 => 1,
        3 => 2,
        4 => 4,
        5 | 8 => 8,
        6 | 7 => {
            if left < 2 {
                return Err(other_error("truncated AWS event-stream header value"));
            }
            2 + (bytes[at] as usize) * 256 + (bytes[at + 1] as usize)
        },
        9 => 16,
        other => {
            return Err(
                SdkError::Other(
                    concat2(
                        "unsupported AWS event-stream header type ",
                        decimal_text(other as u64).as_str(),
                    ),
                ),
            );
        },
    };
    if left < size {
        return Err(other_error("truncated AWS event-stream header value"));
    }
    Ok(size)
}

/// The headers with a text value, in their order.
pub fn parse_event_headers(bytes: &[u8]) -> (r: Result<Vec<(String, String)>, SdkError>)
    ensures
        match r {
            Ok(headers) => headers_from(bytes@, 0) == Ok::<
                Seq<(Seq<char>, Seq<char>)>,
                ErrorView,
            >(pair_views(headers@)),
            Err(e) => headers_from(bytes@, 0) == Err::<Seq<(Seq<char>, Seq<char>)>, ErrorView>(e@),
        },
{
    let mut headers: Vec<(String, String)> = Vec::new();
    let mut offset: usize = 0;
    let n: usize = bytes.len();
    assert(forall|s: Seq<(Seq<char>, Seq<char>)>| pair_views(headers@) + s =~= s);
    while offset < n
        invariant
            n == bytes@.len(),
            offset <= n,
            headers_from(bytes@, 0) == preceded(
                pair_views(headers@),
                headers_from(bytes@, offset as int),
            ),
        decreases n - offset,
    {
        let ghost before = pair_views(headers@);
        let name_len: usize = bytes[offset] as usize;
        offset = offset + 1;
        if n - offset < name_len + 1 {
            return Err(other_error("truncated AWS event-stream header name"));
        }
        let name = match from_utf8(slice_subrange(bytes, offset, offset + name_len)) {
            Ok(name) => name,
            Err(fault) => {
                return Err(
                    SdkError::Other(
                        concat2("invalid event header name: ", fault.message.as_str()),
                    ),
                );
            },
        };
        offset = offset + name_len;
        let kind: u8 = bytes[offset];
        offset = offset + 1;
        let size: usize = match header_value_size(bytes, kind, offset) {
            Ok(size) => size,
            Err(e) => {
                return Err(e);
            },
        };
        if kind == 7 {
            match from_utf8(slice_subrange(bytes, offset + 2, offset + size)) {
                Ok(value) => {
                    headers.push((name, value));
                    proof {
                        let first = seq![(name@, value@)];
                        assert(pair_views(headers@) =~= before + first);
                        match headers_from(bytes@, offset + size) {
                            Ok(rest) => {
                                assert(before + (first + rest) =~= (before + first) + rest);
                            },
                            Err(_) => {},
                        }
                    }
                },
                Err(fault) => {
                    return Err(
                        SdkError::Other(
                            concat2("invalid event header value: ", fault.message.as_str()),
                        ),
                    );
                },
            }
        }
        offset = offset + size;
    }
    assert(pair_views(headers@) + Seq::<(Seq<char>, Seq<char>)>::empty() =~= pair_views(
        headers@,
    ));
    Ok(headers)
}

/// What stands at the beginning of the bytes.
pub enum Frame {
    /// The bytes end before the message does.
    Incomplete,
    /// The bytes are no message.
    Broken(ErrorView),
    /// A message of `size` bytes.
    Whole { size: int, event: EventView },
}

/// What stands at the beginning of the bytes. A message is a prelude (its length,
/// the length of its headers, the checksum of these eight bytes), the headers, the
/// payload, and the checksum of all that comes before it.
pub open spec fn first_frame(bytes: Seq<u8>) -> Frame {
    if bytes.len() < 12 {
        Frame::Incomplete
    } else {
        let total = be32(bytes, 0);
        let headers_len = be32(bytes, 4);
        if total < 16 || total > MAX_EVENT_MESSAGE_SIZE {
            Frame::Broken(
                ErrorView::Other("invalid AWS event-stream message length "@ + decimal(total)),
            )
        } else if headers_len > total - 16 {
            Frame::Broken(
                ErrorView::Other(
                    "invalid AWS event-stream headers length "@ + decimal(headers_len),
                ),
            )
        } else if bytes.len() < total {
            Frame::Incomplete
        } else if be32(bytes, 8) != crc32(bytes.subrange(0, 8)) {
            Frame::Broken(ErrorView::Other("AWS event-stream prelude CRC mismatch"@))
        } else if be32(bytes, total - 4) != crc32(bytes.subrange(0, total - 4)) {
            Frame::Broken(ErrorView::Other("AWS event-stream message CRC mismatch"@))
        } else {
            match headers_from(bytes.subrange(12, (12 + headers_len) as int), 0) {
                Err(e) => Frame::Broken(e),
                Ok(headers) => Frame::Whole {
                    size: total as int,
                    event: EventView {
                        headers,
                        payload: bytes.subrange((12 + headers_len) as int, total - 4),
                    },
                },
            }
        }
    }
}

/// What a run of bytes gives: its messages up to the first fault, the fault if
/// there is one, and the bytes that are left.
pub struct Drained {
    pub events: Seq<EventView>,
    pub rest: Seq<u8>,
    pub fault: Option<ErrorView>,
}

/// Takes message after message off the bytes.
pub open spec fn drained(bytes: Seq<u8>) -> Drained
    decreases bytes.len(),
{
    match first_frame(bytes) {
        Frame::Incomplete => Drained { events: Seq::empty(), rest: bytes, fault: None },
        Frame::Broken(e) => Drained { events: Seq::empty(), rest: bytes, fault: Some(e) },
        Frame::Whole { size, event } => {
            let next = drained(bytes.subrange(size, bytes.len() as int));
            Drained { events: seq![event] + next.events, rest: next.rest, fault: next.fault }
        },
    }
}

/// The messages `before`, then what else was drained.
pub open spec fn drained_after(before: Seq<EventView>, next: Drained) -> Drained {
    Drained { events: before + next.events, rest: next.rest, fault: next.fault }
}

/// What stands at the beginning is settled once the message is there: more bytes
/// after it change nothing.
pub proof fn frame_is_stable(a: Seq<u8>, b: Seq<u8>)
    ensures
        !(first_frame(a) is Incomplete) ==> first_frame(a + b) == first_frame(a),
{
    if a.len() >= 12 {
        let whole = a + b;
        let total = be32(a, 0);
        let headers_len = be32(a, 4);
        assert(be32(whole, 0) == total);
        assert(be32(whole, 4) == headers_len);
        if 16 <= total <= MAX_EVENT_MESSAGE_SIZE && headers_len <= total - 16 && a.len() >= total {
            assert(whole.subrange(0, 8) =~= a.subrange(0, 8));
            assert(whole.subrange(0, total - 4) =~= a.subrange(0, total - 4));
            assert(whole.subrange(12, (12 + headers_len) as int) =~= a.subrange(12, (12 + headers_len) as int));
            assert(whole.subrange((12 + headers_len) as int, total - 4) =~= a.subrange(
                (12 + headers_len) as int,
                total - 4,
            ));
        }
    }
}

/// Where a stream is cut makes no difference: bytes that come in two pieces give
/// the messages, the rest and the fault that they give in one.
pub proof fn cuts_do_not_matter(a: Seq<u8>, b: Seq<u8>)
    requires
        drained(a).fault is None,
    ensures
        drained(a + b) == drained_after(drained(a).events, drained(drained(a).rest + b)),
    decreases a.len(),
{
    frame_is_stable(a, b);
    match first_frame(a) {
        Frame::Incomplete => {
            assert(Seq::<EventView>::empty() + drained(a + b).events =~= drained(a + b).events);
        },
        Frame::Broken(_) => {},
        Frame::Whole { size, event } => {
            let tail = a.subrange(size, a.len() as int);
            cuts_do_not_matter(tail, b);
            assert((a + b).subrange(size, (a + b).len() as int) =~= tail + b);
            let later = drained(drained(tail).rest + b).events;
            assert(seq![event] + (drained(tail).events + later) =~= (seq![event] + drained(
                tail,
            ).events) + later);
        },
    }
}

/// Four bytes that write a number, the most significant first.
pub open spec fn be32_bytes(n: nat) -> Seq<u8> {
    seq![
        (n / 16777216 % 256) as u8,
        (n / 65536 % 256) as u8,
        (n / 256 % 256) as u8,
        (n % 256) as u8,
    ]
}

/// A header with a text value: the length of the name, the name, the type of the
/// value, the length of the value, the value.
pub open spec fn text_header(name: Seq<char>, value: Seq<char>) -> Seq<u8> {
    let name_bytes = encode_utf8(name);
    let value_bytes = encode_utf8(value);
    seq![name_bytes.len() as u8] + name_bytes + seq![
        7u8,
        (value_bytes.len() / 256) as u8,
        (value_bytes.len() % 256) as u8,
    ] + value_bytes
}

/// Headers with text values, one after the other.
pub open spec fn text_headers(headers: Seq<(Seq<char>, Seq<char>)>) -> Seq<u8>
    decreases headers.len(),
{
    if headers.len() == 0 {
        Seq::empty()
    } else {
        text_header(headers[0].0, headers[0].1) + text_headers(headers.drop_first())
    }
}

/// Whether the names and values fit in the lengths that a header has for them.
pub open spec fn headers_fit(headers: Seq<(Seq<char>, Seq<char>)>) -> bool {
    forall|i: int|
        0 <= i < headers.len() ==> encode_utf8((#[trigger] headers[i]).0).len() <= 255
            && encode_utf8(headers[i].1).len() <= 65535
}

/// The message with these headers and this payload.
pub open spec fn framed(headers: Seq<(Seq<char>, Seq<char>)>, payload: Seq<u8>) -> Seq<u8> {
    let head = text_headers(headers);
    let prelude = be32_bytes(16 + head.len() + payload.len()) + be32_bytes(head.len());
    let body = prelude + be32_bytes(crc32(prelude) as nat) + head + payload;
    body + be32_bytes(crc32(body) as nat)
}

proof fn be32_reads_back(n: nat)
    requires
        n <= u32::MAX,
    ensures
        be32(be32_bytes(n), 0) == n,
        be32_bytes(n).len() == 4,
{
    let a = n / 16777216 % 256;
    let b = n / 65536 % 256;
    let c = n / 256 % 256;
    let d = n % 256;
    assert(n == a * 16777216 + b * 65536 + c * 256 + d) by (nonlinear_arith)
        requires
            n <= u32::MAX,
            a == n / 16777216 % 256,
            b == n / 65536 % 256,
            c == n / 256 % 256,
            d == n % 256,
    ;
}

/// Headers that were written are read back.
proof fn headers_read_back(before: Seq<u8>, headers: Seq<(Seq<char>, Seq<char>)>)
    requires
        headers_fit(headers),
    ensures
        headers_from(before + text_headers(headers), before.len() as int) == Ok::<
            Seq<(Seq<char>, Seq<char>)>,
            ErrorView,
        >(headers),
    decreases headers.len(),
{
    let bytes = before + text_headers(headers);
    let at = before.len() as int;
    if headers.len() == 0 {
        assert(headers =~= Seq::empty());
    } else {
        let (name, value) = headers[0];
        let name_bytes = encode_utf8(name);
        let value_bytes = encode_utf8(value);
        let first = text_header(name, value);
        let tail = headers.drop_first();
        assert(headers_fit(tail)) by {
            assert forall|i: int| 0 <= i < tail.len() implies encode_utf8((#[trigger] tail[i]).0).len()
                <= 255 && encode_utf8(tail[i].1).len() <= 65535 by {
                assert(tail[i] == headers[i + 1]);
            }
        }
        headers_read_back(before + first, tail);
        assert(bytes =~= (before + first) + text_headers(tail));
        encode_utf8_valid_utf8(name);
        encode_utf8_valid_utf8(value);
        encode_utf8_decode_utf8(name);
        encode_utf8_decode_utf8(value);
        let name_end = at + 1 + name_bytes.len();
        assert(bytes[at] == first[0]);
        assert(bytes[at] == name_bytes.len());
        assert(bytes.subrange(at + 1, name_end) =~= name_bytes);
        assert(bytes[name_end] == 7);
        assert(bytes[name_end + 1] == value_bytes.len() / 256);
        assert(bytes[name_end + 2] == value_bytes.len() % 256);
        assert(be16(bytes, name_end + 1) == value_bytes.len());
        let end = name_end + 3 + value_bytes.len();
        assert(bytes.subrange(name_end + 3, end) =~= value_bytes);
        assert(value_size(bytes, 7, name_end + 1) == Ok::<int, ErrorView>(
            2 + value_bytes.len() as int,
        ));
        assert(headers =~= seq![(name, value)] + tail);
        assert(end == (before + first).len());
    }
}

/// A message that was written is read back, whatever follows it: its headers and
/// its payload come out unchanged, and what follows is read next.
pub proof fn messages_read_back(
    headers: Seq<(Seq<char>, Seq<char>)>,
    payload: Seq<u8>,
    more: Seq<u8>,
)
    requires
        headers_fit(headers),
        framed(headers, payload).len() <= MAX_EVENT_MESSAGE_SIZE,
    ensures
        drained(framed(headers, payload) + more) == drained_after(
            seq![EventView { headers, payload }],
            drained(more),
        ),
{
    let head = text_headers(headers);
    let total = (16 + head.len() + payload.len()) as nat;
    let prelude = be32_bytes(total) + be32_bytes(head.len());
    let body = prelude + be32_bytes(crc32(prelude) as nat) + head + payload;
    let frame = framed(headers, payload);
    let bytes = frame + more;
    be32_reads_back(crc32(prelude) as nat);
    be32_reads_back(crc32(body) as nat);
    assert(frame.len() == total);
    be32_reads_back(total);
    be32_reads_back(head.len());
    assert(be32(bytes, 0) == be32(be32_bytes(total), 0));
    assert(be32(bytes, 4) == be32(be32_bytes(head.len()), 0));
    assert(be32(bytes, 8) == be32(be32_bytes(crc32(prelude) as nat), 0));
    assert(be32(bytes, total - 4) == be32(be32_bytes(crc32(body) as nat), 0));
    assert(bytes.subrange(0, 8) =~= prelude);
    assert(bytes.subrange(0, total - 4) =~= body);
    assert(bytes.subrange(12, (12 + head.len()) as int) =~= Seq::<u8>::empty() + head);
    headers_read_back(Seq::empty(), headers);
    assert(bytes.subrange((12 + head.len()) as int, total - 4) =~= payload);
    assert(bytes.subrange(total as int, bytes.len() as int) =~= more);
}

impl Default for AwsEventStreamDecoder {
    fn default() -> (r: Self)
        ensures
            r.buffer@.len() == 0,
    {
        AwsEventStreamDecoder { buffer: Vec::new() }
    }
}

impl AwsEventStreamDecoder {
    /// Takes in more bytes and gives the messages that are now complete. Where the
    /// bytes are no message, nothing is given and the bytes from there on are kept.
    pub fn ingest(&mut self, chunk: &[u8]) -> (r: Result<Vec<AwsEventStreamMessage>, SdkError>)
        ensures
            final(self).buffer@ == drained(old(self).buffer@ + chunk@).rest,
            match r {
                Ok(messages) => drained(old(self).buffer@ + chunk@).fault is None && event_views(
                    messages@,
                ) == drained(old(self).buffer@ + chunk@).events,
                Err(e) => drained(old(self).buffer@ + chunk@).fault == Some(e@),
            },
    {
        append_bytes(&mut self.buffer, chunk);
        let ghost all = self.buffer@;
        let mut messages: Vec<AwsEventStreamMessage> = Vec::new();
        assert(drained_after(event_views(messages@), drained(all)) == drained(all)) by {
            assert(event_views(messages@) + drained(all).events =~= drained(all).events);
        }
        loop
            invariant
                all == old(self).buffer@ + chunk@,
                drained(all) == drained_after(event_views(messages@), drained(self.buffer@)),
            ensures
                first_frame(self.buffer@) is Incomplete,
            decreases self.buffer@.len(),
        {
            if self.buffer.len() < 12 {
                break;
            }
            let total: usize = read_be_u32(self.buffer.as_slice(), 0) as usize;
            let headers_len: usize = read_be_u32(self.buffer.as_slice(), 4) as usize;
            if total < 16 || total > MAX_EVENT_MESSAGE_SIZE {
                return Err(
                    SdkError::Other(
                        concat2(
                            "invalid AWS event-stream message length ",
                            decimal_text(total as u64).as_str(),
                        ),
                    ),
                );
            }
            if headers_len > total - 16 {
                return Err(
                    SdkError::Other(
                        concat2(
                            "invalid AWS event-stream headers length ",
                            decimal_text(headers_len as u64).as_str(),
                        ),
                    ),
                );
            }
            if self.buffer.len() < total {
                break;
            }
            let message = self.buffer.as_slice();
            if read_be_u32(message, 8) != crc32_of(slice_subrange(message, 0, 8)) {
                return Err(other_error("AWS event-stream prelude CRC mismatch"));
            }
            if read_be_u32(message, total - 4) != crc32_of(slice_subrange(message, 0, total - 4)) {
                return Err(other_error("AWS event-stream message CRC mismatch"));
            }
            let headers = match parse_event_headers(
                slice_subrange(message, 12, 12 + headers_len),
            ) {
                Ok(headers) => headers,
                Err(e) => {
                    return Err(e);
                },
            };
            let payload = bytes_of(message, 12 + headers_len, total - 4);
            let ghost before = event_views(messages@);
            messages.push(AwsEventStreamMessage { headers, payload });
            self.buffer = bytes_of(self.buffer.as_slice(), total, self.buffer.len());
            proof {
                let event = EventView { headers: pair_views(headers@), payload: payload@ };
                assert(event_views(messages@) =~= before + seq![event]);
                let next = drained(self.buffer@);
                assert(before + (seq![event] + next.events) =~= (before + seq![event])
                    + next.events);
            }
        }
        proof {
            assert(event_views(messages@) + Seq::<EventView>::empty() =~= event_views(messages@));
        }
        Ok(messages)
    }

    /// Ends the stream, which must not be in the middle of a message.
    pub fn finish(&self) -> (r: Result<(), SdkError>)
        ensures
            match r {
                Ok(_) => self.buffer@.len() == 0,
                Err(e) => self.buffer@.len() > 0 && e@ == ErrorView::Other(
                    "Bedrock event stream ended with "@ + decimal(self.buffer@.len())
                        + " truncated bytes"@,
                ),
            },
    {
        if self.buffer.len() == 0 {
            Ok(())
        } else {
            Err(
                SdkError::Other(
                    concat3(
                        "Bedrock event stream ended with ",
                        decimal_text(self.buffer.len() as u64).as_str(),
                        " truncated bytes",
                    ),
                ),
            )
        }
    }
}

/// Numbers are written with the most significant byte first.
pub proof fn numbers_have_their_first_byte_first(bytes: Seq<u8>, at: int)
    ensures
        be16(bytes, at) == 256 * bytes[at] + bytes[at + 1],
        be32(bytes, at) == 65536 * be16(bytes, at) + be16(bytes, at + 2),
{
}

/// A message is complete with as many bytes as it says at its beginning, and is refused
/// where a length or a checksum is wrong: its payload stands between its headers and the
/// checksum at its end.
pub proof fn wrong_lengths_and_checksums_are_refused(bytes: Seq<u8>)
    ensures
        bytes.len() < 12 ==> first_frame(bytes) is Incomplete,
        bytes.len() >= 12 ==> ({
            let total = be32(bytes, 0) as int;
            let head = be32(bytes, 4) as int;
            let first = first_frame(bytes);
            &&& total < 16 || total > 33_554_432 || head > total - 16 ==> first is Broken
            &&& 16 <= total <= 33_554_432 && head <= total - 16 && bytes.len() < total
                ==> first is Incomplete
            &&& 16 <= total <= 33_554_432 && head <= total - 16 && bytes.len() >= total ==> {
                &&& be32(bytes, 8) != crc32(bytes.subrange(0, 8)) ==> first is Broken
                &&& be32(bytes, total - 4) != crc32(bytes.subrange(0, total - 4))
                    ==> first is Broken
                &&& first matches Frame::Whole { size, event } ==> {
                    &&& size == total
                    &&& event.payload == bytes.subrange(12 + head, total - 4)
                    &&& headers_from(bytes.subrange(12, 12 + head), 0) == Ok::<
                        Seq<(Seq<char>, Seq<char>)>,
                        ErrorView,
                    >(event.headers)
                }
                &&& be32(bytes, 8) == crc32(bytes.subrange(0, 8)) && be32(bytes, total - 4)
                    == crc32(bytes.subrange(0, total - 4)) && headers_from(
                    bytes.subrange(12, 12 + head),
                    0,
                ) is Ok ==> first is Whole
            }
        }),
{
}

/// Messages are taken off one by one, from the front.
pub proof fn messages_are_taken_in_order(bytes: Seq<u8>)
    ensures
        first_frame(bytes) is Incomplete ==> drained(bytes).events.len() == 0 && drained(bytes).rest
            == bytes && drained(bytes).fault is None,
        first_frame(bytes) matches Frame::Broken(e) ==> drained(bytes).events.len() == 0 && drained(
            bytes,
        ).rest == bytes && drained(bytes).fault == Some(e),
        first_frame(bytes) matches Frame::Whole { size, event } ==> drained(bytes) == drained_after(
            seq![event],
            drained(bytes.subrange(size, bytes.len() as int)),
        ),
{
}

/// The values of headers take the room that their type says; those that are no texts are
/// passed over, and a type that is not known is refused.
pub proof fn values_take_their_room(bytes: Seq<u8>, kind: u8, at: int)
    ensures
        ({
            let size = value_size(bytes, kind, at);
            let left = bytes.len() - at;
            &&& size matches Ok(n) ==> at + n <= bytes.len()
            &&& kind == 0 || kind == 1 ==> (left >= 0 ==> size == Ok::<int, ErrorView>(0))
            &&& kind == 2 ==> (left >= 1 ==> size == Ok::<int, ErrorView>(1))
            &&& kind == 3 ==> (left >= 2 ==> size == Ok::<int, ErrorView>(2))
            &&& kind == 4 ==> (left >= 4 ==> size == Ok::<int, ErrorView>(4))
            &&& kind == 5 || kind == 8 ==> (left >= 8 ==> size == Ok::<int, ErrorView>(8))
            &&& kind == 9 ==> (left >= 16 ==> size == Ok::<int, ErrorView>(16))
            &&& kind == 6 || kind == 7 ==> (left >= 2 && left >= 2 + 256 * bytes[at] + bytes[at + 1]
                ==> size == Ok::<int, ErrorView>(2 + 256 * bytes[at] + bytes[at + 1]))
            &&& kind > 9 ==> size is Err
        }),
{
}

} // verus!
