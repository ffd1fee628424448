//! Messages on a byte stream: headers that tell the length, an empty line, the
//! message.
use vstd::prelude::*;
use vstd::string::*;
use vstd::utf8::*;

use crate::text::{
    after_prefix, append_bytes, bytes_of, concat3, decimal, decimal_reads_back, decimal_text,
    from_utf8, is_space, parse_unsigned, parsed_unsigned, strip_prefix, trim, trimmed, trimmed_end,
    trimmed_start,
};

verus! {

/// What is wrong with a stream of messages.
#[derive(Clone, Copy, Debug, PartialEq, Eq, Structural)]
pub enum FrameFault {
    /// The length is not a number.
    InvalidLength,
    /// There is no length.
    MissingLength,
    /// A header is not UTF-8.
    NotText,
    /// The stream ended within a message.
    EarlyEnd,
}

/// What comes next on a stream.
#[derive(Debug)]
pub enum FrameStep {
    /// More bytes are needed.
    More,
    /// There is no further message.
    Ended,
    /// A message, and how many bytes it took with its headers.
    Message { body: Vec<u8>, used: usize },
    Broken(FrameFault),
}

/// What a `FrameStep` says.
pub enum FrameView {
    More,
    Ended,
    Message { body: Seq<u8>, used: int },
    Broken(FrameFault),
}

impl View for FrameStep {
    type V = FrameView;

    open spec fn view(&self) -> FrameView {
        match self {
            FrameStep::More => FrameView::More,
            FrameStep::Ended => FrameView::Ended,
            FrameStep::Message { body, used } => FrameView::Message {
                body: body@,
                used: *used as int,
            },
            FrameStep::Broken(fault) => FrameView::Broken(*fault),
        }
    }
}

/// What a line of the headers says.
#[derive(Clone, Copy, Debug, PartialEq, Eq, Structural)]
pub enum HeaderLine {
    /// The headers are over.
    Blank,
    Length(usize),
    Other,
    Bad,
}

/// What a line of the headers says.
pub open spec fn header_line(line: Seq<char>) -> HeaderLine {
    let text = trimmed(line);
    if text.len() == 0 {
        HeaderLine::Blank
    } else {
        match after_prefix(text, "Content-Length:"@) {
            Some(value) => match parsed_unsigned(trimmed(value), usize::MAX as nat) {
                Some(n) => HeaderLine::Length(n as usize),
                None => HeaderLine::Bad,
            },
            None => HeaderLine::Other,
        }
    }
}

/// Reads a line of the headers.
pub fn read_header_line(line: &str) -> (r: HeaderLine)
    ensures
        r == header_line(line@),
{
    let text = trim(line);
    if text.as_str().is_empty() {
        return HeaderLine::Blank;
    }
    match strip_prefix(text.as_str(), "Content-Length:") {
        Some(value) => {
            let number = trim(value.as_str());
            match parse_unsigned(number.as_str(), usize::MAX as u64) {
                Some(n) => HeaderLine::Length(n as usize),
                None => HeaderLine::Bad,
            }
        },
        None => HeaderLine::Other,
    }
}

/// Where the first line break stands, from a place on.
pub open spec fn newline_at(bytes: Seq<u8>, from: int) -> Option<int>
    decreases bytes.len() - from,
{
    if from < 0 || from >= bytes.len() {
        None
    } else if bytes[from] == 10 {
        Some(from)
    } else {
        newline_at(bytes, from + 1)
    }
}

proof fn newline_is_first(bytes: Seq<u8>, from: int)
    requires
        0 <= from,
    ensures
        match newline_at(bytes, from) {
            Some(at) => from <= at < bytes.len() && bytes[at] == 10 && forall|i: int|
                from <= i < at ==> bytes[i] != 10,
            None => forall|i: int| from <= i < bytes.len() ==> bytes[i] != 10,
        },
    decreases bytes.len() - from,
{
    if from < bytes.len() && bytes[from] != 10 {
        newline_is_first(bytes, from + 1);
    }
}

proof fn newline_found(bytes: Seq<u8>, from: int, at: int)
    requires
        0 <= from <= at < bytes.len(),
        bytes[at] == 10,
        forall|i: int| from <= i < at ==> bytes[i] != 10,
    ensures
        newline_at(bytes, from) == Some(at),
    decreases at - from,
{
    if from < at {
        newline_found(bytes, from + 1, at);
    }
}

/// The message after the headers.
pub open spec fn body_at(bytes: Seq<u8>, at: int, length: Option<usize>, ended: bool) -> FrameView {
    match length {
        Some(n) => if at + n <= bytes.len() {
            FrameView::Message { body: bytes.subrange(at, at + n), used: at + n }
        } else if ended {
            FrameView::Broken(FrameFault::EarlyEnd)
        } else {
            FrameView::More
        },
        None => FrameView::Broken(FrameFault::MissingLength),
    }
}

/// What comes next on a stream whose headers are read up to `from`; `length` is what
/// they told so far, and `ended` tells that no more bytes will come.
pub open spec fn read_from(
    bytes: Seq<u8>,
    from: int,
    length: Option<usize>,
    ended: bool,
) -> FrameView
    decreases bytes.len() - from,
    via read_from_decreases
{
    let found = newline_at(bytes, from);
    if from < 0 || (found is None && !ended) {
        FrameView::More
    } else if found is None && from >= bytes.len() {
        FrameView::Ended
    } else {
        let end = match found {
            Some(at) => at + 1,
            None => bytes.len() as int,
        };
        let line = bytes.subrange(from, end);
        if !valid_utf8(line) {
            FrameView::Broken(FrameFault::NotText)
        } else {
            match header_line(decode_utf8(line)) {
                HeaderLine::Blank => body_at(bytes, end, length, ended),
                HeaderLine::Length(n) => read_from(bytes, end, Some(n), ended),
                HeaderLine::Other => read_from(bytes, end, length, ended),
                HeaderLine::Bad => FrameView::Broken(FrameFault::InvalidLength),
            }
        }
    }
}

#[via_fn]
proof fn read_from_decreases(bytes: Seq<u8>, from: int, length: Option<usize>, ended: bool) {
    if from >= 0 {
        newline_is_first(bytes, from);
    }
}

/// What comes next on a stream.
pub open spec fn next_frame(bytes: Seq<u8>, ended: bool) -> FrameView {
    read_from(bytes, 0, None, ended)
}

/// The headers of a message of some length.
pub open spec fn frame_header(n: nat) -> Seq<char> {
    "Content-Length: "@ + decimal(n) + "\r\n\r\n"@
}

/// A message with its headers.
pub open spec fn frame(message: Seq<u8>) -> Seq<u8> {
    encode_utf8(frame_header(message.len())) + message
}

/// A message with its headers.
pub fn write_message(message: &[u8]) -> (r: Vec<u8>)
    ensures
        r@ == frame(message@),
{
    let header = concat3("Content-Length: ", decimal_text(message.len() as u64).as_str(), "\r\n\r\n");
    let mut out: Vec<u8> = Vec::new();
    append_bytes(&mut out, header.as_str().as_bytes());
    append_bytes(&mut out, message);
    assert(out@ =~= frame(message@));
    out
}

fn find_newline(bytes: &[u8], from: usize) -> (r: Option<usize>)
    requires
        from <= bytes@.len(),
    ensures
        match r {
            Some(at) => newline_at(bytes@, from as int) == Some(at as int),
            None => newline_at(bytes@, from as int) is None,
        },
{
    let mut i: usize = from;
    let n: usize = bytes.len();
    while i < n
        invariant
            from <= i <= n,
            n == bytes@.len(),
            newline_at(bytes@, from as int) == newline_at(bytes@, i as int),
        decreases n - i,
    {
        if bytes[i] == 10 {
            return Some(i);
        }
        i = i + 1;
    }
    None
}

/// Reads the next message of a stream from the bytes that have come; `ended` tells
/// that no more will.
pub fn read_message(bytes: &[u8], ended: bool) -> (r: FrameStep)
    ensures
        r@ == next_frame(bytes@, ended),
{
    let n: usize = bytes.len();
    let mut from: usize = 0;
    let mut length: Option<usize> = None;
    loop
        invariant
            from <= n,
            n == bytes@.len(),
            next_frame(bytes@, ended) == read_from(bytes@, from as int, length, ended),
        decreases n - from,
    {
        proof {
            newline_is_first(bytes@, from as int);
        }
        let found = find_newline(bytes, from);
        let end: usize = match found {
            Some(at) => at + 1,
            None => {
                if !ended {
                    return FrameStep::More;
                }
                if from == n {
                    return FrameStep::Ended;
                }
                n
            },
        };
        let line = bytes_of(bytes, from, end);
        let text = match from_utf8(line.as_slice()) {
            Ok(text) => text,
            Err(_) => return FrameStep::Broken(FrameFault::NotText),
        };
        match read_header_line(text.as_str()) {
            HeaderLine::Blank => {
                return match length {
                    Some(size) => if size <= n - end {
                        FrameStep::Message { body: bytes_of(bytes, end, end + size), used: end + size }
                    } else if ended {
                        FrameStep::Broken(FrameFault::EarlyEnd)
                    } else {
                        FrameStep::More
                    },
                    None => FrameStep::Broken(FrameFault::MissingLength),
                };
            },
            HeaderLine::Length(size) => {
                length = Some(size);
            },
            HeaderLine::Other => {},
            HeaderLine::Bad => return FrameStep::Broken(FrameFault::InvalidLength),
        }
        from = end;
    }
}

proof fn stable_from(a: Seq<u8>, b: Seq<u8>, from: int, length: Option<usize>, ended: bool)
    requires
        0 <= from <= a.len(),
        read_from(a, from, length, false) !is More,
    ensures
        read_from(a + b, from, length, ended) == read_from(a, from, length, false),
    decreases a.len() - from,
{
    newline_is_first(a, from);
    match newline_at(a, from) {
        Some(at) => {
            newline_found(a + b, from, at);
            let end = at + 1;
            assert((a + b).subrange(from, end) =~= a.subrange(from, end));
            let line = a.subrange(from, end);
            if valid_utf8(line) {
                match header_line(decode_utf8(line)) {
                    HeaderLine::Blank => {
                        if let Some(n) = length {
                            assert((a + b).subrange(end, end + n) =~= a.subrange(end, end + n));
                        }
                    },
                    HeaderLine::Length(n) => {
                        stable_from(a, b, end, Some(n), ended);
                    },
                    HeaderLine::Other => {
                        stable_from(a, b, end, length, ended);
                    },
                    HeaderLine::Bad => {},
                }
            }
        },
        None => {},
    }
}

/// However the bytes of a stream are cut, the same messages are read: what was read
/// from the first bytes is read whatever comes after them.
pub proof fn cuts_do_not_matter(first: Seq<u8>, more: Seq<u8>, ended: bool)
    requires
        next_frame(first, false) !is More,
    ensures
        next_frame(first + more, ended) == next_frame(first, false),
{
    stable_from(first, more, 0, None, ended);
}

proof fn first_line_says(n: nat)
    requires
        n <= usize::MAX,
    ensures
        header_line("Content-Length: "@ + decimal(n) + "\r\n"@) == HeaderLine::Length(n as usize),
{
    reveal_strlit("Content-Length: ");
    reveal_strlit("Content-Length:");
    reveal_strlit("\r\n");
    decimal_reads_back(n);
    let digits = decimal(n);
    let start = "Content-Length: "@;
    let line = start + digits + "\r\n"@;
    assert(!is_space(line[0]));
    assert(trimmed_start(line) == line);
    let text = start + digits;
    assert(line.drop_last().drop_last() =~= text);
    assert(is_space(line.last()));
    assert(is_space(line.drop_last().last()));
    assert(text.last() == digits.last());
    assert(crate::text::is_digit(digits[digits.len() - 1]));
    assert(!is_space(text.last()));
    reveal_with_fuel(trimmed_end, 3);
    assert(trimmed(line) == text);
    let prefix = "Content-Length:"@;
    assert(text.subrange(0, prefix.len() as int) =~= prefix);
    let value = text.subrange(prefix.len() as int, text.len() as int);
    assert(after_prefix(text, prefix) == Some(value));
    assert(value =~= seq![' '] + digits);
    assert(is_space(value[0]));
    assert(value.drop_first() =~= digits);
    assert(crate::text::is_digit(digits[0]));
    reveal_with_fuel(trimmed_start, 2);
    assert(trimmed_start(value) == digits);
    assert(trimmed(value) == digits);
    assert(parsed_unsigned(digits, usize::MAX as nat) == Some(n));
}

proof fn second_line_says()
    ensures
        header_line("\r\n"@) == HeaderLine::Blank,
{
    reveal_strlit("\r\n");
    let line = "\r\n"@;
    reveal_with_fuel(trimmed_start, 3);
    assert(is_space(line[0]));
    assert(line.drop_first().drop_first() =~= Seq::empty());
    assert(trimmed_start(line) =~= Seq::empty());
}

/// A message that was written is read back, whatever follows it.
pub proof fn messages_read_back(message: Seq<u8>, more: Seq<u8>, ended: bool)
    requires
        message.len() <= usize::MAX,
    ensures
        next_frame(frame(message) + more, ended) == (FrameView::Message {
            body: message,
            used: frame(message).len() as int,
        }),
{
    let n = message.len();
    let header = frame_header(n);
    let digits = decimal(n);
    let first = "Content-Length: "@ + digits + "\r\n"@;
    let second = "\r\n"@;
    reveal_strlit("Content-Length: ");
    reveal_strlit("\r\n");
    reveal_strlit("\r\n\r\n");
    decimal_reads_back(n);
    assert(header =~= first + second);
    assert forall|i: int| 0 <= i < digits.len() implies '0' <= #[trigger] digits[i] <= '9' by {
        assert(crate::text::is_digit(digits[i]));
    }
    assert(is_ascii_chars(digits));
    assert forall|i: int| 0 <= i < header.len() implies '\0' <= #[trigger] header[i] <= '\u{7f}' by {
        let s = "Content-Length: "@.len() as int;
        if i >= s && i < s + digits.len() {
            assert(header[i] == digits[i - s]);
        }
    }
    assert(is_ascii_chars(header));
    assert(is_ascii_chars(first)) by {
        assert forall|i: int| 0 <= i < first.len() implies '\0' <= #[trigger] first[i]
            <= '\u{7f}' by {
            assert(first[i] == header[i]);
        }
    }
    assert(is_ascii_chars(second));
    is_ascii_chars_encode_utf8(header);
    is_ascii_chars_encode_utf8(first);
    is_ascii_chars_encode_utf8(second);
    let bytes = frame(message) + more;
    let a = first.len() as int;
    let b = header.len() as int;
    // The first line tells the length.
    assert forall|i: int| 0 <= i < a - 1 implies bytes[i] != 10 by {
        assert(bytes[i] == encode_utf8(header)[i]);
        assert(bytes[i] == header[i] as u8);
        assert(header[i] == first[i]);
        let s = "Content-Length: "@.len() as int;
        if i >= s && i < s + digits.len() {
            assert(first[i] == digits[i - s]);
        }
    }
    assert(bytes[a - 1] == encode_utf8(header)[a - 1]);
    assert(header[a - 1] == '\n');
    newline_found(bytes, 0, a - 1);
    assert(bytes.subrange(0, a) =~= encode_utf8(first)) by {
        assert forall|i: int| 0 <= i < a implies bytes[i] == encode_utf8(first)[i] by {
            assert(bytes[i] == encode_utf8(header)[i]);
            assert(header[i] == first[i]);
        }
    }
    encode_utf8_valid_utf8(first);
    encode_utf8_decode_utf8(first);
    first_line_says(n);
    // The second line is blank.
    assert(bytes[a] == encode_utf8(header)[a]);
    assert(header[a] == '\r');
    assert(bytes[a + 1] == encode_utf8(header)[a + 1]);
    assert(header[a + 1] == '\n');
    newline_found(bytes, a, a + 1);
    assert(bytes.subrange(a, b) =~= encode_utf8(second)) by {
        assert forall|i: int| 0 <= i < 2 implies bytes[a + i] == encode_utf8(second)[i] by {
            assert(bytes[a + i] == encode_utf8(header)[a + i]);
            assert(header[a + i] == second[i]);
        }
    }
    encode_utf8_valid_utf8(second);
    encode_utf8_decode_utf8(second);
    second_line_says();
    assert(bytes.subrange(b, b + n) =~= message);
    assert(read_from(bytes, a, Some(n as usize), ended) == body_at(
        bytes,
        b,
        Some(n as usize),
        ended,
    ));
}

/// Gathers the bytes of a stream and reads messages from them.
#[derive(Debug)]
pub struct FrameReader {
    pub buffer: Vec<u8>,
}

impl FrameReader {
    pub fn new() -> (r: Self)
        ensures
            r.buffer@ == Seq::<u8>::empty(),
    {
        FrameReader { buffer: Vec::new() }
    }

    /// Takes in bytes.
    pub fn push(&mut self, bytes: &[u8])
        ensures
            final(self).buffer@ == old(self).buffer@ + bytes@,
    {
        append_bytes(&mut self.buffer, bytes);
    }

    /// Reads the next message and takes its bytes away.
    pub fn next_message(&mut self, ended: bool) -> (r: FrameStep)
        ensures
            r@ == next_frame(old(self).buffer@, ended),
            final(self).buffer@ == (match r {
                FrameStep::Message { used, .. } => old(self).buffer@.subrange(
                    used as int,
                    old(self).buffer@.len() as int,
                ),
                _ => old(self).buffer@,
            }),
            r matches FrameStep::Message { used, .. } ==> used <= old(self).buffer@.len(),
    {
        let step = read_message(self.buffer.as_slice(), ended);
        proof {
            used_fits(self.buffer@, 0, None, ended);
        }
        if let FrameStep::Message { used, .. } = &step {
            let n: usize = self.buffer.len();
            let rest = bytes_of(self.buffer.as_slice(), *used, n);
            self.buffer = rest;
        }
        step
    }
}

proof fn used_fits(bytes: Seq<u8>, from: int, length: Option<usize>, ended: bool)
    requires
        0 <= from <= bytes.len(),
    ensures
        read_from(bytes, from, length, ended) matches FrameView::Message { used, .. } ==> 0 <= used
            <= bytes.len(),
    decreases bytes.len() - from,
{
    newline_is_first(bytes, from);
    let end = match newline_at(bytes, from) {
        Some(at) => at + 1,
        None => bytes.len() as int,
    };
    if end > from && valid_utf8(bytes.subrange(from, end)) {
        match header_line(decode_utf8(bytes.subrange(from, end))) {
            HeaderLine::Length(n) => {
                used_fits(bytes, end, Some(n), ended);
            },
            HeaderLine::Other => {
                used_fits(bytes, end, length, ended);
            },
            _ => {},
        }
    }
}

/// A blank line ends the headers; the length follows its name, with or without white space
/// around it; other headers say nothing of it.
pub proof fn headers_tell_the_length(line: Seq<char>)
    ensures
        trimmed(line).len() == 0 <==> header_line(line) is Blank,
        trimmed(line).len() > 0 && after_prefix(trimmed(line), "Content-Length:"@) is None
            ==> header_line(line) is Other,
        trimmed(line).len() > 0 && after_prefix(trimmed(line), "Content-Length:"@) is Some ==> ({
            let n = parsed_unsigned(
                trimmed(after_prefix(trimmed(line), "Content-Length:"@)->0),
                usize::MAX as nat,
            );
            &&& n is None ==> header_line(line) is Bad
            &&& n is Some ==> header_line(line) == HeaderLine::Length(n->0 as usize)
        }),
{
}

/// The message is the bytes after the headers, as many as they tell; without a length it
/// cannot be read, and with too few bytes more are waited for, unless none will come.
pub proof fn messages_follow_their_headers(
    bytes: Seq<u8>,
    at: int,
    n: usize,
    ended: bool,
)
    ensures
        body_at(bytes, at, None, ended) == FrameView::Broken(FrameFault::MissingLength),
        at + n <= bytes.len() ==> body_at(bytes, at, Some(n), ended) == (FrameView::Message {
            body: bytes.subrange(at, at + n),
            used: at + n,
        }),
        at + n > bytes.len() && ended ==> body_at(bytes, at, Some(n), ended) == FrameView::Broken(
            FrameFault::EarlyEnd,
        ),
        at + n > bytes.len() && !ended ==> body_at(bytes, at, Some(n), ended) is More,
        next_frame(Seq::empty(), true) is Ended,
        next_frame(Seq::empty(), false) is More,
{
}

/// A message is written with its length before it.
pub proof fn messages_are_written_with_their_length(message: Seq<u8>)
    ensures
        frame(message) == encode_utf8("Content-Length: "@ + decimal(message.len()) + "\r\n\r\n"@)
            + message,
{
}

} // verus!
